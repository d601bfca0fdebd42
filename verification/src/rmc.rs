//! The per-record accept/reject decision for Residents' Management
//! Companies: the relevance predicate over entity types, the two
//! name-matching rules, and their composition into one decision function
//! plus the batch filter over a sequence of records.

use vstd::prelude::*;

use crate::legal_entity::EntityType;
use crate::legal_entity::LegalEntityRecord;
use crate::legal_entity::has_relevant_sic;
use crate::legal_entity::entity_type_of_str;
use crate::legal_entity::sics_of_one_record;
use crate::legal_entity::spec_description;
use crate::legal_entity::spec_entity_type_of;
use crate::legal_entity::spec_has_relevant_sic;
use crate::legal_entity::spec_sics_of;
use crate::util::contains_substring;
use crate::util::matches_any_substring;
use crate::util::spec_contains;
use crate::util::spec_matches_any;

verus! {

/// Is an entity of this type worth examining further? Public companies,
/// community-interest companies, charitable organisations, registered
/// societies and the catch-all recognised bucket are categorically
/// incompatible with being an RMC; the rest pass through.
pub open spec fn spec_examine(t: EntityType) -> bool {
    match t {
        EntityType::Plc => false,
        EntityType::CIC => false,
        EntityType::CIO => false,
        EntityType::RegSoc => false,
        EntityType::Recognised => false,
        _ => true,
    }
}

/// The cheap rejection applied before any name or SIC check.
pub fn examine_entity_type(entity_type: EntityType) -> (r: bool)
    ensures
        r == spec_examine(entity_type),
{
    match entity_type {
        EntityType::Plc => false,
        EntityType::CIC => false,
        EntityType::CIO => false,
        EntityType::RegSoc => false,
        EntityType::Recognised => false,
        _ => true,
    }
}

/// A name matches the exclusion rule: it contains at least one configured
/// excluded substring. A match is a hard veto.
pub open spec fn spec_exclude_by_name(name: Seq<char>, excluded: Seq<Seq<char>>) -> bool {
    spec_matches_any(name, excluded)
}

/// True iff `name` contains any of the configured excluded substrings.
pub fn exclude_by_name(name: &String, excluded_names: &Vec<String>) -> (r: bool)
    ensures
        r == spec_exclude_by_name(name@, excluded_names.deep_view()),
{
    matches_any_substring(name, excluded_names)
}

/// A name matches the inclusion rule: it contains a configured included
/// substring, or it contains both `" HOUSE "` and `"MANAGEMENT"` anywhere —
/// the hardcoded structural heuristic for common RMC naming conventions.
pub open spec fn spec_include_by_name(name: Seq<char>, included: Seq<Seq<char>>) -> bool {
    spec_matches_any(name, included) || (spec_contains(name, " HOUSE "@) && spec_contains(
        name,
        "MANAGEMENT"@,
    ))
}

/// True iff `name` matches the inclusion rule.
pub fn include_by_name(name: &String, included_names: &Vec<String>) -> (r: bool)
    ensures
        r == spec_include_by_name(name@, included_names.deep_view()),
{
    if matches_any_substring(name, included_names) {
        true
    } else {
        contains_substring(name.as_str(), " HOUSE ") && contains_substring(
            name.as_str(),
            "MANAGEMENT",
        )
    }
}

/// An accepted record, reduced to the three output fields.
#[derive(Debug)]
pub struct RMC {
    pub name: String,
    pub number: String,
    pub description: String,
}

impl RMC {
    pub fn new(name: String, number: String, description: String) -> (r: RMC)
        ensures
            r.name == name,
            r.number == number,
            r.description == description,
    {
        RMC { name, number, description }
    }

    /// The output row, in fixed order: number, type description, name.
    pub fn to_vec(&self) -> (r: Vec<String>)
        ensures
            r.deep_view() == seq![self.number@, self.description@, self.name@],
    {
        let mut out: Vec<String> = Vec::new();
        out.push(self.number.clone());
        out.push(self.description.clone());
        out.push(self.name.clone());
        proof {
            assert(out.deep_view() =~~= seq![self.number@, self.description@, self.name@]);
        }
        out
    }
}

/// The whole rule chain accepts the record: its legal form is recognised and
/// worth examining, no excluded substring occurs in its name, at least one
/// extracted SIC code is relevant, and the name matches the inclusion rule.
/// Exclusion takes precedence over inclusion.
pub open spec fn spec_rmc_accepts(
    c: LegalEntityRecord,
    excluded: Seq<Seq<char>>,
    included: Seq<Seq<char>>,
) -> bool {
    match spec_entity_type_of(c.company_type@) {
        None => false,
        Some(t) => {
            &&& spec_examine(t)
            &&& !spec_exclude_by_name(c.name@, excluded)
            &&& spec_has_relevant_sic(spec_sics_of(c))
            &&& spec_include_by_name(c.name@, included)
        },
    }
}

/// The outcome of the decision function: accepted with its projection,
/// rejected by one of the rules, or carrying a legal form outside the lookup
/// table — a distinct outcome the caller must report, not a mere rejection.
#[derive(Debug)]
pub enum RmcDecision {
    Accepted(RMC),
    Rejected,
    Unrecognised,
}

/// The canonical per-record decision: classify the entity type, reject the
/// irrelevant forms, apply the exclusion rule, the SIC relevance check and
/// the inclusion rule, in that order.
pub fn get_rmc(
    c: &LegalEntityRecord,
    excluded_names: &Vec<String>,
    included_names: &Vec<String>,
) -> (r: RmcDecision)
    ensures
        match spec_entity_type_of(c.company_type@) {
            None => r is Unrecognised,
            Some(t) => {
                &&& (r is Accepted) == spec_rmc_accepts(
                    *c,
                    excluded_names.deep_view(),
                    included_names.deep_view(),
                )
                &&& (r is Rejected) == !spec_rmc_accepts(
                    *c,
                    excluded_names.deep_view(),
                    included_names.deep_view(),
                )
                &&& (r matches RmcDecision::Accepted(rmc) ==> rmc.name@ == c.name@
                    && rmc.number@ == c.number@ && rmc.description@ == spec_description(t))
            },
        },
{
    let t = entity_type_of_str(c.company_type.as_str());
    let et = match t {
        None => {
            return RmcDecision::Unrecognised;
        },
        Some(et) => et,
    };
    if !examine_entity_type(et) {
        return RmcDecision::Rejected;
    }
    if exclude_by_name(&c.name, excluded_names) {
        return RmcDecision::Rejected;
    }
    let sics = sics_of_one_record(c);
    if !has_relevant_sic(&sics) {
        return RmcDecision::Rejected;
    }
    let rmc = RMC::new(c.name.clone(), c.number.clone(), et.description());
    if include_by_name(&c.name, included_names) {
        RmcDecision::Accepted(rmc)
    } else {
        RmcDecision::Rejected
    }
}

/// The projection of an accepted record, as the batch filter emits it.
pub open spec fn spec_rmc_row(c: LegalEntityRecord) -> Seq<Seq<char>>
    recommends
        spec_entity_type_of(c.company_type@) is Some,
{
    seq![c.number@, spec_description(spec_entity_type_of(c.company_type@)->0), c.name@]
}

/// The rows the batch filter emits for `records`: the projection of each
/// accepted record, in input order.
pub open spec fn spec_find_rmcs(
    records: Seq<LegalEntityRecord>,
    excluded: Seq<Seq<char>>,
    included: Seq<Seq<char>>,
) -> Seq<Seq<Seq<char>>>
    decreases records.len(),
{
    if records.len() == 0 {
        Seq::empty()
    } else {
        let rest = spec_find_rmcs(records.drop_first(), excluded, included);
        if spec_rmc_accepts(records[0], excluded, included) {
            seq![spec_rmc_row(records[0])] + rest
        } else {
            rest
        }
    }
}

proof fn lemma_find_rmcs_push(
    records: Seq<LegalEntityRecord>,
    x: LegalEntityRecord,
    excluded: Seq<Seq<char>>,
    included: Seq<Seq<char>>,
)
    ensures
        spec_find_rmcs(records.push(x), excluded, included) == spec_find_rmcs(
            records,
            excluded,
            included,
        ) + (if spec_rmc_accepts(x, excluded, included) {
            seq![spec_rmc_row(x)]
        } else {
            Seq::<Seq<Seq<char>>>::empty()
        }),
    decreases records.len(),
{
    if records.len() == 0 {
        assert(records.push(x)[0] == x);
        assert(records.push(x).drop_first() =~= records);
        assert(spec_find_rmcs(records, excluded, included) == Seq::<Seq<Seq<char>>>::empty());
        assert(spec_find_rmcs(records.push(x), excluded, included) =~= spec_find_rmcs(
            records,
            excluded,
            included,
        ) + (if spec_rmc_accepts(x, excluded, included) {
            seq![spec_rmc_row(x)]
        } else {
            Seq::<Seq<Seq<char>>>::empty()
        }));
    } else {
        let p = records.push(x);
        let tail_x = if spec_rmc_accepts(x, excluded, included) {
            seq![spec_rmc_row(x)]
        } else {
            Seq::<Seq<Seq<char>>>::empty()
        };
        let rest = spec_find_rmcs(records.drop_first(), excluded, included);
        assert(p.drop_first() =~= records.drop_first().push(x));
        lemma_find_rmcs_push(records.drop_first(), x, excluded, included);
        assert(spec_find_rmcs(p.drop_first(), excluded, included) == rest + tail_x);
        assert(p[0] == records[0]);
        if spec_rmc_accepts(records[0], excluded, included) {
            assert(spec_find_rmcs(p, excluded, included) == seq![spec_rmc_row(records[0])] + (rest
                + tail_x));
            assert(spec_find_rmcs(records, excluded, included) == seq![spec_rmc_row(records[0])]
                + rest);
            assert(seq![spec_rmc_row(records[0])] + (rest + tail_x) =~= (seq![spec_rmc_row(
                records[0],
            )] + rest) + tail_x);
        } else {
            assert(spec_find_rmcs(p, excluded, included) == rest + tail_x);
            assert(spec_find_rmcs(records, excluded, included) == rest);
        }
    }
}

/// The batch filter: apply the decision function to each record in order and
/// collect the projections of the accepted ones. Unrecognised records are
/// dropped here like any other non-accepted record; the per-record decision
/// function is what a caller uses to report them.
pub fn find_rmcs(
    records: &Vec<LegalEntityRecord>,
    excluded_names: &Vec<String>,
    included_names: &Vec<String>,
) -> (r: Vec<Vec<String>>)
    ensures
        r.deep_view() == spec_find_rmcs(
            records@,
            excluded_names.deep_view(),
            included_names.deep_view(),
        ),
{
    let ghost ex = excluded_names.deep_view();
    let ghost inc = included_names.deep_view();
    let mut out: Vec<Vec<String>> = Vec::new();
    let mut i: usize = 0;
    proof {
        assert(out.deep_view() =~~= spec_find_rmcs(records@.take(0), ex, inc));
    }
    while i < records.len()
        invariant
            0 <= i <= records@.len(),
            ex == excluded_names.deep_view(),
            inc == included_names.deep_view(),
            out.deep_view() == spec_find_rmcs(records@.take(i as int), ex, inc),
        decreases records@.len() - i,
    {
        let ghost out0 = out.deep_view();
        match get_rmc(&records[i], excluded_names, included_names) {
            RmcDecision::Accepted(rmc) => {
                let row = rmc.to_vec();
                proof {
                    assert(row.deep_view() == spec_rmc_row(records@[i as int]));
                }
                out.push(row);
                proof {
                    assert(out.deep_view() =~~= out0 + seq![spec_rmc_row(records@[i as int])]);
                }
            },
            _ => {},
        }
        proof {
            lemma_find_rmcs_push(records@.take(i as int), records@[i as int], ex, inc);
            assert(records@.take(i + 1) =~= records@.take(i as int).push(records@[i as int]));
            assert(out.deep_view() =~~= spec_find_rmcs(records@.take(i + 1), ex, inc));
        }
        i += 1;
    }
    proof {
        assert(records@.take(records@.len() as int) =~= records@);
    }
    out
}

/// Re-running the record pipeline on the same records and the same wordlists
/// yields the same rows in the same order: the emitted rows are a function
/// of the input sequences alone, with no hidden nondeterminism.
pub proof fn lemma_find_rmcs_deterministic(
    records_a: Seq<LegalEntityRecord>,
    records_b: Seq<LegalEntityRecord>,
    excluded_a: Seq<Seq<char>>,
    excluded_b: Seq<Seq<char>>,
    included_a: Seq<Seq<char>>,
    included_b: Seq<Seq<char>>,
)
    requires
        records_a == records_b,
        excluded_a == excluded_b,
        included_a == included_b,
    ensures
        spec_find_rmcs(records_a, excluded_a, included_a) == spec_find_rmcs(
            records_b,
            excluded_b,
            included_b,
        ),
{
}

} // verus!
