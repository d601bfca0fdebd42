//! The register's working data: the raw record shape, the closed set of
//! entity types with their canonical descriptions, the legal-form lookup
//! table, and SIC-code extraction from the four annotated text fields.

use vstd::prelude::*;

use crate::util::contains_substring;
use crate::util::spec_contains;
use crate::util::str_eq;

verus! {

/// One row of the company register. The source has dozens of columns; only
/// these carry weight for classification, and only these are handed to the
/// library. Everything else is pass-through data that the rules never read.
pub struct LegalEntityRecord {
    pub name: String,
    pub number: String,
    pub company_type: String,
    pub sic_code1: String,
    pub sic_code2: String,
    pub sic_code3: String,
    pub sic_code4: String,
}

/// The closed set of legal-entity forms the register conflates. A raw
/// `company_type` string either maps to exactly one of these or is
/// unrecognised; unrecognised is a distinct outcome, never a default variant.
#[derive(Copy, Clone, Debug, PartialEq, Eq, Structural)]
pub enum EntityType {
    Ltd,
    CLG,
    Unltd,
    CIC,
    RegSoc,
    CIO,
    Plc,
    Recognised,
}

/// The canonical textual description of each entity type, as emitted in the
/// output projection (the raw input string is never emitted).
pub open spec fn spec_description(t: EntityType) -> Seq<char> {
    match t {
        EntityType::Ltd => "private limited company"@,
        EntityType::CLG => "private company limited by guarantee"@,
        EntityType::Unltd => "private unlimited company"@,
        EntityType::CIO => "charitable incorporated organisation"@,
        EntityType::CIC => "community interest company"@,
        EntityType::RegSoc => "registered society"@,
        EntityType::Plc => "public limited company"@,
        EntityType::Recognised => "recognised"@,
    }
}

impl EntityType {
    /// The canonical display description of this entity type.
    pub fn description(&self) -> (r: String)
        ensures
            r@ == spec_description(*self),
    {
        let s: &str = match *self {
            EntityType::Ltd => "private limited company",
            EntityType::CLG => "private company limited by guarantee",
            EntityType::Unltd => "private unlimited company",
            EntityType::CIO => "charitable incorporated organisation",
            EntityType::CIC => "community interest company",
            EntityType::RegSoc => "registered society",
            EntityType::Plc => "public limited company",
            EntityType::Recognised => "recognised",
        };
        s.to_owned()
    }
}

/// The exact-match lookup table from known legal-form strings to entity
/// types. Matching is exact, case and punctuation included; anything not in
/// the table is `None`.
pub open spec fn spec_entity_type_of(s: Seq<char>) -> Option<EntityType> {
    if s == "Private Limited Company"@ {
        Some(EntityType::Ltd)
    } else if s == "PRI/LTD BY GUAR/NSC (Private, limited by guarantee, no share capital)"@ {
        Some(EntityType::CLG)
    } else if s
        == "PRI/LBG/NSC (Private, Limited by guarantee, no share capital, use of 'Limited' exemption)"@ {
        Some(EntityType::CLG)
    } else if s == "Private Unlimited"@ {
        Some(EntityType::Unltd)
    } else if s == "Private Unlimited Company"@ {
        Some(EntityType::Unltd)
    } else if s == "Community Interest Company"@ {
        Some(EntityType::CIC)
    } else if s == "Charitable Incorporated Organisation"@ {
        Some(EntityType::CIO)
    } else if s == "Scottish Charitable Incorporated Organisation"@ {
        Some(EntityType::CIO)
    } else if s == "Registered Society"@ {
        Some(EntityType::RegSoc)
    } else if s == "Limited Partnership"@ {
        Some(EntityType::Recognised)
    } else if s == "Limited Liability Partnership"@ {
        Some(EntityType::Recognised)
    } else if s == "Other company type"@ {
        Some(EntityType::Recognised)
    } else if s == "Industrial and Provident Society"@ {
        Some(EntityType::Recognised)
    } else if s == "Investment Company with Variable Capital"@ {
        Some(EntityType::Recognised)
    } else if s == "Investment Company with Variable Capital(Umbrella)"@ {
        Some(EntityType::Recognised)
    } else if s == "Royal Charter Company"@ {
        Some(EntityType::Recognised)
    } else if s == "Scottish Partnership"@ {
        Some(EntityType::Recognised)
    } else if s == "United Kingdom Economic Interest Grouping"@ {
        Some(EntityType::Recognised)
    } else if s == "United Kingdom Societas"@ {
        Some(EntityType::Recognised)
    } else if s == "Investment Company with Variable Capital (Securities)"@ {
        Some(EntityType::Recognised)
    } else if s == "Old Public Company"@ {
        Some(EntityType::Recognised)
    } else if s == "Other Company Type"@ {
        Some(EntityType::Recognised)
    } else if s == "PRIV LTD SECT. 30 (Private limited company, section 30 of the Companies Act)"@ {
        Some(EntityType::Recognised)
    } else if s == "Protected Cell Company"@ {
        Some(EntityType::Recognised)
    } else if s == "Converted/Closed"@ {
        Some(EntityType::Recognised)
    } else if s == "Further Education and Sixth Form College Corps"@ {
        Some(EntityType::Recognised)
    } else if s == "Overseas Entity"@ {
        Some(EntityType::Recognised)
    } else if s == "Public Limited Company"@ {
        Some(EntityType::Plc)
    } else {
        None
    }
}

/// Map a raw free-text legal form to its entity type, or `None` where the
/// string is not in the table. No fuzzy matching and no normalisation.
pub fn entity_type_of_str(s: &str) -> (r: Option<EntityType>)
    ensures
        r == spec_entity_type_of(s@),
{
    if str_eq(s, "Private Limited Company") {
        Some(EntityType::Ltd)
    } else if str_eq(s, "PRI/LTD BY GUAR/NSC (Private, limited by guarantee, no share capital)") {
        Some(EntityType::CLG)
    } else if str_eq(
        s,
        "PRI/LBG/NSC (Private, Limited by guarantee, no share capital, use of 'Limited' exemption)",
    ) {
        Some(EntityType::CLG)
    } else if str_eq(s, "Private Unlimited") {
        Some(EntityType::Unltd)
    } else if str_eq(s, "Private Unlimited Company") {
        Some(EntityType::Unltd)
    } else if str_eq(s, "Community Interest Company") {
        Some(EntityType::CIC)
    } else if str_eq(s, "Charitable Incorporated Organisation") {
        Some(EntityType::CIO)
    } else if str_eq(s, "Scottish Charitable Incorporated Organisation") {
        Some(EntityType::CIO)
    } else if str_eq(s, "Registered Society") {
        Some(EntityType::RegSoc)
    } else if str_eq(s, "Limited Partnership") {
        Some(EntityType::Recognised)
    } else if str_eq(s, "Limited Liability Partnership") {
        Some(EntityType::Recognised)
    } else if str_eq(s, "Other company type") {
        Some(EntityType::Recognised)
    } else if str_eq(s, "Industrial and Provident Society") {
        Some(EntityType::Recognised)
    } else if str_eq(s, "Investment Company with Variable Capital") {
        Some(EntityType::Recognised)
    } else if str_eq(s, "Investment Company with Variable Capital(Umbrella)") {
        Some(EntityType::Recognised)
    } else if str_eq(s, "Royal Charter Company") {
        Some(EntityType::Recognised)
    } else if str_eq(s, "Scottish Partnership") {
        Some(EntityType::Recognised)
    } else if str_eq(s, "United Kingdom Economic Interest Grouping") {
        Some(EntityType::Recognised)
    } else if str_eq(s, "United Kingdom Societas") {
        Some(EntityType::Recognised)
    } else if str_eq(s, "Investment Company with Variable Capital (Securities)") {
        Some(EntityType::Recognised)
    } else if str_eq(s, "Old Public Company") {
        Some(EntityType::Recognised)
    } else if str_eq(s, "Other Company Type") {
        Some(EntityType::Recognised)
    } else if str_eq(
        s,
        "PRIV LTD SECT. 30 (Private limited company, section 30 of the Companies Act)",
    ) {
        Some(EntityType::Recognised)
    } else if str_eq(s, "Protected Cell Company") {
        Some(EntityType::Recognised)
    } else if str_eq(s, "Converted/Closed") {
        Some(EntityType::Recognised)
    } else if str_eq(s, "Further Education and Sixth Form College Corps") {
        Some(EntityType::Recognised)
    } else if str_eq(s, "Overseas Entity") {
        Some(EntityType::Recognised)
    } else if str_eq(s, "Public Limited Company") {
        Some(EntityType::Plc)
    } else {
        None
    }
}

/// The position of the first space in `s`, or `s.len()` if there is none.
pub open spec fn spec_first_space(s: Seq<char>) -> int
    decreases s.len(),
{
    if s.len() == 0 {
        0
    } else if s[0] == ' ' {
        0
    } else {
        1 + spec_first_space(s.drop_first())
    }
}

pub proof fn lemma_first_space(s: Seq<char>)
    ensures
        0 <= spec_first_space(s) <= s.len(),
        forall|k: int| 0 <= k < spec_first_space(s) ==> s[k] != ' ',
        spec_first_space(s) < s.len() ==> s[spec_first_space(s)] == ' ',
    decreases s.len(),
{
    if s.len() == 0 {
    } else if s[0] == ' ' {
    } else {
        lemma_first_space(s.drop_first());
        let fi = spec_first_space(s);
        assert forall|k: int| 0 <= k < fi implies s[k] != ' ' by {
            if k > 0 {
                assert(s.drop_first()[k - 1] == s[k]);
            }
        }
        if fi < s.len() {
            assert(s.drop_first()[fi - 1] == s[fi]);
        }
    }
}

/// What one raw SIC text field contributes: the text before the first space,
/// provided the field carries the `" - "` annotation separator; otherwise
/// nothing (the field is empty or malformed).
pub open spec fn spec_sic_code_of(field: Seq<char>) -> Option<Seq<char>> {
    if spec_contains(field, " - "@) {
        Some(field.subrange(0, spec_first_space(field)))
    } else {
        None
    }
}

/// Extract the code from one raw SIC text field.
fn sic_code_of(field: &str) -> (r: Option<String>)
    ensures
        r.deep_view() == spec_sic_code_of(field@),
{
    if !contains_substring(field, " - ") {
        return None;
    }
    let n = field.unicode_len();
    let mut i: usize = 0;
    while i < n && field.get_char(i) != ' '
        invariant
            n == field@.len() <= usize::MAX,
            0 <= i <= n,
            forall|k: int| 0 <= k < i ==> field@[k] != ' ',
        decreases n - i,
    {
        i += 1;
    }
    proof {
        lemma_first_space(field@);
        let fi = spec_first_space(field@);
        if i < fi {
            assert(field@[i as int] == ' ');
        }
        if fi < i {
            assert(field@[fi] != ' ');
        }
        assert(i as int == fi);
    }
    let code = field.substring_char(0, i);
    Some(code.to_owned())
}

/// The sequence a `Some` code contributes to the extracted list.
pub open spec fn opt_code_seq(c: Option<Seq<char>>) -> Seq<Seq<char>> {
    match c {
        Some(code) => seq![code],
        None => Seq::empty(),
    }
}

/// All codes extracted from a record's four SIC fields, in field order,
/// duplicates kept.
pub open spec fn spec_sics_of(r: LegalEntityRecord) -> Seq<Seq<char>> {
    opt_code_seq(spec_sic_code_of(r.sic_code1@)) + opt_code_seq(spec_sic_code_of(r.sic_code2@))
        + opt_code_seq(spec_sic_code_of(r.sic_code3@)) + opt_code_seq(
        spec_sic_code_of(r.sic_code4@),
    )
}

/// Append the code a field contributed, if any.
fn push_code(sics: &mut Vec<String>, code: Option<String>)
    ensures
        final(sics).deep_view() == old(sics).deep_view() + opt_code_seq(code.deep_view()),
{
    match code {
        Some(c) => {
            sics.push(c);
            proof {
                assert(sics.deep_view() =~~= old(sics).deep_view() + opt_code_seq(
                    Some(c).deep_view(),
                ));
            }
        },
        None => {
            proof {
                assert(sics.deep_view() =~~= old(sics).deep_view() + opt_code_seq(
                    None::<String>.deep_view(),
                ));
            }
        },
    }
}

/// The codes of a record's four SIC text fields, in order, annotations
/// stripped; a field without the `" - "` separator contributes nothing.
pub fn sics_of_one_record(record: &LegalEntityRecord) -> (r: Vec<String>)
    ensures
        r.deep_view() == spec_sics_of(*record),
{
    let mut sics: Vec<String> = Vec::new();
    push_code(&mut sics, sic_code_of(record.sic_code1.as_str()));
    push_code(&mut sics, sic_code_of(record.sic_code2.as_str()));
    push_code(&mut sics, sic_code_of(record.sic_code3.as_str()));
    push_code(&mut sics, sic_code_of(record.sic_code4.as_str()));
    proof {
        assert(sics.deep_view() =~~= spec_sics_of(*record));
    }
    sics
}

/// A code that marks a plausible RMC registration: real-estate management on
/// a fee or contract basis, or the register's undifferentiated-activity
/// convention.
pub open spec fn spec_relevant_code(code: Seq<char>) -> bool {
    code == "68320"@ || code == "98000"@
}

/// At least one extracted code is in the two-value allowlist.
pub open spec fn spec_has_relevant_sic(codes: Seq<Seq<char>>) -> bool {
    exists|i: int| 0 <= i < codes.len() && spec_relevant_code(codes[i])
}

/// True iff at least one of `codes` equals `"68320"` or `"98000"`.
pub fn has_relevant_sic(codes: &Vec<String>) -> (r: bool)
    ensures
        r == spec_has_relevant_sic(codes.deep_view()),
{
    let mut i: usize = 0;
    while i < codes.len()
        invariant
            0 <= i <= codes@.len(),
            codes.deep_view().len() == codes@.len(),
            forall|k: int| 0 <= k < i ==> !spec_relevant_code(codes.deep_view()[k]),
        decreases codes@.len() - i,
    {
        proof {
            assert(codes.deep_view()[i as int] == codes@[i as int]@);
        }
        if str_eq(codes[i].as_str(), "68320") || str_eq(codes[i].as_str(), "98000") {
            proof {
                assert(spec_relevant_code(codes.deep_view()[i as int]));
            }
            return true;
        }
        i += 1;
    }
    false
}

/// The core's working representation of one valid record: built once from a
/// raw record whose legal form is recognised, immutable afterwards.
pub struct LegalEntity {
    pub name: String,
    pub number: String,
    pub category: EntityType,
    pub sic_codes: Vec<String>,
}

impl LegalEntity {
    /// Build the working representation, or `None` where the record's legal
    /// form is not in the lookup table. The caller reports the unrecognised
    /// record; it is excluded from output but not fatal to the run.
    pub fn new(ler: LegalEntityRecord) -> (r: Option<LegalEntity>)
        ensures
            (r is Some) == (spec_entity_type_of(ler.company_type@) is Some),
            r matches Some(e) ==> {
                &&& e.name@ == ler.name@
                &&& e.number@ == ler.number@
                &&& Some(e.category) == spec_entity_type_of(ler.company_type@)
                &&& e.sic_codes.deep_view() == spec_sics_of(ler)
            },
    {
        let sic_codes = sics_of_one_record(&ler);
        let category = entity_type_of_str(ler.company_type.as_str());
        match category {
            None => None,
            Some(cat) => Some(
                LegalEntity { name: ler.name, number: ler.number, category: cat, sic_codes },
            ),
        }
    }

    /// The output projection: exactly three fields, in fixed order — number,
    /// type description, name.
    pub fn to_vec(self) -> (r: Vec<String>)
        ensures
            r.deep_view() == seq![self.number@, spec_description(self.category), self.name@],
    {
        let description = self.category.description();
        let mut out: Vec<String> = Vec::new();
        out.push(self.number);
        out.push(description);
        out.push(self.name);
        proof {
            assert(out.deep_view() =~~= seq![
                self.number@,
                spec_description(self.category),
                self.name@,
            ]);
        }
        out
    }
}

} // verus!
