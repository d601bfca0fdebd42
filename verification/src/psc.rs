//! Classification of persons-with-significant-control disclosures: one JSON
//! line per disclosure, each classified independently by company-number
//! prefix, cessation marker, and a controlled vocabulary of kinds and
//! statement values. Unknown prefixes, kinds and statements are fatal: they
//! mean the input no longer matches the assumed source format.

use vstd::prelude::*;

use crate::util::str_eq;

verus! {

/// What a disclosure identifies: a natural person, a corporate controller,
/// or a controller that exists but is not identified.
#[derive(Copy, Clone, Debug, PartialEq, Eq, Structural)]
pub enum PSC {
    Individual,
    Corporate,
    Unidentified,
}

/// The conditions that abort the run: the input no longer matches the
/// assumed schema, so going on would silently produce wrong output.
#[derive(Copy, Clone, Debug, PartialEq, Eq, Structural)]
pub enum PscFatal {
    /// The line does not parse as a disclosure object with a `data.kind` string.
    BadLine,
    /// The company number is too short to carry a two-character prefix.
    ShortNumber,
    /// A two-character prefix outside every known prefix class.
    UnrecognisedPrefix,
    /// A statement-kind disclosure without a statement value.
    MissingStatement,
    /// A statement value outside the controlled vocabulary.
    UnrecognisedStatement,
    /// A kind value outside the controlled vocabulary.
    UnrecognisedKind,
}

/// The decision for one parsed disclosure.
#[derive(Copy, Clone, Debug, PartialEq, Eq, Structural)]
pub enum PscOutcome {
    /// Not a live, relevant disclosure; nothing is emitted.
    Skip,
    /// No company number: reported as a data-quality warning, then skipped.
    MissingNumber,
    /// The company number is emitted; the payload says what controls it.
    Emit(PSC),
    /// The run aborts.
    Fatal(PscFatal),
}

/// The fields of one disclosure line that the rules read.
#[derive(Debug)]
pub struct PscRecord {
    pub kind: String,
    pub company_number: Option<String>,
    pub ceased_on: bool,
    pub ceased: bool,
    pub statement: Option<String>,
}

/// The decision for one raw line, with the number to emit.
#[derive(Debug)]
pub enum PscAction {
    Skip,
    MissingNumber,
    Emit(String, PSC),
    Fatal(PscFatal),
}

pub open spec fn spec_is_digit(c: char) -> bool {
    '0' <= c && c <= '9'
}

/// The prefix parses as an unsigned number, so the entity is an England &
/// Wales registered company.
pub open spec fn spec_numeric_prefix(c0: char, c1: char) -> bool {
    (spec_is_digit(c0) && spec_is_digit(c1)) || (c0 == '+' && spec_is_digit(c1))
}

/// Prefixes of entities that cannot be RMCs (non-companies), skipped.
pub open spec fn spec_prefix_excluded(c0: char, c1: char) -> bool {
    ||| (c0 == 'S' && c1 == 'O')
    ||| (c0 == 'O' && c1 == 'C')
    ||| (c0 == 'S' && c1 == 'L')
    ||| (c0 == 'N' && c1 == 'C')
    ||| (c0 == 'S' && c1 == 'E')
    ||| (c0 == 'S' && c1 == 'G')
    ||| (c0 == 'O' && c1 == 'E')
}

/// Prefixes of companies registered outside England & Wales, which proceed.
pub open spec fn spec_prefix_known(c0: char, c1: char) -> bool {
    ||| (c0 == 'N' && c1 == 'I')
    ||| (c0 == 'S' && c1 == 'C')
    ||| (c0 == 'R' && c1 == '0')
    ||| (c0 == 'Z' && c1 == 'C')
    ||| (c0 == 'S' && c1 == 'Z')
}

/// The controlled vocabulary of statement values: no controller (skip),
/// controller unidentified (emit), steps not yet completed (explicitly
/// unknown, so skip — a distinct case from "no controller"), anything else
/// fatal.
pub open spec fn spec_classify_statement(st: Seq<char>) -> PscOutcome {
    if st == "no-individual-or-entity-with-signficant-control"@ {
        PscOutcome::Skip
    } else if st == "psc-details-not-confirmed"@ || st == "psc-exists-but-not-identified"@ || st
        == "psc-contacted-but-no-response"@ || st == "restrictions-notice-issued-to-psc"@ || st
        == "psc-has-failed-to-confirm-changed-details"@ {
        PscOutcome::Emit(PSC::Unidentified)
    } else if st == "steps-to-find-psc-not-yet-completed"@ {
        PscOutcome::Skip
    } else {
        PscOutcome::Fatal(PscFatal::UnrecognisedStatement)
    }
}

/// The dispatch over the `kind` vocabulary, for a live disclosure.
pub open spec fn spec_classify_kind(kind: Seq<char>, statement: Option<Seq<char>>) -> PscOutcome {
    if kind == "super-secure-person-with-significant-control"@ {
        PscOutcome::Emit(PSC::Unidentified)
    } else if kind == "individual-person-with-significant-control"@ {
        PscOutcome::Emit(PSC::Individual)
    } else if kind == "legal-person-person-with-significant-control"@ || kind
        == "corporate-entity-person-with-significant-control"@ {
        PscOutcome::Emit(PSC::Corporate)
    } else if kind == "persons-with-significant-control-statement"@ {
        match statement {
            None => PscOutcome::Fatal(PscFatal::MissingStatement),
            Some(st) => spec_classify_statement(st),
        }
    } else if kind == "exemptions"@ {
        PscOutcome::Skip
    } else {
        PscOutcome::Fatal(PscFatal::UnrecognisedKind)
    }
}

/// A disclosure that passed the prefix checks: skipped if it has ceased to
/// apply, else dispatched on its kind.
pub open spec fn spec_classify_live(
    kind: Seq<char>,
    ceased_on: bool,
    ceased: bool,
    statement: Option<Seq<char>>,
) -> PscOutcome {
    if ceased_on || ceased {
        PscOutcome::Skip
    } else {
        spec_classify_kind(kind, statement)
    }
}

/// The whole per-disclosure decision, in the order the checks apply: the
/// aggregate totals marker, a missing company number, the number-prefix
/// rules, cessation, then the kind vocabulary.
pub open spec fn spec_classify_psc(
    kind: Seq<char>,
    number: Option<Seq<char>>,
    ceased_on: bool,
    ceased: bool,
    statement: Option<Seq<char>>,
) -> PscOutcome {
    if kind == "totals#persons-of-significant-control-snapshot"@ {
        PscOutcome::Skip
    } else {
        match number {
            None => PscOutcome::MissingNumber,
            Some(num) => {
                if num.len() < 2 {
                    PscOutcome::Fatal(PscFatal::ShortNumber)
                } else if spec_numeric_prefix(num[0], num[1]) {
                    spec_classify_live(kind, ceased_on, ceased, statement)
                } else if spec_prefix_excluded(num[0], num[1]) {
                    PscOutcome::Skip
                } else if spec_prefix_known(num[0], num[1]) {
                    spec_classify_live(kind, ceased_on, ceased, statement)
                } else {
                    PscOutcome::Fatal(PscFatal::UnrecognisedPrefix)
                }
            },
        }
    }
}

fn is_digit(c: char) -> (r: bool)
    ensures
        r == spec_is_digit(c),
{
    '0' <= c && c <= '9'
}

/// The kind dispatch for a live disclosure.
fn classify_kind(kind: &String, statement: &Option<String>) -> (r: PscOutcome)
    ensures
        r == spec_classify_kind(kind@, statement.deep_view()),
{
    if str_eq(kind.as_str(), "super-secure-person-with-significant-control") {
        PscOutcome::Emit(PSC::Unidentified)
    } else if str_eq(kind.as_str(), "individual-person-with-significant-control") {
        PscOutcome::Emit(PSC::Individual)
    } else if str_eq(kind.as_str(), "legal-person-person-with-significant-control") || str_eq(
        kind.as_str(),
        "corporate-entity-person-with-significant-control",
    ) {
        PscOutcome::Emit(PSC::Corporate)
    } else if str_eq(kind.as_str(), "persons-with-significant-control-statement") {
        match statement {
            None => PscOutcome::Fatal(PscFatal::MissingStatement),
            Some(st) => {
                if str_eq(st.as_str(), "no-individual-or-entity-with-signficant-control") {
                    PscOutcome::Skip
                } else if str_eq(st.as_str(), "psc-details-not-confirmed") || str_eq(
                    st.as_str(),
                    "psc-exists-but-not-identified",
                ) || str_eq(st.as_str(), "psc-contacted-but-no-response") || str_eq(
                    st.as_str(),
                    "restrictions-notice-issued-to-psc",
                ) || str_eq(st.as_str(), "psc-has-failed-to-confirm-changed-details") {
                    PscOutcome::Emit(PSC::Unidentified)
                } else if str_eq(st.as_str(), "steps-to-find-psc-not-yet-completed") {
                    PscOutcome::Skip
                } else {
                    PscOutcome::Fatal(PscFatal::UnrecognisedStatement)
                }
            },
        }
    } else if str_eq(kind.as_str(), "exemptions") {
        PscOutcome::Skip
    } else {
        PscOutcome::Fatal(PscFatal::UnrecognisedKind)
    }
}

/// The per-disclosure decision over the parsed fields.
pub fn classify_psc(rec: &PscRecord) -> (r: PscOutcome)
    ensures
        r == spec_classify_psc(
            rec.kind@,
            rec.company_number.deep_view(),
            rec.ceased_on,
            rec.ceased,
            rec.statement.deep_view(),
        ),
{
    if str_eq(rec.kind.as_str(), "totals#persons-of-significant-control-snapshot") {
        return PscOutcome::Skip;
    }
    let num = match &rec.company_number {
        None => {
            return PscOutcome::MissingNumber;
        },
        Some(num) => num,
    };
    if num.as_str().unicode_len() < 2 {
        return PscOutcome::Fatal(PscFatal::ShortNumber);
    }
    let c0 = num.as_str().get_char(0);
    let c1 = num.as_str().get_char(1);
    let numeric = (is_digit(c0) && is_digit(c1)) || (c0 == '+' && is_digit(c1));
    if !numeric {
        if (c0 == 'S' && c1 == 'O') || (c0 == 'O' && c1 == 'C') || (c0 == 'S' && c1 == 'L') || (c0
            == 'N' && c1 == 'C') || (c0 == 'S' && c1 == 'E') || (c0 == 'S' && c1 == 'G') || (c0
            == 'O' && c1 == 'E') {
            return PscOutcome::Skip;
        }
        let known = (c0 == 'N' && c1 == 'I') || (c0 == 'S' && c1 == 'C') || (c0 == 'R' && c1
            == '0') || (c0 == 'Z' && c1 == 'C') || (c0 == 'S' && c1 == 'Z');
        if !known {
            return PscOutcome::Fatal(PscFatal::UnrecognisedPrefix);
        }
    }
    if rec.ceased_on || rec.ceased {
        return PscOutcome::Skip;
    }
    classify_kind(&rec.kind, &rec.statement)
}

/// The fields the rules read from one JSON line, or `None` where the line
/// does not parse as a disclosure: the kind string, the company number, the
/// presence of each cessation key, and the statement value.
pub uninterp spec fn psc_fields_of(line: Seq<char>) -> Option<
    (Seq<char>, Option<Seq<char>>, bool, bool, Option<Seq<char>>),
>;

/// Relies on `serde_json::from_str` and the `serde_json::Value` accessors
/// `get`, `as_str` and `as_object`, and `serde_json::Map::contains_key`: the
/// fields read from a JSON line depend on the line's text alone. A line
/// without a JSON parse, or whose `data` member is not an object with a
/// string `kind`, yields `None`.
#[verifier::external_body]
fn parse_psc_line(line: &str) -> (r: Option<PscRecord>)
    ensures
        (r is Some) == (psc_fields_of(line@) is Some),
        r matches Some(rec) ==> {
            &&& psc_fields_of(line@) matches Some(f)
            &&& rec.kind@ == f.0
            &&& rec.company_number.deep_view() == f.1
            &&& rec.ceased_on == f.2
            &&& rec.ceased == f.3
            &&& rec.statement.deep_view() == f.4
        },
{
    let v: serde_json::Value = serde_json::from_str(line).ok()?;
    let data = v.get("data")?;
    let kind = data.get("kind")?.as_str()?.to_string();
    let obj = data.as_object()?;
    let company_number = v.get("company_number").and_then(|n| n.as_str()).map(|s| s.to_string());
    let statement = obj.get("statement").and_then(|s| s.as_str()).map(|s| s.to_string());
    Some(PscRecord {
        kind,
        company_number,
        ceased_on: obj.contains_key("ceased_on"),
        ceased: obj.contains_key("ceased"),
        statement,
    })
}

/// The decision for one raw line: fatal where the line does not parse, else
/// the decision over its parsed fields.
pub open spec fn spec_psc_line(line: Seq<char>) -> PscOutcome {
    match psc_fields_of(line) {
        None => PscOutcome::Fatal(PscFatal::BadLine),
        Some(f) => spec_classify_psc(f.0, f.1, f.2, f.3, f.4),
    }
}

/// The company number a line carries, if any.
pub open spec fn spec_psc_line_number(line: Seq<char>) -> Option<Seq<char>> {
    match psc_fields_of(line) {
        None => None,
        Some(f) => f.1,
    }
}

/// Parse one line and classify it.
pub fn process_psc_line(line: &str) -> (r: PscAction)
    ensures
        match r {
            PscAction::Skip => spec_psc_line(line@) is Skip,
            PscAction::MissingNumber => spec_psc_line(line@) is MissingNumber,
            PscAction::Emit(n, p) => spec_psc_line(line@) == PscOutcome::Emit(p) && Some(n@)
                == spec_psc_line_number(line@),
            PscAction::Fatal(e) => spec_psc_line(line@) == PscOutcome::Fatal(e),
        },
{
    let rec = match parse_psc_line(line) {
        None => {
            return PscAction::Fatal(PscFatal::BadLine);
        },
        Some(rec) => rec,
    };
    let outcome = classify_psc(&rec);
    match outcome {
        PscOutcome::Skip => PscAction::Skip,
        PscOutcome::MissingNumber => PscAction::MissingNumber,
        PscOutcome::Fatal(e) => PscAction::Fatal(e),
        PscOutcome::Emit(p) => match rec.company_number {
            Some(n) => PscAction::Emit(n, p),
            None => {
                proof {
                    assert(false);
                }
                PscAction::Skip
            },
        },
    }
}

/// The numbers a run over `lines` emits, in input order, up to but not
/// including the first fatal line.
pub open spec fn spec_psc_outputs(lines: Seq<Seq<char>>) -> Seq<Seq<char>>
    decreases lines.len(),
{
    if lines.len() == 0 {
        Seq::empty()
    } else {
        match spec_psc_line(lines[0]) {
            PscOutcome::Fatal(_) => Seq::empty(),
            PscOutcome::Emit(_) => seq![spec_psc_line_number(lines[0])->0] + spec_psc_outputs(
                lines.drop_first(),
            ),
            _ => spec_psc_outputs(lines.drop_first()),
        }
    }
}

/// The first fatal condition a run over `lines` hits, if any.
pub open spec fn spec_psc_fault(lines: Seq<Seq<char>>) -> Option<PscFatal>
    decreases lines.len(),
{
    if lines.len() == 0 {
        None
    } else {
        match spec_psc_line(lines[0]) {
            PscOutcome::Fatal(e) => Some(e),
            _ => spec_psc_fault(lines.drop_first()),
        }
    }
}

proof fn lemma_psc_snoc(lines: Seq<Seq<char>>, x: Seq<char>)
    requires
        spec_psc_fault(lines) is None,
    ensures
        spec_psc_fault(lines.push(x)) == (match spec_psc_line(x) {
            PscOutcome::Fatal(e) => Some(e),
            _ => None::<PscFatal>,
        }),
        spec_psc_outputs(lines.push(x)) == spec_psc_outputs(lines) + (match spec_psc_line(x) {
            PscOutcome::Emit(_) => seq![spec_psc_line_number(x)->0],
            _ => Seq::<Seq<char>>::empty(),
        }),
    decreases lines.len(),
{
    let tail_x = match spec_psc_line(x) {
        PscOutcome::Emit(_) => seq![spec_psc_line_number(x)->0],
        _ => Seq::<Seq<char>>::empty(),
    };
    if lines.len() == 0 {
        assert(lines.push(x)[0] == x);
        assert(lines.push(x).drop_first() =~= lines);
        assert(spec_psc_outputs(lines) == Seq::<Seq<char>>::empty());
        assert(spec_psc_outputs(lines.push(x)) =~= spec_psc_outputs(lines) + tail_x);
    } else {
        let p = lines.push(x);
        assert(p.drop_first() =~= lines.drop_first().push(x));
        assert(p[0] == lines[0]);
        lemma_psc_snoc(lines.drop_first(), x);
        let rest = spec_psc_outputs(lines.drop_first());
        match spec_psc_line(lines[0]) {
            PscOutcome::Fatal(_) => {
                assert(false);
            },
            PscOutcome::Emit(_) => {
                let head = seq![spec_psc_line_number(lines[0])->0];
                assert(spec_psc_outputs(p) == head + (rest + tail_x));
                assert(spec_psc_outputs(lines) == head + rest);
                assert(head + (rest + tail_x) =~= (head + rest) + tail_x);
            },
            _ => {
                assert(spec_psc_outputs(p) == rest + tail_x);
                assert(spec_psc_outputs(lines) == rest);
            },
        }
    }
}

proof fn lemma_psc_fatal_at(lines: Seq<Seq<char>>, i: int)
    requires
        0 <= i < lines.len(),
        spec_psc_fault(lines.take(i)) is None,
        spec_psc_line(lines[i]) is Fatal,
    ensures
        spec_psc_outputs(lines) == spec_psc_outputs(lines.take(i)),
        spec_psc_fault(lines) == (match spec_psc_line(lines[i]) {
            PscOutcome::Fatal(e) => Some(e),
            _ => None::<PscFatal>,
        }),
    decreases i,
{
    if i == 0 {
        assert(lines.take(0) =~= Seq::<Seq<char>>::empty());
        assert(spec_psc_outputs(lines.take(0)) == Seq::<Seq<char>>::empty());
        assert(spec_psc_outputs(lines) == Seq::<Seq<char>>::empty());
    } else {
        let t = lines.take(i);
        assert(t[0] == lines[0]);
        assert(t.drop_first() =~= lines.drop_first().take(i - 1));
        assert(lines.drop_first()[i - 1] == lines[i]);
        assert(spec_psc_line(lines[0]) !is Fatal);
        lemma_psc_fatal_at(lines.drop_first(), i - 1);
        match spec_psc_line(lines[0]) {
            PscOutcome::Emit(_) => {
                let head = seq![spec_psc_line_number(lines[0])->0];
                assert(spec_psc_outputs(lines) == head + spec_psc_outputs(lines.drop_first()));
                assert(spec_psc_outputs(t) == head + spec_psc_outputs(
                    lines.drop_first().take(i - 1),
                ));
            },
            _ => {
            },
        }
    }
}

/// Run over a sequence of raw lines: emit the company number of each line
/// classified for emission, in input order, stopping at the first fatal
/// line; the second component reports that fatal condition, if any.
pub fn process_psc_lines(lines: &Vec<String>) -> (r: (Vec<String>, Option<PscFatal>))
    ensures
        r.0.deep_view() == spec_psc_outputs(lines.deep_view()),
        r.1 == spec_psc_fault(lines.deep_view()),
{
    let ghost lv = lines.deep_view();
    let mut out: Vec<String> = Vec::new();
    let mut i: usize = 0;
    proof {
        assert(lv.take(0) =~= Seq::<Seq<char>>::empty());
        assert(out.deep_view() =~~= spec_psc_outputs(lv.take(0)));
    }
    while i < lines.len()
        invariant
            0 <= i <= lines@.len(),
            lv == lines.deep_view(),
            lv.len() == lines@.len(),
            spec_psc_fault(lv.take(i as int)) is None,
            out.deep_view() == spec_psc_outputs(lv.take(i as int)),
        decreases lines@.len() - i,
    {
        proof {
            assert(lv[i as int] == lines@[i as int]@);
        }
        let action = process_psc_line(lines[i].as_str());
        let ghost out0 = out.deep_view();
        match action {
            PscAction::Fatal(e) => {
                proof {
                    lemma_psc_fatal_at(lv, i as int);
                }
                return (out, Some(e));
            },
            PscAction::Emit(n, _p) => {
                out.push(n);
                proof {
                    assert(out.deep_view() =~~= out0 + seq![
                        spec_psc_line_number(lv[i as int])->0,
                    ]);
                }
            },
            _ => {},
        }
        proof {
            lemma_psc_snoc(lv.take(i as int), lv[i as int]);
            assert(lv.take(i as int + 1) =~= lv.take(i as int).push(lv[i as int]));
            assert(out.deep_view() =~~= spec_psc_outputs(lv.take(i as int + 1)));
        }
        i += 1;
    }
    proof {
        assert(lv.take(lv.len() as int) =~= lv);
    }
    (out, None)
}

/// Re-running the disclosure pipeline on the same lines yields the same
/// company numbers in the same order and the same fatal outcome, if any:
/// the output is a function of the input sequence alone.
pub proof fn lemma_psc_deterministic(lines_a: Seq<Seq<char>>, lines_b: Seq<Seq<char>>)
    requires
        lines_a == lines_b,
    ensures
        spec_psc_outputs(lines_a) == spec_psc_outputs(lines_b),
        spec_psc_fault(lines_a) == spec_psc_fault(lines_b),
{
}

} // verus!
