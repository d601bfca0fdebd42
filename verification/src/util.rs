//! Plain string utilities: equality, case-sensitive substring search, and
//! matching a name against a list of literal substrings, together with the
//! loader for the single-column wordlist files.

use vstd::prelude::*;

verus! {

/// `needle` occurs in `haystack` starting exactly at position `at`.
pub open spec fn occurs_at(haystack: Seq<char>, needle: Seq<char>, at: int) -> bool {
    &&& 0 <= at
    &&& at + needle.len() <= haystack.len()
    &&& haystack.subrange(at, at + needle.len()) == needle
}

/// `needle` occurs somewhere in `haystack`: plain case-sensitive containment.
pub open spec fn spec_contains(haystack: Seq<char>, needle: Seq<char>) -> bool {
    exists|at: int| occurs_at(haystack, needle, at)
}

/// At least one of `needles` occurs in `haystack`.
pub open spec fn spec_matches_any(haystack: Seq<char>, needles: Seq<Seq<char>>) -> bool {
    exists|i: int| 0 <= i < needles.len() && spec_contains(haystack, needles[i])
}

/// String equality, stated over the character sequences.
pub fn str_eq(a: &str, b: &str) -> (r: bool)
    ensures
        r == (a@ == b@),
{
    let x: String = a.to_owned();
    let y: String = b.to_owned();
    x == y
}

/// `needle` compared against `haystack` at one position.
fn matches_at(haystack: &str, needle: &str, at: usize) -> (r: bool)
    requires
        at + needle@.len() <= haystack@.len(),
        haystack@.len() <= usize::MAX,
    ensures
        r == occurs_at(haystack@, needle@, at as int),
{
    let n = needle.unicode_len();
    let mut j: usize = 0;
    while j < n
        invariant
            n == needle@.len(),
            at + n <= haystack@.len() <= usize::MAX,
            0 <= j <= n,
            forall|k: int| 0 <= k < j ==> haystack@[at + k] == needle@[k],
        decreases n - j,
    {
        if haystack.get_char(at + j) != needle.get_char(j) {
            proof {
                if occurs_at(haystack@, needle@, at as int) {
                    assert(haystack@.subrange(at as int, at + needle@.len())[j as int]
                        == needle@[j as int]);
                }
            }
            return false;
        }
        j += 1;
    }
    proof {
        assert(haystack@.subrange(at as int, at + needle@.len()) =~= needle@);
    }
    true
}

/// Case-sensitive substring test, proved against `spec_contains`.
pub fn contains_substring(haystack: &str, needle: &str) -> (r: bool)
    ensures
        r == spec_contains(haystack@, needle@),
{
    let hl = haystack.unicode_len();
    let nl = needle.unicode_len();
    if nl == 0 {
        proof {
            assert(haystack@.subrange(0, 0) =~= needle@);
            assert(occurs_at(haystack@, needle@, 0));
        }
        return true;
    }
    if nl > hl {
        proof {
            assert forall|at: int| !(#[trigger] occurs_at(haystack@, needle@, at)) by {
                if occurs_at(haystack@, needle@, at) {
                    assert(at + needle@.len() <= haystack@.len());
                }
            }
        }
        return false;
    }
    let mut at: usize = 0;
    while at <= hl - nl
        invariant
            hl == haystack@.len(),
            nl == needle@.len(),
            0 < nl <= hl <= usize::MAX,
            0 <= at <= hl - nl + 1,
            forall|a: int| 0 <= a < at ==> !occurs_at(haystack@, needle@, a),
        decreases hl - nl + 1 - at,
    {
        if matches_at(haystack, needle, at) {
            proof {
                assert(occurs_at(haystack@, needle@, at as int));
            }
            return true;
        }
        at += 1;
    }
    proof {
        assert forall|a: int| !(#[trigger] occurs_at(haystack@, needle@, a)) by {
            if occurs_at(haystack@, needle@, a) {
                assert(0 <= a && a + needle@.len() <= haystack@.len());
                assert(a < at as int);
            }
        }
    }
    false
}

/// True iff at least one of `needles` occurs in `haystack` as a substring.
pub fn matches_any_substring(haystack: &String, needles: &Vec<String>) -> (r: bool)
    ensures
        r == spec_matches_any(haystack@, needles.deep_view()),
{
    let mut i: usize = 0;
    while i < needles.len()
        invariant
            0 <= i <= needles@.len(),
            needles.deep_view().len() == needles@.len(),
            forall|k: int| 0 <= k < i ==> !spec_contains(haystack@, needles.deep_view()[k]),
        decreases needles@.len() - i,
    {
        proof {
            assert(needles.deep_view()[i as int] == needles@[i as int]@);
        }
        if contains_substring(haystack.as_str(), needles[i].as_str()) {
            proof {
                assert(spec_contains(haystack@, needles.deep_view()[i as int]));
            }
            return true;
        }
        i += 1;
    }
    false
}

/// The first field of each record of `text`, read as a headerless CSV file,
/// or `None` where the parser refuses the text.
pub uninterp spec fn csv_first_columns_of(text: Seq<char>) -> Option<Seq<Seq<char>>>;

/// Relies on `csv::ReaderBuilder` and `csv::StringRecord::get`: parsing a
/// headerless CSV text and taking the first field of each record depends on
/// the text alone; a text the parser refuses yields `None`.
#[verifier::external_body]
pub fn string_column_to_vec(data: &str) -> (r: Option<Vec<String>>)
    ensures
        (r is Some) == (csv_first_columns_of(data@) is Some),
        r matches Some(v) ==> Some(v.deep_view()) == csv_first_columns_of(data@),
{
    let mut out = Vec::new();
    let mut rdr = csv::ReaderBuilder::new().has_headers(false).from_reader(data.as_bytes());
    for record in rdr.records() {
        match record {
            Err(_) => return None,
            Ok(rec) => match rec.get(0) {
                None => return None,
                Some(field) => out.push(field.to_string()),
            },
        }
    }
    Some(out)
}

} // verus!
