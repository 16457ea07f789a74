//! Label comparison: case-insensitive matching and alphabetical order.

use vstd::prelude::*;

verus! {

/// The lower-case form of an ASCII capital; every other character is itself.
pub open spec fn ascii_lower(c: char) -> char {
    if 'A' <= c && c <= 'Z' {
        ((c as u8) + 32) as char
    } else {
        c
    }
}

/// Two labels match when they are equal up to the case of ASCII letters.
pub open spec fn labels_match(a: Seq<char>, b: Seq<char>) -> bool {
    &&& a.len() == b.len()
    &&& forall|i: int| 0 <= i < a.len() ==> ascii_lower(#[trigger] a[i]) == ascii_lower(b[i])
}

/// Alphabetical order of labels: lexicographic by code point, a prefix first.
pub open spec fn label_le(a: Seq<char>, b: Seq<char>) -> bool
    decreases a.len(),
{
    if a.len() == 0 {
        true
    } else if b.len() == 0 {
        false
    } else if a[0] != b[0] {
        (a[0] as int) < (b[0] as int)
    } else {
        label_le(a.drop_first(), b.drop_first())
    }
}

/// Whether a list of labels holds one that matches `label`.
pub open spec fn list_has_match(list: Seq<String>, label: Seq<char>) -> bool {
    exists|i: int| 0 <= i < list.len() && labels_match((#[trigger] list[i])@, label)
}

/// Whether a list of labels holds `label` itself.
pub open spec fn list_has(list: Seq<String>, label: Seq<char>) -> bool {
    exists|i: int| 0 <= i < list.len() && (#[trigger] list[i])@ == label
}

/// Whether a fixture label passes an optional filter: no filter lets every label through.
pub open spec fn filter_admits(filter: Option<Vec<String>>, label: Seq<char>) -> bool {
    match filter {
        Some(list) => list_has_match(list@, label),
        None => true,
    }
}

/// Calls `str::eq_ignore_ascii_case`, which compares the two strings byte by byte
/// after lowering ASCII capitals. Bytes of a multi-byte character are never ASCII,
/// so this is the character-wise match stated here.
#[verifier::external_body]
pub(crate) fn eq_ignore_ascii_case(a: &str, b: &str) -> (r: bool)
    ensures
        r == labels_match(a@, b@),
{
    a.eq_ignore_ascii_case(b)
}

/// Calls `<=` on `str`, which orders strings lexicographically by their bytes; on
/// UTF-8 that is the order of their code points.
#[verifier::external_body]
pub(crate) fn str_le(a: &str, b: &str) -> (r: bool)
    ensures
        r == label_le(a@, b@),
{
    a <= b
}

/// True when the list holds a label that matches `label` up to ASCII case.
pub fn list_contains_match(list: &Vec<String>, label: &str) -> (found: bool)
    ensures
        found == list_has_match(list@, label@),
{
    let n = list.len();
    let mut i: usize = 0;
    while i < n
        invariant
            n == list.len(),
            i <= n,
            forall|k: int| 0 <= k < i ==> !labels_match((#[trigger] list[k])@, label@),
        decreases n - i,
    {
        if eq_ignore_ascii_case(list[i].as_str(), label) {
            assert(labels_match(list@[i as int]@, label@));
            return true;
        }
        i += 1;
    }
    false
}

/// True when no filter is given, or when the filter holds a label that matches
/// `label_search_string` up to ASCII case.
pub fn fixtures_list_contains(search_list: &Option<Vec<String>>, label_search_string: &str) -> (found: bool)
    ensures
        found == filter_admits(*search_list, label_search_string@),
{
    match search_list {
        Some(list) => list_contains_match(list, label_search_string),
        None => true,
    }
}

/// True when the list holds exactly `label`.
pub fn list_contains(list: &Vec<String>, label: &String) -> (found: bool)
    ensures
        found == list_has(list@, label@),
{
    let n = list.len();
    let mut i: usize = 0;
    while i < n
        invariant
            n == list.len(),
            i <= n,
            forall|k: int| 0 <= k < i ==> (#[trigger] list[k])@ != label@,
        decreases n - i,
    {
        if list[i] == *label {
            assert(list@[i as int]@ == label@);
            return true;
        }
        i += 1;
    }
    false
}

} // verus!
