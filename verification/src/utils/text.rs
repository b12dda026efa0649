//! Comparing and copying text by its characters.
use vstd::prelude::*;

verus! {

/// Whether two string slices hold the same characters.
pub fn same_text(a: &str, b: &str) -> (same: bool)
    ensures
        same == (a@ == b@),
{
    let left = String::from_str(a);
    let right = String::from_str(b);
    left == right
}

/// Whether two optional strings are both absent or hold the same characters.
pub fn same_opt_text(a: &Option<String>, b: &Option<String>) -> (same: bool)
    ensures
        same == (a.deep_view() == b.deep_view()),
{
    match (a, b) {
        (None, None) => true,
        (Some(x), Some(y)) => same_text(x.as_str(), y.as_str()),
        _ => false,
    }
}

/// A fresh string with the characters of `s`.
pub fn copy_text(s: &String) -> (copy: String)
    ensures
        copy@ == s@,
{
    String::from_str(s.as_str())
}

/// A fresh optional string with the characters of `o`, if any.
pub fn copy_opt_text(o: &Option<String>) -> (copy: Option<String>)
    ensures
        copy.deep_view() == o.deep_view(),
{
    match o {
        Some(s) => Some(copy_text(s)),
        None => None,
    }
}

/// Whether `list` holds a string with the characters of `s`.
pub fn contains_text(list: &Vec<String>, s: &str) -> (found: bool)
    ensures
        found == list.deep_view().contains(s@),
{
    let mut i: usize = 0;
    while i < list.len()
        invariant
            i <= list.len(),
            forall|j: int| 0 <= j < i ==> #[trigger] list.deep_view()[j] != s@,
        decreases list.len() - i,
    {
        if same_text(list[i].as_str(), s) {
            assert(list.deep_view()[i as int] == s@);
            return true;
        }
        i = i + 1;
    }
    false
}

/// Adds a copy of `s` to `list` unless its characters are there already.
pub fn push_unique_text(list: &mut Vec<String>, s: &str)
    requires
        old(list).deep_view().no_duplicates(),
    ensures
        final(list).deep_view().no_duplicates(),
        old(list).deep_view().contains(s@) ==> final(list).deep_view() == old(list).deep_view(),
        !old(list).deep_view().contains(s@) ==> final(list).deep_view() == old(list).deep_view().push(s@),
{
    if !contains_text(list, s) {
        let ghost before = list.deep_view();
        list.push(String::from_str(s));
        assert(list.deep_view() =~= before.push(s@));
    }
}

} // verus!
