//! Small verified helpers on string slices.

use vstd::prelude::*;

verus! {

/// Compares two string slices character by character.
pub fn str_eq(a: &str, b: &str) -> (r: bool)
    ensures
        r == (a@ == b@),
{
    let n = a.unicode_len();
    if n != b.unicode_len() {
        return false;
    }
    let mut i: usize = 0;
    while i < n
        invariant
            n == a@.len(),
            n == b@.len(),
            i <= n,
            forall|j: int| 0 <= j < i ==> a@[j] == b@[j],
        decreases n - i,
    {
        if a.get_char(i) != b.get_char(i) {
            return false;
        }
        i = i + 1;
    }
    assert(a@ =~= b@);
    true
}

/// Whether `list` holds a string equal to `s`.
pub fn contains_str(list: &[&str], s: &str) -> (r: bool)
    ensures
        r == list@.map_values(|e: &str| e@).contains(s@),
{
    let ghost views = list@.map_values(|e: &str| e@);
    let mut i: usize = 0;
    while i < list.len()
        invariant
            i <= list@.len(),
            views == list@.map_values(|e: &str| e@),
            forall|j: int| 0 <= j < i ==> views[j] != s@,
        decreases list@.len() - i,
    {
        if str_eq(list[i], s) {
            assert(views[i as int] == s@);
            return true;
        }
        i = i + 1;
    }
    assert forall|j: int| 0 <= j < views.len() implies views[j] != s@ by {}
    false
}

} // verus!
