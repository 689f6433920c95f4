//! Helpers on lists of strings, stated over the strings' character sequences.

use vstd::prelude::*;

verus! {

/// The character sequences of a list of strings, in order.
pub open spec fn texts(list: Seq<String>) -> Seq<Seq<char>> {
    list.map_values(|s: String| s@)
}

/// Whether `list` holds a string that reads `needle`.
pub fn contains_text(list: &Vec<String>, needle: &String) -> (found: bool)
    ensures
        found == texts(list@).contains(needle@),
{
    let mut i: usize = 0;
    while i < list.len()
        invariant
            i <= list.len(),
            forall|j: int| 0 <= j < i ==> texts(list@)[j] != needle@,
        decreases list.len() - i,
    {
        if list[i] == *needle {
            assert(texts(list@)[i as int] == needle@);
            return true;
        }
        i += 1;
    }
    false
}

/// Whether some string of `wanted` also occurs in `list`.
pub fn contains_any_text(list: &Vec<String>, wanted: &Vec<String>) -> (found: bool)
    ensures
        found == exists|k: int|
            0 <= k < wanted.len() && texts(list@).contains(#[trigger] texts(wanted@)[k]),
{
    let mut k: usize = 0;
    while k < wanted.len()
        invariant
            k <= wanted.len(),
            forall|j: int| 0 <= j < k ==> !texts(list@).contains(#[trigger] texts(wanted@)[j]),
        decreases wanted.len() - k,
    {
        if contains_text(list, &wanted[k]) {
            assert(texts(wanted@)[k as int] == wanted@[k as int]@);
            return true;
        }
        k += 1;
    }
    false
}

} // verus!
