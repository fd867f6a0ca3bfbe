//! Small helpers on text that the rest of the crate shares.

use vstd::prelude::*;
use vstd::string::*;

verus! {

/// The characters of a piece of text that may be absent.
pub open spec fn opt_text(value: Option<String>) -> Option<Seq<char>> {
    match value {
        Some(text) => Some(text@),
        None => None,
    }
}

/// The characters of each piece of text in a list.
pub open spec fn texts(values: Seq<String>) -> Seq<Seq<char>> {
    values.map_values(|text: String| text@)
}

/// Whether two pieces of text hold the same characters.
pub fn same_text(a: &str, b: &str) -> (same: bool)
    ensures
        same == (a@ == b@),
{
    let left = String::from_str(a);
    let right = String::from_str(b);
    left == right
}

/// A copy of a piece of text that may be absent.
pub fn copy_opt_text(value: &Option<String>) -> (copy: Option<String>)
    ensures
        opt_text(copy) == opt_text(*value),
{
    match value {
        Some(text) => Some(text.clone()),
        None => None,
    }
}

/// A copy of a list of texts, in the same order.
pub fn copy_texts(values: &Vec<String>) -> (copy: Vec<String>)
    ensures
        texts(copy@) == texts(values@),
{
    let mut copy: Vec<String> = Vec::new();
    let mut next: usize = 0;
    while next < values.len()
        invariant
            next <= values.len(),
            copy.len() == next,
            forall|i: int| 0 <= i < next ==> copy@[i]@ == values@[i]@,
        decreases values.len() - next,
    {
        copy.push(values[next].clone());
        next = next + 1;
    }
    assert(texts(copy@) =~= texts(values@));
    copy
}

/// Whether a list of texts holds `wanted`.
pub fn holds_text(values: &Vec<String>, wanted: &str) -> (found: bool)
    ensures
        found == texts(values@).contains(wanted@),
{
    let mut next: usize = 0;
    while next < values.len()
        invariant
            next <= values.len(),
            forall|i: int| 0 <= i < next ==> texts(values@)[i] != wanted@,
        decreases values.len() - next,
    {
        if same_text(values[next].as_str(), wanted) {
            assert(texts(values@)[next as int] == wanted@);
            return true;
        }
        next = next + 1;
    }
    false
}

} // verus!
