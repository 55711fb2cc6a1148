//! Optional text columns.

use vstd::prelude::*;

verus! {

/// The characters of an optional text, if there is one.
pub open spec fn text_of(value: Option<String>) -> Option<Seq<char>> {
    match value {
        Some(text) => Some(text@),
        None => None,
    }
}

/// The text that stands for a reading: empty where the host told nothing.
pub open spec fn reading_text(reading: Option<String>) -> Seq<char> {
    match reading {
        Some(text) => text@,
        None => Seq::empty(),
    }
}

/// Tells whether two optional texts read the same.
pub fn same_text(left: &Option<String>, right: &Option<String>) -> (same: bool)
    ensures
        same == (text_of(*left) == text_of(*right)),
{
    match (left, right) {
        (Some(a), Some(b)) => a.eq(b),
        (None, None) => true,
        _ => false,
    }
}

/// The text of a reading, empty where the host told nothing.
pub fn reading_or_empty(reading: Option<String>) -> (text: String)
    ensures
        text@ == reading_text(reading),
{
    match reading {
        Some(text) => text,
        None => String::new(),
    }
}

} // verus!
