//! Small helpers on text.

use vstd::prelude::*;

verus! {

/// Whether two pieces of text hold the same characters.
pub fn same_text(a: &str, b: &str) -> (same: bool)
    ensures
        same == (a@ == b@),
{
    a.to_owned() == b.to_owned()
}

/// `head` followed by `tail`.
pub fn join(head: &str, tail: &str) -> (joined: String)
    ensures
        joined@ == head@ + tail@,
{
    head.to_owned().concat(tail)
}

/// `before`, then `inner`, then `after`.
pub fn enclose(before: &str, inner: &str, after: &str) -> (joined: String)
    ensures
        joined@ == before@ + inner@ + after@,
{
    join(before, inner).concat(after)
}

} // verus!
