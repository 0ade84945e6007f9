//! Which comment a comment operation works on.
use vstd::prelude::*;

verus! {

/// Whether a comment operation works on the repeatable comment: only when the caller asked
/// for it explicitly; otherwise the regular comment.
pub fn comment_is_repeatable(repeatable: Option<bool>) -> (r: bool)
    ensures
        r == (repeatable == Some(true)),
{
    match repeatable {
        Some(true) => true,
        _ => false,
    }
}

} // verus!
