//! Owned texts made from literals.
use vstd::prelude::*;

verus! {

/// An owned copy of `s`.
pub(crate) fn text_of(s: &str) -> (t: String)
    ensures
        t@ == s@,
{
    String::from_str(s)
}

} // verus!
