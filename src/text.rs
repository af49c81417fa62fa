//! Comparison of text against names.
use vstd::prelude::*;

verus! {

/// Whether `s` holds exactly the characters of `name`.
pub fn str_is(s: &str, name: &str) -> (r: bool)
    ensures
        r == (s@ == name@),
{
    let a = s.to_owned();
    let b = name.to_owned();
    a == b
}

} // verus!
