//! The liveness endpoint.
use vstd::prelude::*;
use crate::text::owned;

verus! {

/// The body of the liveness answer.
pub fn hey() -> (r: String)
    ensures
        r@ == "hi hello! -from CMDB"@,
{
    owned("hi hello! -from CMDB")
}

} // verus!
