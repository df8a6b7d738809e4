//! Verified core of a newsletter service: subscriber validation, subscription
//! tokens, confirmation e-mails, and the decisions of its HTTP handlers.
use vstd::prelude::*;

pub mod domain;
pub mod http;
pub mod routes;
pub mod text;

verus! {

/// Adds one hundred to `x`.
pub fn more(x: u32) -> (r: u32)
    requires
        x + 100 <= u32::MAX,
    ensures
        r == x + 100,
{
    x + 100
}

} // verus!
