//! A two-party escrow over resources held as plain values: one party offers a
//! resource against a request, a counterparty satisfies the request and takes
//! the offer, and the holder of the escrow's badge withdraws or cancels.
use vstd::prelude::*;

pub mod escrow;
pub mod laws;
pub mod resource;

verus! {

} // verus!
