//! Request handling for a hosted proof service: the circuit types that a
//! request may name and the choice of prover that serves it.
use vstd::prelude::*;

pub mod circuit;
pub mod request;

verus! {

} // verus!
