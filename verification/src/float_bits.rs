//! Floating-point numbers, carried through and never computed with.
use vstd::prelude::*;

verus! {

/// A floating-point number, as its IEEE 754 bit pattern.
#[derive(Debug, Clone, Copy, PartialEq, Eq, Structural)]
pub struct Real {
    pub bits: u64,
}

} // verus!
