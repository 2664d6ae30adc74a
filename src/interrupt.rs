//! The register frame that the trap entry saves before calling a handler.
use vstd::prelude::*;

verus! {

/// The 32 general-purpose registers and the program counter at the trap.
pub struct ExceptionFrame {
    pub registers: [usize; 32],
    pub pc: usize,
}

} // verus!
