//! Big-number accelerator: its register window; no operation is offered yet.
use vstd::prelude::*;

verus! {

/// The engine's register window.
pub struct OtbnRegisters;

/// The operations of the engine, as plans; none yet.
pub trait OtbnRaw {}

impl OtbnRaw for OtbnRegisters {}

/// The engine's driver interface above the raw plans.
pub trait Otbn {}

} // verus!
