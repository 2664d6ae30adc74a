//! Keccak message authentication engine: its register window; no operation is offered yet.
use vstd::prelude::*;

verus! {

/// The engine's register window.
pub struct KmacRegisters;

/// The operations of the engine, as plans; none yet.
pub trait KmacRaw {}

impl KmacRaw for KmacRegisters {}

/// The engine's driver interface above the raw plans.
pub trait Kmac {}

} // verus!
