//! Hardware abstraction layer for a single-core RISC-V microcontroller:
//! a register-layout compiler, device protocol plans, and interrupt-free locks.

pub mod addresses;
pub mod aes;
pub mod bus;
pub mod csrng;
pub mod description;
pub mod hmac;
pub mod interrupt;
pub mod kmac;
pub mod layout;
pub mod layout_laws;
pub mod numbers;
pub mod otbn;
pub mod sanitize;
pub mod synch;
pub mod text;
pub mod uart;
