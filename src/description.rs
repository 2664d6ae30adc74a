//! The hardware description document: interrupts, alerts, parameters and
//! register descriptions of one IP block, and the module table of a top level.
use vstd::prelude::*;

verus! {

/// One interrupt or alert of an IP block.
#[derive(Debug, Clone)]
pub struct InterruptDescription {
    pub name: String,
    pub desc: String,
}

/// A named parameter with an optional default value.
#[derive(Debug, Clone)]
pub struct ParamDescription {
    pub name: String,
    pub default: Option<String>,
}

/// A field of a register: its bit range (`"hi:lo"` or a single bit),
/// an optional name and an optional description.
#[derive(Debug, Clone)]
pub struct FieldDescription {
    pub bits: String,
    pub name: Option<String>,
    pub desc: Option<String>,
}

/// One entry of a register list: exactly one of four shapes.
#[derive(Debug, Clone)]
pub enum RegisterDescription {
    /// A single 32-bit register.
    Register {
        name: String,
        desc: Option<String>,
        swaccess: String,
        fields: Option<Vec<FieldDescription>>,
    },
    /// A block of `items` identical registers.
    Window {
        name: String,
        desc: Option<String>,
        swaccess: String,
        items: String,
        fields: Option<Vec<FieldDescription>>,
    },
    /// `count` identical registers; the count is a number or a parameter name.
    Multireg {
        name: String,
        desc: Option<String>,
        swaccess: String,
        count: String,
        fields: Option<Vec<FieldDescription>>,
    },
    /// Moves the cursor forward to an absolute byte offset, written in hex.
    Skipto(String),
}

/// The description of one IP block.
#[derive(Debug, Clone)]
pub struct IPDescription {
    pub interrupt_list: Option<Vec<InterruptDescription>>,
    pub alert_list: Vec<InterruptDescription>,
    pub registers: Vec<RegisterDescription>,
    pub param_list: Option<Vec<ParamDescription>>,
}

/// A module of the top-level description and its base address, written in hex.
#[derive(Debug, Clone)]
pub struct ModuleDescription {
    pub name: String,
    pub base_addr: Option<String>,
}

/// The top-level description: the modules of the chip.
#[derive(Debug, Clone)]
pub struct TopDescription {
    pub module: Vec<ModuleDescription>,
}

} // verus!
