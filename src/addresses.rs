//! The address table: one named base address per module of the top-level
//! description.
use vstd::prelude::*;
use crate::description::{ModuleDescription, TopDescription};
use crate::numbers::{parse_hex, parse_hex_spec};
use crate::text::{to_upper, uppercase_of};

verus! {

/// A module's constant: its name in upper case and its base address.
#[derive(Debug, PartialEq, Eq)]
pub struct AddressEntry {
    pub name: String,
    pub address: usize,
}

/// The base address that an optional hex text gives.
pub open spec fn parse_addr_spec(s: Option<String>) -> Option<usize> {
    match s {
        Some(t) => parse_hex_spec(t@),
        None => None,
    }
}

/// The constants of a module list, in order: one for each module whose base
/// address is present and reads as a hexadecimal number; the others are left out.
pub open spec fn address_table(ms: Seq<ModuleDescription>) -> Seq<(Seq<char>, usize)>
    decreases ms.len(),
{
    if ms.len() == 0 {
        Seq::empty()
    } else {
        let rest = address_table(ms.drop_last());
        match parse_addr_spec(ms.last().base_addr) {
            Some(a) => rest.push((uppercase_of(ms.last().name@), a)),
            None => rest,
        }
    }
}

pub open spec fn table_view(s: Seq<AddressEntry>) -> Seq<(Seq<char>, usize)> {
    s.map_values(|e: AddressEntry| (e.name@, e.address))
}

/// Reads a base address written in hexadecimal, with or without `0x`.
pub fn parse_addr(s: &Option<String>) -> (r: Option<usize>)
    ensures
        r == parse_addr_spec(*s),
{
    match s {
        Some(t) => parse_hex(t.as_str()),
        None => None,
    }
}

/// The address table of a top-level description.
pub fn addresses(top: &TopDescription) -> (r: Vec<AddressEntry>)
    ensures
        table_view(r@) == address_table(top.module@),
{
    let mut out: Vec<AddressEntry> = Vec::new();
    let mut i: usize = 0;
    assert(top.module@.take(0) =~= Seq::<ModuleDescription>::empty());
    assert(table_view(out@) =~= Seq::<(Seq<char>, usize)>::empty());
    while i < top.module.len()
        invariant
            i <= top.module@.len(),
            table_view(out@) == address_table(top.module@.take(i as int)),
        decreases top.module@.len() - i,
    {
        let m = &top.module[i];
        let ghost before = out@;
        assert(top.module@.take(i + 1).drop_last() =~= top.module@.take(i as int));
        if let Some(a) = parse_addr(&m.base_addr) {
            out.push(AddressEntry { name: to_upper(m.name.as_str()), address: a });
            assert(table_view(out@) =~= table_view(before).push((uppercase_of(m.name@), a)));
        }
        i = i + 1;
    }
    assert(top.module@.take(top.module@.len() as int) =~= top.module@);
    out
}

} // verus!
