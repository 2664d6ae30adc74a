//! The register-layout compiler: turns an IP block's description into an
//! ordered, byte-exact table of 32-bit registers with their bit fields.
use vstd::prelude::*;
use vstd::string::*;
use crate::description::{FieldDescription, IPDescription, InterruptDescription, ParamDescription, RegisterDescription};
use crate::numbers::{bits_high_text, bits_low_text, extract_end, extract_start, parse_hex, parse_hex_spec, parse_usize, parse_usize_spec};
use crate::text::{lowercase_of, str_eq, to_lower};

verus! {

/// How software may access a register.
#[derive(PartialEq, Eq, Structural, Clone, Copy, Debug)]
pub enum Access {
    ReadOnly,
    WriteOnly,
    ReadWrite,
}

/// Why a description does not compile.
#[derive(PartialEq, Eq, Structural, Clone, Copy, Debug)]
pub enum CompileError {
    /// The document could not be read or does not have the expected shape.
    IoOrFormat,
    /// A register's access mode is none of the known ones.
    UnknownAccess,
    /// An item count is no number, names no parameter with a numeric
    /// default, or makes the layout larger than the address space.
    InvalidCount,
    /// A skip-to offset is no hexadecimal number or lies below the cursor.
    InvalidSkipTo,
    /// A bit field lies outside the 32-bit register, is written wrongly,
    /// overlaps another field of its register, or a register would need
    /// more than 32 interrupt or alert bits.
    InvalidField,
}

/// A named run of bits within a 32-bit register.
#[derive(Debug, PartialEq, Eq)]
pub struct BitField {
    pub name: String,
    pub offset: usize,
    pub width: usize,
}

/// One entry of a compiled layout.
#[derive(Debug, PartialEq, Eq)]
pub enum LayoutEntry {
    /// A register, or an array of `items` registers, at byte `offset`.
    Register {
        offset: usize,
        name: String,
        access: Access,
        items: Option<usize>,
        fields: Option<Vec<BitField>>,
    },
    /// Unused bytes left by a skip-to.
    Padding { offset: usize, size: usize },
    /// The end of the layout: its total size.
    End { offset: usize },
}

/// A bit field as the contracts see it.
pub struct FieldModel {
    pub name: Seq<char>,
    pub offset: nat,
    pub width: nat,
}

/// A layout entry as the contracts see it.
pub enum EntryModel {
    Register {
        offset: nat,
        name: Seq<char>,
        access: Access,
        items: Option<nat>,
        fields: Option<Seq<FieldModel>>,
    },
    Padding { offset: nat, size: nat },
    End { offset: nat },
}

impl View for BitField {
    type V = FieldModel;

    open spec fn view(&self) -> FieldModel {
        FieldModel { name: self.name@, offset: self.offset as nat, width: self.width as nat }
    }
}

pub open spec fn fields_view(s: Seq<BitField>) -> Seq<FieldModel> {
    s.map_values(|f: BitField| f@)
}

pub open spec fn opt_nat(o: Option<usize>) -> Option<nat> {
    match o {
        Some(n) => Some(n as nat),
        None => None,
    }
}

pub open spec fn opt_fields_view(o: Option<Vec<BitField>>) -> Option<Seq<FieldModel>> {
    match o {
        Some(v) => Some(fields_view(v@)),
        None => None,
    }
}

impl View for LayoutEntry {
    type V = EntryModel;

    open spec fn view(&self) -> EntryModel {
        match self {
            LayoutEntry::Register { offset, name, access, items, fields } => EntryModel::Register {
                offset: *offset as nat,
                name: name@,
                access: *access,
                items: opt_nat(*items),
                fields: opt_fields_view(*fields),
            },
            LayoutEntry::Padding { offset, size } => EntryModel::Padding {
                offset: *offset as nat,
                size: *size as nat,
            },
            LayoutEntry::End { offset } => EntryModel::End { offset: *offset as nat },
        }
    }
}

pub open spec fn entries_view(s: Seq<LayoutEntry>) -> Seq<EntryModel> {
    s.map_values(|e: LayoutEntry| e@)
}

// ---------------------------------------------------------------------------
// Bit fields
// ---------------------------------------------------------------------------

/// The name a field gets: its own, or `data`, in lower case.
pub open spec fn field_name_text(f: FieldDescription) -> Seq<char> {
    match f.name {
        Some(n) => lowercase_of(n@),
        None => lowercase_of("data"@),
    }
}

/// The bit field that a field description declares, if its range is a valid
/// range `0 <= low <= high <= 31`.
pub open spec fn field_model(f: FieldDescription) -> Option<FieldModel> {
    match (parse_usize_spec(bits_low_text(f.bits@), 10), parse_usize_spec(bits_high_text(f.bits@), 10)) {
        (Some(lo), Some(hi)) => if lo <= hi && hi <= 31 {
            Some(FieldModel { name: field_name_text(f), offset: lo as nat, width: (hi - lo + 1) as nat })
        } else {
            None
        },
        _ => None,
    }
}

pub open spec fn all_fields_valid(fs: Seq<FieldDescription>) -> bool {
    forall|i: int| 0 <= i < fs.len() ==> (#[trigger] field_model(fs[i])) is Some
}

pub open spec fn field_models(fs: Seq<FieldDescription>) -> Seq<FieldModel> {
    Seq::new(fs.len(), |i: int| field_model(fs[i])->Some_0)
}

pub open spec fn fields_apart(a: FieldModel, b: FieldModel) -> bool {
    a.offset + a.width <= b.offset || b.offset + b.width <= a.offset
}

/// No two fields share a bit.
pub open spec fn fields_disjoint(s: Seq<FieldModel>) -> bool {
    forall|i: int, j: int| 0 <= i < j < s.len() ==> fields_apart(#[trigger] s[i], #[trigger] s[j])
}

/// Every field lies within the 32-bit register and has at least one bit.
pub open spec fn fields_in_word(s: Seq<FieldModel>) -> bool {
    forall|i: int| 0 <= i < s.len() ==> 1 <= (#[trigger] s[i]).width && s[i].offset + s[i].width <= 32
}

/// The bit-field map that a register's field list declares: none for an
/// absent or empty list.
pub open spec fn fields_spec(fields: Option<Vec<FieldDescription>>) -> Result<Option<Seq<FieldModel>>, CompileError> {
    match fields {
        None => Ok(None),
        Some(v) => if v@.len() == 0 {
            Ok(None)
        } else if !all_fields_valid(v@) || !fields_disjoint(field_models(v@)) {
            Err(CompileError::InvalidField)
        } else {
            Ok(Some(field_models(v@)))
        },
    }
}

pub open spec fn fields_result_view(r: Result<Option<Vec<BitField>>, CompileError>) -> Result<Option<Seq<FieldModel>>, CompileError> {
    match r {
        Ok(o) => Ok(opt_fields_view(o)),
        Err(e) => Err(e),
    }
}

/// The bit fields of one register, checked for range and overlap.
pub fn gen_bitfield(fields: &Option<Vec<FieldDescription>>) -> (r: Result<Option<Vec<BitField>>, CompileError>)
    ensures
        fields_result_view(r) == fields_spec(*fields),
{
    let fs = match fields {
        None => {
            return Ok(None);
        },
        Some(fs) => fs,
    };
    if fs.len() == 0 {
        return Ok(None);
    }
    let mut out: Vec<BitField> = Vec::new();
    let mut i: usize = 0;
    while i < fs.len()
        invariant
            *fields == Some(*fs),
            i <= fs@.len(),
            out@.len() == i,
            forall|j: int| 0 <= j < i ==> (#[trigger] field_model(fs@[j])) is Some,
            forall|j: int| 0 <= j < i ==> (#[trigger] out@[j])@ == field_model(fs@[j])->Some_0,
            forall|j: int| 0 <= j < i ==> (#[trigger] out@[j]).offset + out@[j].width <= 32,
        decreases fs@.len() - i,
    {
        let f = &fs[i];
        let lo = extract_start(f.bits.as_str());
        let hi = extract_end(f.bits.as_str());
        let (lo, hi) = match (lo, hi) {
            (Some(lo), Some(hi)) => (lo, hi),
            _ => {
                assert(field_model(fs@[i as int]) is None);
                assert(!all_fields_valid(fs@));
                return Err(CompileError::InvalidField);
            },
        };
        if lo > hi || hi > 31 {
            assert(field_model(fs@[i as int]) is None);
            assert(!all_fields_valid(fs@));
            return Err(CompileError::InvalidField);
        }
        let name = match &f.name {
            Some(n) => to_lower(n.as_str()),
            None => to_lower("data"),
        };
        out.push(BitField { name, offset: lo, width: hi - lo + 1 });
        i = i + 1;
    }
    let ghost fv = fields_view(out@);
    assert(fv =~= field_models(fs@));
    let n = out.len();
    let mut a: usize = 0;
    while a < n
        invariant
            n == out@.len(),
            fv == fields_view(out@),
            fv == field_models(fs@),
            fs@.len() == n,
            *fields == Some(*fs),
            forall|j: int| 0 <= j < n ==> (#[trigger] out@[j]).offset + out@[j].width <= 32,
            forall|p: int, q: int| 0 <= p < q < n && p < a ==> fields_apart(#[trigger] fv[p], #[trigger] fv[q]),
        decreases n - a,
    {
        let mut b: usize = a + 1;
        while b < n
            invariant
                a < n,
                a + 1 <= b <= n,
                n == out@.len(),
                fv == fields_view(out@),
                fv == field_models(fs@),
                fs@.len() == n,
                *fields == Some(*fs),
            fv == field_models(fs@),
            fs@.len() == n,
            *fields == Some(*fs),
                forall|j: int| 0 <= j < n ==> (#[trigger] out@[j]).offset + out@[j].width <= 32,
                forall|p: int, q: int| 0 <= p < q < n && p < a ==> fields_apart(#[trigger] fv[p], #[trigger] fv[q]),
                forall|q: int| a < q < b ==> fields_apart(fv[a as int], #[trigger] fv[q]),
            decreases n - b,
        {
            let x = &out[a];
            let y = &out[b];
            if !(x.offset + x.width <= y.offset || y.offset + y.width <= x.offset) {
                assert(!fields_apart(fv[a as int], fv[b as int]));
                return Err(CompileError::InvalidField);
            }
            b = b + 1;
        }
        a = a + 1;
    }
    Ok(Some(out))
}

// ---------------------------------------------------------------------------
// Registers
// ---------------------------------------------------------------------------

/// The access mode that an access text names.
pub open spec fn access_of(s: Seq<char>) -> Option<Access> {
    if s == "ro"@ {
        Some(Access::ReadOnly)
    } else if s == "wo"@ {
        Some(Access::WriteOnly)
    } else if s == "rw"@ || s == "rw0c"@ || s == "rw1c"@ || s == "r0w1c"@ {
        Some(Access::ReadWrite)
    } else {
        None
    }
}

/// The access mode that an access text names, if any.
pub fn access_mode(s: &str) -> (r: Option<Access>)
    ensures
        r == access_of(s@),
{
    if str_eq(s, "ro") {
        Some(Access::ReadOnly)
    } else if str_eq(s, "wo") {
        Some(Access::WriteOnly)
    } else if str_eq(s, "rw") || str_eq(s, "rw0c") || str_eq(s, "rw1c") || str_eq(s, "r0w1c") {
        Some(Access::ReadWrite)
    } else {
        None
    }
}

/// The position of the first parameter named `name` at or after `i`, or -1.
pub open spec fn param_index(ps: Seq<ParamDescription>, name: Seq<char>, i: int) -> int
    decreases ps.len() - i,
{
    if i < 0 || i >= ps.len() {
        -1
    } else if ps[i].name@ == name {
        i
    } else {
        param_index(ps, name, i + 1)
    }
}

/// The item count that `s` gives: a decimal number, or else the numeric
/// default of the first parameter named `s`.
pub open spec fn parse_count_spec(s: Seq<char>, params: Option<Vec<ParamDescription>>) -> Option<usize> {
    match parse_usize_spec(s, 10) {
        Some(v) => Some(v),
        None => match params {
            None => None,
            Some(ps) => {
                let k = param_index(ps@, s, 0);
                if k < 0 {
                    None
                } else {
                    match ps@[k].default {
                        None => None,
                        Some(d) => parse_usize_spec(d@, 10),
                    }
                }
            },
        },
    }
}

/// Resolves a repeat count, given literally or by a parameter's name.
pub fn parse_count(s: &str, params: &Option<Vec<ParamDescription>>) -> (r: Option<usize>)
    ensures
        r == parse_count_spec(s@, *params),
{
    if let Some(v) = parse_usize(s, 10) {
        return Some(v);
    }
    let ps = match params {
        None => {
            return None;
        },
        Some(ps) => ps,
    };
    let mut i: usize = 0;
    while i < ps.len()
        invariant
            i <= ps@.len(),
            *params == Some(*ps),
            parse_usize_spec(s@, 10) is None,
            param_index(ps@, s@, 0) == param_index(ps@, s@, i as int),
        decreases ps@.len() - i,
    {
        if str_eq(ps[i].name.as_str(), s) {
            return match &ps[i].default {
                None => None,
                Some(d) => parse_usize(d.as_str(), 10),
            };
        }
        i = i + 1;
    }
    None
}

/// The entry of a register, or of an array of `items` registers, at `cursor`,
/// and the cursor after it.
pub open spec fn plain_entry_spec(
    name: Seq<char>,
    swaccess: Seq<char>,
    fields: Option<Vec<FieldDescription>>,
    items: Option<nat>,
    cursor: nat,
) -> Result<(EntryModel, nat), CompileError> {
    match access_of(swaccess) {
        None => Err(CompileError::UnknownAccess),
        Some(a) => match fields_spec(fields) {
            Err(e) => Err(e),
            Ok(fm) => {
                let next = cursor + 4 * match items {
                    Some(n) => n,
                    None => 1,
                };
                if next > usize::MAX {
                    Err(CompileError::InvalidCount)
                } else {
                    Ok((EntryModel::Register { offset: cursor, name: lowercase_of(name), access: a, items, fields: fm }, next as nat))
                }
            },
        },
    }
}

/// The entry that one register description adds at `cursor`, and the cursor after it.
pub open spec fn reg_entry_spec(
    reg: RegisterDescription,
    params: Option<Vec<ParamDescription>>,
    cursor: nat,
) -> Result<(EntryModel, nat), CompileError> {
    match reg {
        RegisterDescription::Register { name, swaccess, fields, .. } => plain_entry_spec(
            name@,
            swaccess@,
            fields,
            None,
            cursor,
        ),
        RegisterDescription::Window { name, swaccess, items, fields, .. } => match parse_usize_spec(items@, 10) {
            None => Err(CompileError::InvalidCount),
            Some(n) => plain_entry_spec(name@, swaccess@, fields, Some(n as nat), cursor),
        },
        RegisterDescription::Multireg { name, swaccess, count, fields, .. } => match parse_count_spec(count@, params) {
            None => Err(CompileError::InvalidCount),
            Some(n) => plain_entry_spec(name@, swaccess@, fields, Some(n as nat), cursor),
        },
        RegisterDescription::Skipto(t) => match parse_hex_spec(t@) {
            None => Err(CompileError::InvalidSkipTo),
            Some(v) => if (v as nat) < cursor {
                Err(CompileError::InvalidSkipTo)
            } else {
                Ok((EntryModel::Padding { offset: cursor, size: (v - cursor) as nat }, v as nat))
            },
        },
    }
}

/// Whether an executed step produced what the step's specification gives.
pub open spec fn step_matches(
    r: Result<LayoutEntry, CompileError>,
    cursor: usize,
    s: Result<(EntryModel, nat), CompileError>,
) -> bool {
    match (r, s) {
        (Ok(e), Ok((m, c))) => e@ == m && cursor as nat == c,
        (Err(e), Err(f)) => e == f,
        _ => false,
    }
}

fn gen_plain_register(
    cursor: &mut usize,
    name: &String,
    swaccess: &String,
    fields: &Option<Vec<FieldDescription>>,
    items: Option<usize>,
) -> (r: Result<LayoutEntry, CompileError>)
    ensures
        step_matches(r, *final(cursor), plain_entry_spec(name@, swaccess@, *fields, opt_nat(items), *old(cursor) as nat)),
{
    let address = *cursor;
    let access = match access_mode(swaccess.as_str()) {
        None => {
            return Err(CompileError::UnknownAccess);
        },
        Some(a) => a,
    };
    let bitfields = match gen_bitfield(fields) {
        Err(e) => {
            return Err(e);
        },
        Ok(b) => b,
    };
    let count: usize = match items {
        Some(n) => n,
        None => 1,
    };
    let size = match count.checked_mul(4) {
        None => {
            return Err(CompileError::InvalidCount);
        },
        Some(s) => s,
    };
    let next = match address.checked_add(size) {
        None => {
            return Err(CompileError::InvalidCount);
        },
        Some(n) => n,
    };
    *cursor = next;
    Ok(LayoutEntry::Register { offset: address, name: to_lower(name.as_str()), access, items, fields: bitfields })
}

/// The entry of one register description at the cursor; moves the cursor past it.
pub fn gen_register(
    cursor: &mut usize,
    register_description: &RegisterDescription,
    params: &Option<Vec<ParamDescription>>,
) -> (r: Result<LayoutEntry, CompileError>)
    ensures
        step_matches(r, *final(cursor), reg_entry_spec(*register_description, *params, *old(cursor) as nat)),
{
    match register_description {
        RegisterDescription::Register { name, swaccess, fields, .. } => gen_plain_register(
            cursor,
            name,
            swaccess,
            fields,
            None,
        ),
        RegisterDescription::Window { name, swaccess, items, fields, .. } => match parse_usize(items.as_str(), 10) {
            None => Err(CompileError::InvalidCount),
            Some(n) => gen_plain_register(cursor, name, swaccess, fields, Some(n)),
        },
        RegisterDescription::Multireg { name, swaccess, count, fields, .. } => match parse_count(count.as_str(), params) {
            None => Err(CompileError::InvalidCount),
            Some(n) => gen_plain_register(cursor, name, swaccess, fields, Some(n)),
        },
        RegisterDescription::Skipto(t) => match parse_hex(t.as_str()) {
            None => Err(CompileError::InvalidSkipTo),
            Some(v) => {
                let address = *cursor;
                if v < address {
                    Err(CompileError::InvalidSkipTo)
                } else {
                    *cursor = v;
                    Ok(LayoutEntry::Padding { offset: address, size: v - address })
                }
            },
        },
    }
}

// ---------------------------------------------------------------------------
// Interrupt and alert registers
// ---------------------------------------------------------------------------

/// The bit map of an interrupt or alert list: bit `i` names entry `i`.
/// None for an empty list; a list longer than the register is refused.
pub open spec fn bit_map_spec(list: Seq<InterruptDescription>) -> Result<Option<Seq<FieldModel>>, CompileError> {
    if list.len() > 32 {
        Err(CompileError::InvalidField)
    } else if list.len() == 0 {
        Ok(None)
    } else {
        Ok(Some(Seq::new(list.len(), |i: int| FieldModel { name: lowercase_of(list[i].name@), offset: i as nat, width: 1 })))
    }
}

/// A read/write 32-bit register entry.
pub open spec fn rw_register(offset: nat, name: Seq<char>, fields: Option<Seq<FieldModel>>) -> EntryModel {
    EntryModel::Register { offset, name, access: Access::ReadWrite, items: None, fields }
}

/// The entries that every layout starts with, and the cursor after them:
/// the interrupt state, enable and test registers when there is an
/// interrupt list, then the alert test register.
pub open spec fn header_spec(ip: IPDescription) -> Result<(Seq<EntryModel>, nat), CompileError> {
    match ip.interrupt_list {
        Some(l) => match bit_map_spec(l@) {
            Err(e) => Err(e),
            Ok(im) => match bit_map_spec(ip.alert_list@) {
                Err(e) => Err(e),
                Ok(am) => Ok(
                    (
                        seq![
                            rw_register(0, "intr_state"@, im),
                            rw_register(4, "intr_enable"@, im),
                            rw_register(8, "intr_test"@, im),
                            rw_register(12, "alert_test"@, am),
                        ],
                        16,
                    ),
                ),
            },
        },
        None => match bit_map_spec(ip.alert_list@) {
            Err(e) => Err(e),
            Ok(am) => Ok((seq![rw_register(0, "alert_test"@, am)], 4)),
        },
    }
}

/// The one-bit fields of an interrupt or alert register, in list order.
pub fn gen_interrupt_alert_bitfields(list: &Vec<InterruptDescription>) -> (r: Result<Option<Vec<BitField>>, CompileError>)
    ensures
        fields_result_view(r) == bit_map_spec(list@),
{
    if list.len() > 32 {
        return Err(CompileError::InvalidField);
    }
    if list.len() == 0 {
        return Ok(None);
    }
    let mut out: Vec<BitField> = Vec::new();
    let mut i: usize = 0;
    while i < list.len()
        invariant
            i <= list@.len() <= 32,
            out@.len() == i,
            forall|j: int| 0 <= j < i ==> (#[trigger] out@[j])@ == (FieldModel { name: lowercase_of(list@[j].name@), offset: j as nat, width: 1 }),
        decreases list@.len() - i,
    {
        out.push(BitField { name: to_lower(list[i].name.as_str()), offset: i, width: 1 });
        i = i + 1;
    }
    let ghost want = bit_map_spec(list@)->Ok_0->Some_0;
    assert(fields_view(out@) =~= want);
    Ok(Some(out))
}

fn rw_entry(offset: usize, name: &str, fields: Option<Vec<BitField>>) -> (r: LayoutEntry)
    ensures
        r@ == rw_register(offset as nat, name@, opt_fields_view(fields)),
{
    LayoutEntry::Register { offset, name: String::from_str(name), access: Access::ReadWrite, items: None, fields }
}

pub open spec fn header_result_view(r: Result<(Vec<LayoutEntry>, usize), CompileError>) -> Result<(Seq<EntryModel>, nat), CompileError> {
    match r {
        Ok((v, c)) => Ok((entries_view(v@), c as nat)),
        Err(e) => Err(e),
    }
}

/// The entries that start the layout, and the cursor after them.
pub fn gen_interrupt_alert_registers(ip: &IPDescription) -> (r: Result<(Vec<LayoutEntry>, usize), CompileError>)
    ensures
        header_result_view(r) == header_spec(*ip),
{
    let mut entries: Vec<LayoutEntry> = Vec::new();
    let mut cursor: usize = 0;
    if let Some(l) = &ip.interrupt_list {
        let state = gen_interrupt_alert_bitfields(l);
        if let Err(e) = state {
            return Err(e);
        }
        let state = state.unwrap();
        if let Err(e) = gen_interrupt_alert_bitfields(&ip.alert_list) {
            return Err(e);
        }
        let enable = gen_interrupt_alert_bitfields(l).unwrap();
        let test = gen_interrupt_alert_bitfields(l).unwrap();
        entries.push(rw_entry(0, "intr_state", state));
        entries.push(rw_entry(4, "intr_enable", enable));
        entries.push(rw_entry(8, "intr_test", test));
        cursor = 12;
    }
    let alerts = match gen_interrupt_alert_bitfields(&ip.alert_list) {
        Err(e) => {
            return Err(e);
        },
        Ok(a) => a,
    };
    entries.push(rw_entry(cursor, "alert_test", alerts));
    let ghost want = header_spec(*ip)->Ok_0.0;
    assert(entries_view(entries@) =~= want);
    Ok((entries, cursor + 4))
}

// ---------------------------------------------------------------------------
// The whole layout
// ---------------------------------------------------------------------------

/// The entries that the first `k` register descriptions add from `start`,
/// and the cursor after them; the first error, if one of them fails.
pub open spec fn layout_prefix(
    regs: Seq<RegisterDescription>,
    params: Option<Vec<ParamDescription>>,
    start: nat,
    k: nat,
) -> Result<(Seq<EntryModel>, nat), CompileError>
    decreases k,
{
    if k == 0 {
        Ok((Seq::empty(), start))
    } else {
        match layout_prefix(regs, params, start, (k - 1) as nat) {
            Err(e) => Err(e),
            Ok((es, c)) => match reg_entry_spec(regs[k - 1], params, c) {
                Err(e) => Err(e),
                Ok((m, c2)) => Ok((es.push(m), c2)),
            },
        }
    }
}

/// The layout that a description compiles to: the header, one entry per
/// register description in document order, and the end marker.
pub open spec fn compile_spec(ip: IPDescription) -> Result<Seq<EntryModel>, CompileError> {
    match header_spec(ip) {
        Err(e) => Err(e),
        Ok((h, start)) => match layout_prefix(ip.registers@, ip.param_list, start, ip.registers@.len()) {
            Err(e) => Err(e),
            Ok((es, c)) => Ok(h + es.push(EntryModel::End { offset: c })),
        },
    }
}

pub open spec fn layout_result_view(r: Result<Vec<LayoutEntry>, CompileError>) -> Result<Seq<EntryModel>, CompileError> {
    match r {
        Ok(v) => Ok(entries_view(v@)),
        Err(e) => Err(e),
    }
}

proof fn lemma_entries_view_push(v: Seq<LayoutEntry>, x: LayoutEntry)
    ensures
        entries_view(v.push(x)) == entries_view(v).push(x@),
{
    assert(entries_view(v.push(x)) =~= entries_view(v).push(x@));
}

/// Once some register description fails, every longer prefix fails the same way.
pub proof fn lemma_prefix_error_stays(
    regs: Seq<RegisterDescription>,
    params: Option<Vec<ParamDescription>>,
    start: nat,
    k: nat,
    n: nat,
)
    requires
        k <= n,
        layout_prefix(regs, params, start, k) is Err,
    ensures
        layout_prefix(regs, params, start, n) == layout_prefix(regs, params, start, k),
    decreases n,
{
    if n > k {
        lemma_prefix_error_stays(regs, params, start, k, (n - 1) as nat);
    }
}

/// Compiles an IP description into its register layout.
pub fn registers(ip: &IPDescription) -> (r: Result<Vec<LayoutEntry>, CompileError>)
    ensures
        layout_result_view(r) == compile_spec(*ip),
{
    let (mut entries, start) = match gen_interrupt_alert_registers(ip) {
        Err(e) => {
            return Err(e);
        },
        Ok(h) => h,
    };
    let ghost h = entries_view(entries@);
    let ghost mut rest: Seq<EntryModel> = Seq::empty();
    let ghost regs = ip.registers@;
    let mut cursor: usize = start;
    let mut i: usize = 0;
    assert(h + rest =~= h);
    while i < ip.registers.len()
        invariant
            i <= regs.len(),
            regs == ip.registers@,
            header_spec(*ip) == Ok::<(Seq<EntryModel>, nat), CompileError>((h, start as nat)),
            entries_view(entries@) == h + rest,
            layout_prefix(regs, ip.param_list, start as nat, i as nat) == Ok::<(Seq<EntryModel>, nat), CompileError>((rest, cursor as nat)),
        decreases regs.len() - i,
    {
        let e = gen_register(&mut cursor, &ip.registers[i], &ip.param_list);
        match e {
            Err(e) => {
                proof {
                    lemma_prefix_error_stays(regs, ip.param_list, start as nat, (i + 1) as nat, regs.len());
                }
                return Err(e);
            },
            Ok(e) => {
                let ghost ev = e@;
                let ghost before = entries@;
                proof {
                    rest = rest.push(ev);
                }
                entries.push(e);
                proof {
                    lemma_entries_view_push(before, entries@.last());
                    assert(entries@ == before.push(entries@.last()));
                    assert(h + rest =~= entries_view(before).push(ev));
                }
            },
        }
        i = i + 1;
    }
    let ghost before = entries@;
    entries.push(LayoutEntry::End { offset: cursor });
    proof {
        lemma_entries_view_push(before, entries@.last());
        assert(entries@ == before.push(entries@.last()));
        assert(h + rest.push(EntryModel::End { offset: cursor as nat }) =~= entries_view(before).push(entries@.last()@));
    }
    Ok(entries)
}

} // verus!
