//! What holds of every layout the compiler produces.
use vstd::prelude::*;
use crate::description::{IPDescription, ParamDescription, RegisterDescription};
use crate::layout::{
    access_of, all_fields_valid, bit_map_spec, compile_spec, field_model, field_models,
    fields_apart, fields_disjoint, fields_in_word, fields_spec, header_spec, layout_prefix,
    lemma_prefix_error_stays, reg_entry_spec, CompileError, EntryModel,
};
use crate::numbers::{parse_hex_spec, parse_usize_spec};

verus! {

/// The byte offset at which an entry starts.
pub open spec fn entry_offset(e: EntryModel) -> nat {
    match e {
        EntryModel::Register { offset, .. } => offset,
        EntryModel::Padding { offset, .. } => offset,
        EntryModel::End { offset } => offset,
    }
}

/// The number of bytes an entry covers: four per register, the gap of a
/// padding entry, nothing for the end marker.
pub open spec fn entry_size(e: EntryModel) -> nat {
    match e {
        EntryModel::Register { items, .. } => 4 * match items {
            Some(n) => n,
            None => 1,
        },
        EntryModel::Padding { size, .. } => size,
        EntryModel::End { .. } => 0,
    }
}

/// The bytes that a run of entries covers.
pub open spec fn sizes_sum(s: Seq<EntryModel>) -> nat
    decreases s.len(),
{
    if s.len() == 0 {
        0
    } else {
        sizes_sum(s.drop_last()) + entry_size(s.last())
    }
}

/// Each entry starts where the entries before it, laid from `start`, end.
pub open spec fn laid_out(s: Seq<EntryModel>, start: nat) -> bool {
    forall|i: int| 0 <= i < s.len() ==> entry_offset(#[trigger] s[i]) == start + sizes_sum(s.take(i))
}

/// The bit fields of a register entry lie within its 32 bits and do not overlap.
pub open spec fn entry_fields_ok(e: EntryModel) -> bool {
    match e {
        EntryModel::Register { fields: Some(fs), .. } => fs.len() > 0 && fields_in_word(fs) && fields_disjoint(fs),
        _ => true,
    }
}

proof fn lemma_sizes_sum_concat(a: Seq<EntryModel>, b: Seq<EntryModel>)
    ensures
        sizes_sum(a + b) == sizes_sum(a) + sizes_sum(b),
    decreases b.len(),
{
    if b.len() > 0 {
        lemma_sizes_sum_concat(a, b.drop_last());
        assert((a + b).drop_last() =~= a + b.drop_last());
    } else {
        assert(a + b =~= a);
    }
}

proof fn lemma_laid_out_push(s: Seq<EntryModel>, start: nat, m: EntryModel)
    requires
        laid_out(s, start),
        entry_offset(m) == start + sizes_sum(s),
    ensures
        laid_out(s.push(m), start),
        sizes_sum(s.push(m)) == sizes_sum(s) + entry_size(m),
{
    let t = s.push(m);
    assert(t.drop_last() =~= s);
    assert forall|i: int| 0 <= i < t.len() implies entry_offset(#[trigger] t[i]) == start + sizes_sum(t.take(i)) by {
        if i < s.len() {
            assert(t.take(i) =~= s.take(i));
        } else {
            assert(t.take(i) =~= s);
        }
    }
}

proof fn lemma_entry_step(reg: RegisterDescription, params: Option<Vec<ParamDescription>>, c: nat)
    requires
        reg_entry_spec(reg, params, c) is Ok,
    ensures
        entry_offset((reg_entry_spec(reg, params, c)->Ok_0).0) == c,
        (reg_entry_spec(reg, params, c)->Ok_0).1 == c + entry_size((reg_entry_spec(reg, params, c)->Ok_0).0),
        entry_fields_ok((reg_entry_spec(reg, params, c)->Ok_0).0),
{
    match reg {
        RegisterDescription::Register { fields, .. } => lemma_fields_spec_ok(fields),
        RegisterDescription::Window { fields, .. } => lemma_fields_spec_ok(fields),
        RegisterDescription::Multireg { fields, .. } => lemma_fields_spec_ok(fields),
        RegisterDescription::Skipto(_) => {},
    }
}

proof fn lemma_fields_spec_ok(fields: Option<Vec<crate::description::FieldDescription>>)
    ensures
        fields_spec(fields) matches Ok(Some(fs)) ==> fs.len() > 0 && fields_in_word(fs) && fields_disjoint(fs),
{
    if let Some(v) = fields {
        if v@.len() > 0 && all_fields_valid(v@) {
            let fs = field_models(v@);
            assert forall|i: int| 0 <= i < fs.len() implies 1 <= (#[trigger] fs[i]).width && fs[i].offset + fs[i].width <= 32 by {
                assert(field_model(v@[i]) is Some);
            }
        }
    }
}

proof fn lemma_bit_map_ok(list: Seq<crate::description::InterruptDescription>)
    ensures
        bit_map_spec(list) matches Ok(Some(fs)) ==> fs.len() > 0 && fields_in_word(fs) && fields_disjoint(fs),
{
}

proof fn lemma_prefix_laid_out(
    regs: Seq<RegisterDescription>,
    params: Option<Vec<ParamDescription>>,
    start: nat,
    k: nat,
)
    requires
        layout_prefix(regs, params, start, k) is Ok,
    ensures
        laid_out((layout_prefix(regs, params, start, k)->Ok_0).0, start),
        (layout_prefix(regs, params, start, k)->Ok_0).1 == start + sizes_sum((layout_prefix(regs, params, start, k)->Ok_0).0),
        forall|i: int| 0 <= i < (layout_prefix(regs, params, start, k)->Ok_0).0.len()
            ==> entry_fields_ok(#[trigger] (layout_prefix(regs, params, start, k)->Ok_0).0[i]),
    decreases k,
{
    if k == 0 {
        assert(sizes_sum(Seq::<EntryModel>::empty()) == 0);
    } else {
        let k1 = (k - 1) as nat;
        lemma_prefix_laid_out(regs, params, start, k1);
        let (es, c) = layout_prefix(regs, params, start, k1)->Ok_0;
        lemma_entry_step(regs[k - 1], params, c);
        let (m, c2) = reg_entry_spec(regs[k - 1], params, c)->Ok_0;
        lemma_laid_out_push(es, start, m);
        let t = es.push(m);
        assert forall|i: int| 0 <= i < t.len() implies entry_fields_ok(#[trigger] t[i]) by {
            if i < es.len() {
                assert(t[i] == es[i]);
            }
        }
    }
}

proof fn lemma_words_laid_out(h: Seq<EntryModel>, k: int)
    requires
        0 <= k <= h.len(),
        forall|j: int| 0 <= j < h.len() ==> entry_offset(#[trigger] h[j]) == 4 * j && entry_size(h[j]) == 4,
    ensures
        laid_out(h.take(k), 0),
        sizes_sum(h.take(k)) == 4 * k,
    decreases k,
{
    if k == 0 {
        assert(laid_out(h.take(0), 0));
    } else {
        lemma_words_laid_out(h, k - 1);
        lemma_laid_out_push(h.take(k - 1), 0, h[k - 1]);
        assert(h.take(k) =~= h.take(k - 1).push(h[k - 1]));
    }
}

proof fn lemma_header_laid_out(ip: IPDescription)
    requires
        header_spec(ip) is Ok,
    ensures
        laid_out((header_spec(ip)->Ok_0).0, 0),
        (header_spec(ip)->Ok_0).1 == sizes_sum((header_spec(ip)->Ok_0).0),
        (header_spec(ip)->Ok_0).0.len() >= 1,
        forall|i: int| 0 <= i < (header_spec(ip)->Ok_0).0.len() ==> entry_fields_ok(#[trigger] (header_spec(ip)->Ok_0).0[i]),
{
    let (h, start) = header_spec(ip)->Ok_0;
    lemma_bit_map_ok(ip.alert_list@);
    if let Some(l) = ip.interrupt_list {
        lemma_bit_map_ok(l@);
    }
    assert forall|j: int| 0 <= j < h.len() implies entry_offset(#[trigger] h[j]) == 4 * j && entry_size(h[j]) == 4 by {}
    lemma_words_laid_out(h, h.len() as int);
    assert(h.take(h.len() as int) =~= h);
}

/// Compiling a description gives a layout that depends on the description
/// alone: the same description compiles to the same layout every time.
pub proof fn lemma_compile_deterministic(a: IPDescription, b: IPDescription)
    requires
        a == b,
    ensures
        compile_spec(a) == compile_spec(b),
{
}

/// In every compiled layout the first entry starts at offset 0, each entry
/// starts exactly where the one before it ends, and the final entry is the
/// end marker, whose offset is the total size of all entries.
pub proof fn lemma_offsets_contiguous(ip: IPDescription)
    ensures
        compile_spec(ip) matches Ok(l) ==> {
            &&& l.len() >= 2
            &&& entry_offset(l[0]) == 0
            &&& forall|i: int| 0 <= i < l.len() - 1 ==> entry_offset(#[trigger] l[i + 1]) == entry_offset(l[i]) + entry_size(l[i])
            &&& l.last() is End
            &&& entry_offset(l.last()) == sizes_sum(l)
        },
{
    if let Ok(l) = compile_spec(ip) {
        lemma_header_laid_out(ip);
        let (h, start) = header_spec(ip)->Ok_0;
        let n = ip.registers@.len();
        lemma_prefix_laid_out(ip.registers@, ip.param_list, start, n);
        let (es, c) = layout_prefix(ip.registers@, ip.param_list, start, n)->Ok_0;
        let end = EntryModel::End { offset: c };
        // The registers follow the header.
        assert forall|i: int| 0 <= i < (h + es).len() implies entry_offset(#[trigger] (h + es)[i]) == sizes_sum((h + es).take(i)) by {
            if i < h.len() {
                assert((h + es).take(i) =~= h.take(i));
            } else {
                let j = i - h.len();
                assert((h + es).take(i) =~= h + es.take(j));
                lemma_sizes_sum_concat(h, es.take(j));
                assert(es[j] == (h + es)[i]);
            }
        }
        lemma_sizes_sum_concat(h, es);
        lemma_laid_out_push(h + es, 0, end);
        assert(l == (h + es).push(end));
        assert forall|i: int| 0 <= i < l.len() - 1 implies entry_offset(#[trigger] l[i + 1]) == entry_offset(l[i]) + entry_size(l[i]) by {
            assert(l.take(i + 1).drop_last() =~= l.take(i));
            assert(l.take(i + 1).last() == l[i]);
        }
        assert(l.drop_last() =~= h + es);
    }
}

/// In every compiled layout each bit field of a register has at least one
/// bit, lies within the 32-bit word (`offset + width <= 32`), and shares no
/// bit with another field of the same register.
pub proof fn lemma_bitfields_in_word(ip: IPDescription)
    ensures
        compile_spec(ip) matches Ok(l) ==> forall|i: int| 0 <= i < l.len() ==> entry_fields_ok(#[trigger] l[i]),
{
    if let Ok(l) = compile_spec(ip) {
        lemma_header_laid_out(ip);
        let (h, start) = header_spec(ip)->Ok_0;
        let n = ip.registers@.len();
        lemma_prefix_laid_out(ip.registers@, ip.param_list, start, n);
        let (es, c) = layout_prefix(ip.registers@, ip.param_list, start, n)->Ok_0;
        assert forall|i: int| 0 <= i < l.len() implies entry_fields_ok(#[trigger] l[i]) by {
            if i < h.len() {
                assert(l[i] == h[i]);
            } else if i < h.len() + es.len() {
                assert(l[i] == es[i - h.len()]);
            }
        }
    }
}

/// A field's bit range is kept exactly: its offset is the low bit and its
/// width is `high - low + 1`, with `low <= high <= 31`.
pub proof fn lemma_field_range(f: crate::description::FieldDescription)
    ensures
        field_model(f) matches Some(m) ==> {
            let lo = parse_usize_spec(crate::numbers::bits_low_text(f.bits@), 10)->Some_0;
            let hi = parse_usize_spec(crate::numbers::bits_high_text(f.bits@), 10)->Some_0;
            &&& lo <= hi <= 31
            &&& m.offset == lo
            &&& m.width == hi - lo + 1
        },
{
}

/// Once a register description fails at the cursor where it stands, the
/// whole description fails with that error.
pub proof fn lemma_failing_register_fails_layout(ip: IPDescription, k: nat)
    requires
        header_spec(ip) is Ok,
        k < ip.registers@.len(),
        layout_prefix(ip.registers@, ip.param_list, (header_spec(ip)->Ok_0).1, k) is Ok,
        reg_entry_spec(
            ip.registers@[k as int],
            ip.param_list,
            (layout_prefix(ip.registers@, ip.param_list, (header_spec(ip)->Ok_0).1, k)->Ok_0).1,
        ) is Err,
    ensures
        compile_spec(ip) == Err::<Seq<EntryModel>, CompileError>(
            reg_entry_spec(
                ip.registers@[k as int],
                ip.param_list,
                (layout_prefix(ip.registers@, ip.param_list, (header_spec(ip)->Ok_0).1, k)->Ok_0).1,
            )->Err_0,
        ),
{
    let start = (header_spec(ip)->Ok_0).1;
    lemma_prefix_error_stays(ip.registers@, ip.param_list, start, k + 1, ip.registers@.len());
}

/// A skip-to whose target lies below the cursor where it stands is always
/// rejected: the whole description fails to compile.
pub proof fn lemma_backward_skip_rejected(ip: IPDescription, k: nat)
    requires
        header_spec(ip) is Ok,
        k < ip.registers@.len(),
        layout_prefix(ip.registers@, ip.param_list, (header_spec(ip)->Ok_0).1, k) is Ok,
        ip.registers@[k as int] matches RegisterDescription::Skipto(t) && parse_hex_spec(t@) matches Some(v)
            && (v as nat) < (layout_prefix(ip.registers@, ip.param_list, (header_spec(ip)->Ok_0).1, k)->Ok_0).1,
    ensures
        compile_spec(ip) == Err::<Seq<EntryModel>, CompileError>(CompileError::InvalidSkipTo),
{
    lemma_failing_register_fails_layout(ip, k);
}

/// A register whose fields are all well formed but two of which share a bit
/// is rejected.
pub proof fn lemma_overlapping_fields_rejected(
    reg: RegisterDescription,
    params: Option<Vec<ParamDescription>>,
    cursor: nat,
    i: int,
    j: int,
)
    requires
        reg matches RegisterDescription::Register { swaccess, fields: Some(v), .. } && access_of(swaccess@) is Some
            && all_fields_valid(v@) && 0 <= i < j < v@.len()
            && !fields_apart(field_models(v@)[i], field_models(v@)[j]),
    ensures
        reg_entry_spec(reg, params, cursor) == Err::<(EntryModel, nat), CompileError>(CompileError::InvalidField),
{
    if let RegisterDescription::Register { fields: Some(v), .. } = reg {
        assert(!fields_disjoint(field_models(v@)));
    }
}

} // verus!
