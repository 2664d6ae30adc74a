//! Register-level protocol steps. A driver operation is a plan: the exact
//! sequence of register writes, status waits and reads that the hardware
//! hand-shake needs, which a runner then performs on the memory-mapped window.
use vstd::prelude::*;

verus! {

/// One step of a protocol on a device's register window; offsets are bytes
/// from the window's base address.
#[derive(PartialEq, Eq, Structural, Clone, Copy, Debug)]
pub enum BusOp {
    /// Write `value` to the register at `offset`.
    Write { offset: usize, value: u32 },
    /// Wait until the register at `offset` has every bit of `mask` set.
    WaitSet { offset: usize, mask: u32 },
    /// Wait until the register at `offset` has every bit of `mask` clear.
    WaitClear { offset: usize, mask: u32 },
    /// Read the register at `offset` into word `slot` of the output buffer.
    Read { offset: usize, slot: usize },
}

/// Writes of `count` consecutive words of `words`, from index `from`, to
/// registers `stride` bytes apart starting at `base`.
pub open spec fn writes_spec(base: usize, stride: usize, words: Seq<u32>, from: int, count: int) -> Seq<BusOp> {
    Seq::new(count as nat, |i: int| BusOp::Write { offset: (base + stride * i) as usize, value: words[from + i] })
}

/// Reads of `count` registers `stride` bytes apart from `base` into
/// consecutive output slots starting at `slot`.
pub open spec fn reads_spec(base: usize, stride: usize, slot: int, count: int) -> Seq<BusOp> {
    Seq::new(count as nat, |i: int| BusOp::Read { offset: (base + stride * i) as usize, slot: (slot + i) as usize })
}

/// Appends the writes of `writes_spec`.
pub fn push_writes(ops: &mut Vec<BusOp>, base: usize, stride: usize, words: &[u32], from: usize, count: usize)
    requires
        from + count <= words.len(),
        base + stride * count <= usize::MAX,
    ensures
        final(ops)@ == old(ops)@ + writes_spec(base, stride, words@, from as int, count as int),
{
    let ghost start = ops@;
    let mut i: usize = 0;
    while i < count
        invariant
            i <= count,
            from + count <= words.len(),
            base + stride * count <= usize::MAX,
            ops@ == start + writes_spec(base, stride, words@, from as int, i as int),
        decreases count - i,
    {
        assert(stride * i <= stride * count) by (nonlinear_arith)
            requires
                i <= count,
        ;
        ops.push(BusOp::Write { offset: base + stride * i, value: words[from + i] });
        assert(ops@ =~= start + writes_spec(base, stride, words@, from as int, i + 1));
        i = i + 1;
    }
}

/// Appends the reads of `reads_spec`.
pub fn push_reads(ops: &mut Vec<BusOp>, base: usize, stride: usize, slot: usize, count: usize)
    requires
        slot + count <= usize::MAX,
        base + stride * count <= usize::MAX,
    ensures
        final(ops)@ == old(ops)@ + reads_spec(base, stride, slot as int, count as int),
{
    let ghost start = ops@;
    let mut i: usize = 0;
    while i < count
        invariant
            i <= count,
            slot + count <= usize::MAX,
            base + stride * count <= usize::MAX,
            ops@ == start + reads_spec(base, stride, slot as int, i as int),
        decreases count - i,
    {
        assert(stride * i <= stride * count) by (nonlinear_arith)
            requires
                i <= count,
        ;
        ops.push(BusOp::Read { offset: base + stride * i, slot: slot + i });
        assert(ops@ =~= start + reads_spec(base, stride, slot as int, i + 1));
        i = i + 1;
    }
}

} // verus!
