//! Hash engine: one complete message streamed through the input FIFO.
use vstd::prelude::*;
use crate::bus::{push_reads, reads_spec, BusOp};

verus! {

/// Byte offsets of the engine's registers.
pub const INTR_STATE: usize = 0x00;
pub const CFG: usize = 0x10;
pub const CMD: usize = 0x14;
pub const STATUS: usize = 0x18;
pub const DIGEST: usize = 0x44;
pub const MSG_FIFO: usize = 0x800;

/// Bits of the registers above.
pub const INTR_HMAC_DONE: u32 = 0x1;
pub const CFG_SHA_EN: u32 = 0x2;
pub const CMD_HASH_START: u32 = 0x1;
pub const CMD_HASH_PROCESS: u32 = 0x2;
pub const STATUS_FIFO_FULL: u32 = 0x2;

/// The engine's register window.
pub struct HmacRegisters;

/// Each message word waits for room in the FIFO, then goes in.
pub open spec fn feed_words(data: Seq<u32>) -> Seq<BusOp>
    decreases data.len(),
{
    if data.len() == 0 {
        Seq::empty()
    } else {
        feed_words(data.drop_last()) + seq![
            BusOp::WaitClear { offset: STATUS, mask: STATUS_FIFO_FULL },
            BusOp::Write { offset: MSG_FIFO, value: data.last() },
        ]
    }
}

/// Hashing: enable hashing, start, stream the message, process, wait for
/// the done interrupt bit, read the eight digest words into slots 0 to 7.
pub open spec fn hash_plan(data: Seq<u32>) -> Seq<BusOp> {
    seq![
        BusOp::Write { offset: CFG, value: CFG_SHA_EN },
        BusOp::Write { offset: CMD, value: CMD_HASH_START },
    ] + feed_words(data) + seq![
        BusOp::Write { offset: CMD, value: CMD_HASH_PROCESS },
        BusOp::WaitSet { offset: INTR_STATE, mask: INTR_HMAC_DONE },
    ] + reads_spec(DIGEST, 4, 0, 8)
}

/// The operations of the engine, as plans.
pub trait HmacRaw {
    /// The digest's eight words are read into slots 0 to 7.
    fn hash_data(&self, data: &[u32]) -> (r: Vec<BusOp>)
        ensures
            r@ == hash_plan(data@),
    ;
}

impl HmacRaw for HmacRegisters {
    fn hash_data(&self, data: &[u32]) -> (r: Vec<BusOp>) {
        let mut ops: Vec<BusOp> = Vec::new();
        ops.push(BusOp::Write { offset: CFG, value: CFG_SHA_EN });
        ops.push(BusOp::Write { offset: CMD, value: CMD_HASH_START });
        let ghost head = ops@;
        let mut i: usize = 0;
        assert(data@.take(0) =~= Seq::<u32>::empty());
        while i < data.len()
            invariant
                i <= data@.len(),
                ops@ == head + feed_words(data@.take(i as int)),
            decreases data@.len() - i,
        {
            ops.push(BusOp::WaitClear { offset: STATUS, mask: STATUS_FIFO_FULL });
            ops.push(BusOp::Write { offset: MSG_FIFO, value: data[i] });
            assert(data@.take(i + 1).drop_last() =~= data@.take(i as int));
            assert(ops@ =~= head + feed_words(data@.take(i + 1)));
            i = i + 1;
        }
        assert(data@.take(data@.len() as int) =~= data@);
        ops.push(BusOp::Write { offset: CMD, value: CMD_HASH_PROCESS });
        ops.push(BusOp::WaitSet { offset: INTR_STATE, mask: INTR_HMAC_DONE });
        push_reads(&mut ops, DIGEST, 4, 0, 8);
        assert(ops@ =~= hash_plan(data@));
        ops
    }
}

/// The engine's driver interface above the raw plans.
pub trait Hmac {}

} // verus!
