//! Entropy generator: application command headers, instantiation with an
//! optional seed, and generation of one 128-bit block.
use vstd::prelude::*;
use crate::bus::{push_reads, reads_spec, BusOp};

verus! {

/// Byte offsets of the engine's registers.
pub const CTRL: usize = 0x14;
pub const CMD_REQ: usize = 0x18;
pub const SW_CMD_STS: usize = 0x1c;
pub const GENBITS_VLD: usize = 0x20;
pub const GENBITS: usize = 0x24;
pub const HW_EXC_STS: usize = 0x30;

/// Bits of the registers above.
pub const CTRL_ENABLE: u32 = 0x1;
pub const SW_CMD_STS_CMD_RDY: u32 = 0x1;
pub const GENBITS_VLD_VALID: u32 = 0x1;

/// The most command-data words a command carries.
pub const MAX_SEED_WORDS: usize = 12;

/// The engine's register window.
pub struct CsrngRegisters;

/// Application commands.
#[derive(PartialEq, Eq, Structural, Clone, Copy, Debug)]
pub enum CsrngCMD {
    Instantiate,
    Reseed,
    Generate,
    Update,
    Uninstantiate,
}

pub open spec fn command_code(c: CsrngCMD) -> u32 {
    match c {
        CsrngCMD::Instantiate => 1,
        CsrngCMD::Reseed => 2,
        CsrngCMD::Generate => 3,
        CsrngCMD::Update => 4,
        CsrngCMD::Uninstantiate => 5,
    }
}

impl CsrngCMD {
    /// The command's code in a header.
    pub fn code(&self) -> (r: u32)
        ensures
            r == command_code(*self),
    {
        match self {
            CsrngCMD::Instantiate => 1,
            CsrngCMD::Reseed => 2,
            CsrngCMD::Generate => 3,
            CsrngCMD::Update => 4,
            CsrngCMD::Uninstantiate => 5,
        }
    }
}

/// A command header: code, command length in bits 7:4, flags, generate
/// length in bits 23:12.
pub open spec fn header_spec(acmd: CsrngCMD, clen: u32, flags: u32, glen: u32) -> u32 {
    command_code(acmd) | ((clen & 0xf) << 4u32) | flags | ((glen & 0xfff) << 12u32)
}

/// The header of an application command; `clen` counts the command-data
/// words that follow (at most 12) and `glen` the 128-bit blocks asked for
/// (at most 4096).
pub fn generate_header(acmd: CsrngCMD, clen: u32, flags: u32, glen: u32) -> (r: u32)
    requires
        clen <= 12,
        glen <= 4096,
    ensures
        r == header_spec(acmd, clen, flags, glen),
{
    acmd.code() | ((clen & 0xf) << 4u32) | flags | ((glen & 0xfff) << 12u32)
}

/// One word sent to the command interface, once it is ready.
pub open spec fn send_word(w: u32) -> Seq<BusOp> {
    seq![BusOp::WaitSet { offset: SW_CMD_STS, mask: SW_CMD_STS_CMD_RDY }, BusOp::Write { offset: CMD_REQ, value: w }]
}

pub open spec fn send_words(ws: Seq<u32>) -> Seq<BusOp>
    decreases ws.len(),
{
    if ws.len() == 0 {
        Seq::empty()
    } else {
        send_words(ws.drop_last()) + send_word(ws.last())
    }
}

/// The seed words that are used: at most the first twelve.
pub open spec fn seed_used(seed: Seq<u32>) -> Seq<u32> {
    if seed.len() < 12 {
        seed
    } else {
        seed.take(12)
    }
}

/// Configuration: enable, clear the exception status, uninstantiate, then
/// instantiate with the seed's first twelve words at most (flag bit 8), or
/// with none.
pub open spec fn configure_plan(seed: Option<Seq<u32>>) -> Seq<BusOp> {
    seq![BusOp::Write { offset: CTRL, value: CTRL_ENABLE }, BusOp::Write { offset: HW_EXC_STS, value: 0 }]
        + send_word(header_spec(CsrngCMD::Uninstantiate, 0, 0, 0)) + match seed {
        Some(s) => send_word(header_spec(CsrngCMD::Instantiate, seed_used(s).len() as u32, 0x100, 0)) + send_words(seed_used(s)),
        None => send_word(header_spec(CsrngCMD::Instantiate, 0, 0, 0)),
    }
}

/// Generation of one block: ask for it, wait until it is valid, read its
/// four words from the output register into slots 0 to 3.
pub open spec fn generate_plan() -> Seq<BusOp> {
    send_word(header_spec(CsrngCMD::Generate, 0, 0, 1)) + seq![BusOp::WaitSet { offset: GENBITS_VLD, mask: GENBITS_VLD_VALID }]
        + reads_spec(GENBITS, 0, 0, 4)
}

/// The operations of the engine, as plans.
pub trait CsrngRaw {
    fn configure(&self, seed: Option<&[u32]>) -> (r: Vec<BusOp>)
        ensures
            r@ == configure_plan(
                match seed {
                    Some(s) => Some(s@),
                    None => None,
                },
            ),
    ;

    /// The block's four words are read into slots 0 to 3.
    fn generate(&self) -> (r: Vec<BusOp>)
        ensures
            r@ == generate_plan(),
    ;
}

impl CsrngRegisters {
    /// Appends one word for the command interface, sent once it is ready.
    fn _send_cmd_data(ops: &mut Vec<BusOp>, data: u32)
        ensures
            final(ops)@ == old(ops)@ + send_word(data),
    {
        ops.push(BusOp::WaitSet { offset: SW_CMD_STS, mask: SW_CMD_STS_CMD_RDY });
        ops.push(BusOp::Write { offset: CMD_REQ, value: data });
        assert(final(ops)@ =~= old(ops)@ + send_word(data));
    }
}

impl CsrngRaw for CsrngRegisters {
    fn configure(&self, seed: Option<&[u32]>) -> (r: Vec<BusOp>) {
        let mut ops: Vec<BusOp> = Vec::new();
        ops.push(BusOp::Write { offset: CTRL, value: CTRL_ENABLE });
        ops.push(BusOp::Write { offset: HW_EXC_STS, value: 0 });
        let header = generate_header(CsrngCMD::Uninstantiate, 0, 0, 0);
        CsrngRegisters::_send_cmd_data(&mut ops, header);
        match seed {
            Some(seed) => {
                let seed_len: usize = if seed.len() < MAX_SEED_WORDS {
                    seed.len()
                } else {
                    MAX_SEED_WORDS
                };
                let header = generate_header(CsrngCMD::Instantiate, seed_len as u32, 1u32 << 8u32, 0);
                CsrngRegisters::_send_cmd_data(&mut ops, header);
                let ghost used = seed_used(seed@);
                assert(used.len() == seed_len);
                let ghost mid = ops@;
                let mut i: usize = 0;
                assert(used.take(0) =~= Seq::<u32>::empty());
                while i < seed_len
                    invariant
                        i <= seed_len,
                        seed_len == used.len(),
                        used == seed_used(seed@),
                        seed_len <= seed@.len(),
                        ops@ == mid + send_words(used.take(i as int)),
                    decreases seed_len - i,
                {
                    CsrngRegisters::_send_cmd_data(&mut ops, seed[i]);
                    assert(used.take(i + 1).drop_last() =~= used.take(i as int));
                    assert(ops@ =~= mid + send_words(used.take(i + 1)));
                    i = i + 1;
                }
                assert(used.take(seed_len as int) =~= used);
                assert(1u32 << 8u32 == 0x100) by (bit_vector);
                assert(ops@ =~= configure_plan(Some(seed@)));
            },
            None => {
                let header = generate_header(CsrngCMD::Instantiate, 0, 0, 0);
                CsrngRegisters::_send_cmd_data(&mut ops, header);
                assert(ops@ =~= configure_plan(None));
            },
        }
        ops
    }

    fn generate(&self) -> (r: Vec<BusOp>) {
        let mut ops: Vec<BusOp> = Vec::new();
        let header = generate_header(CsrngCMD::Generate, 0, 0, 1);
        CsrngRegisters::_send_cmd_data(&mut ops, header);
        ops.push(BusOp::WaitSet { offset: GENBITS_VLD, mask: GENBITS_VLD_VALID });
        push_reads(&mut ops, GENBITS, 0, 0, 4);
        assert(ops@ =~= generate_plan());
        ops
    }
}

/// The engine's driver interface above the raw plans.
pub trait Csrng {}

} // verus!
