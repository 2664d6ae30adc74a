//! Block-cipher engine: configuration with the shadowed double write, the
//! pipelined block loop, and clearing of key and data registers.
use vstd::prelude::*;
use crate::bus::{push_reads, push_writes, reads_spec, writes_spec, BusOp};

verus! {

/// Byte offsets of the engine's registers.
pub const KEY_SHARE0: usize = 0x04;
pub const KEY_SHARE1: usize = 0x24;
pub const IV: usize = 0x44;
pub const DATA_IN: usize = 0x54;
pub const DATA_OUT: usize = 0x64;
pub const CTRL_SHADOWED: usize = 0x74;
pub const TRIGGER: usize = 0x80;
pub const STATUS: usize = 0x84;

/// Status bits.
pub const STATUS_IDLE: u32 = 0x1;
pub const STATUS_OUTPUT_VALID: u32 = 0x8;
pub const STATUS_INPUT_READY: u32 = 0x10;

/// Control bits that are no mode, operation or key length.
pub const CTRL_MANUAL_OPERATION: u32 = 0x8000;

/// Trigger bits.
pub const TRIGGER_KEY_IV_DATA_IN_CLEAR: u32 = 0x2;
pub const TRIGGER_DATA_OUT_CLEAR: u32 = 0x4;

/// The engine's register window.
pub struct AesRegisters;

/// Whether a block is encrypted or decrypted.
#[derive(PartialEq, Eq, Structural, Clone, Copy, Debug)]
pub enum Operation {
    Encrypt,
    Decrypt,
}

/// The block-cipher mode; CBC and CTR carry an initialization vector of four
/// little-endian words.
#[derive(Clone, Copy, Debug)]
pub enum Mode {
    ECB,
    CBC { iv: [u32; 4] },
    CFB,
    OFB,
    CTR { iv: [u32; 4] },
}

/// The key length.
#[derive(PartialEq, Eq, Structural, Clone, Copy, Debug)]
pub enum KeyLength {
    Aes128,
    Aes192,
    Aes256,
}

pub open spec fn operation_bits(o: Operation) -> u32 {
    match o {
        Operation::Encrypt => 0x1,
        Operation::Decrypt => 0x2,
    }
}

pub open spec fn mode_bits(m: Mode) -> u32 {
    match m {
        Mode::ECB => 0x4,
        Mode::CBC { .. } => 0x8,
        Mode::CFB => 0x10,
        Mode::OFB => 0x20,
        Mode::CTR { .. } => 0x40,
    }
}

pub open spec fn key_length_bits(k: KeyLength) -> u32 {
    match k {
        KeyLength::Aes128 => 0x100,
        KeyLength::Aes192 => 0x200,
        KeyLength::Aes256 => 0x400,
    }
}

impl Operation {
    /// The operation field of the control register.
    pub fn reg_val(&self) -> (r: u32)
        ensures
            r == operation_bits(*self),
    {
        match self {
            Operation::Encrypt => 0x1,
            Operation::Decrypt => 0x2,
        }
    }
}

impl Mode {
    /// The mode field of the control register.
    pub fn reg_val(&self) -> (r: u32)
        ensures
            r == mode_bits(*self),
    {
        match self {
            Mode::ECB => 0x4,
            Mode::CBC { .. } => 0x8,
            Mode::CFB => 0x10,
            Mode::OFB => 0x20,
            Mode::CTR { .. } => 0x40,
        }
    }
}

impl KeyLength {
    /// The key-length field of the control register.
    pub fn length(&self) -> (r: u32)
        ensures
            r == key_length_bits(*self),
    {
        match self {
            KeyLength::Aes128 => 0x100,
            KeyLength::Aes192 => 0x200,
            KeyLength::Aes256 => 0x400,
        }
    }
}

/// The control word of a configuration.
pub open spec fn ctrl_value(mode: Mode, operation: Operation, key_length: KeyLength) -> u32 {
    key_length_bits(key_length) | operation_bits(operation) | mode_bits(mode)
}

/// The two key shares, word by word: word `i` of share 0, then of share 1.
pub open spec fn key_writes(k0: Seq<u32>, k1: Seq<u32>, n: int) -> Seq<BusOp>
    decreases n,
{
    if n <= 0 {
        Seq::empty()
    } else {
        key_writes(k0, k1, n - 1) + seq![
            BusOp::Write { offset: (KEY_SHARE0 + 4 * (n - 1)) as usize, value: k0[n - 1] },
            BusOp::Write { offset: (KEY_SHARE1 + 4 * (n - 1)) as usize, value: k1[n - 1] },
        ]
    }
}

/// The initialization vector writes of a mode that has one.
pub open spec fn iv_writes(mode: Mode) -> Seq<BusOp> {
    match mode {
        Mode::CBC { iv } => writes_spec(IV, 4, iv@, 0, 4),
        Mode::CTR { iv } => writes_spec(IV, 4, iv@, 0, 4),
        _ => Seq::empty(),
    }
}

/// Configuration: wait for idle, write the control word twice (the register
/// is shadowed and takes a value only on two equal writes), write both key
/// shares, wait for idle again, then write the initialization vector, if any.
pub open spec fn configure_plan(
    mode: Mode,
    operation: Operation,
    key_length: KeyLength,
    k0: Seq<u32>,
    k1: Seq<u32>,
) -> Seq<BusOp> {
    let c = ctrl_value(mode, operation, key_length);
    seq![
        BusOp::WaitSet { offset: STATUS, mask: STATUS_IDLE },
        BusOp::Write { offset: CTRL_SHADOWED, value: c },
        BusOp::Write { offset: CTRL_SHADOWED, value: c },
    ] + key_writes(k0, k1, 8) + seq![BusOp::WaitSet { offset: STATUS, mask: STATUS_IDLE }] + iv_writes(mode)
}

/// Round `b` of the pipelined loop over `n` blocks: in round 1 wait until
/// input is accepted; from round 2 on wait for output and drain block `b - 2`;
/// in rounds before `n` feed block `b`.
pub open spec fn execute_round(input: Seq<u32>, n: int, b: int) -> Seq<BusOp> {
    (if b == 1 {
        seq![BusOp::WaitSet { offset: STATUS, mask: STATUS_INPUT_READY }]
    } else {
        Seq::empty()
    }) + (if b > 1 {
        seq![BusOp::WaitSet { offset: STATUS, mask: STATUS_OUTPUT_VALID }] + reads_spec(DATA_OUT, 4, (b - 2) * 4, 4)
    } else {
        Seq::empty()
    }) + (if b < n {
        writes_spec(DATA_IN, 4, input, b * 4, 4)
    } else {
        Seq::empty()
    })
}

/// The first `k` rounds of the pipelined loop.
pub open spec fn execute_rounds(input: Seq<u32>, n: int, k: int) -> Seq<BusOp>
    decreases k,
{
    if k <= 0 {
        Seq::empty()
    } else {
        execute_rounds(input, n, k - 1) + execute_round(input, n, k - 1)
    }
}

/// Processing of `input`, whole blocks of four words: `n + 2` rounds for `n`
/// blocks, so that feeding one block overlaps with draining the one before.
pub open spec fn execute_plan(input: Seq<u32>) -> Seq<BusOp> {
    execute_rounds(input, input.len() as int / 4, input.len() as int / 4 + 2)
}

/// Clearing: force manual operation through the shadowed double write,
/// trigger clearing of key, IV and data registers, wait for idle.
pub open spec fn deinitialize_plan() -> Seq<BusOp> {
    seq![
        BusOp::Write { offset: CTRL_SHADOWED, value: CTRL_MANUAL_OPERATION },
        BusOp::Write { offset: CTRL_SHADOWED, value: CTRL_MANUAL_OPERATION },
        BusOp::Write { offset: TRIGGER, value: TRIGGER_KEY_IV_DATA_IN_CLEAR | TRIGGER_DATA_OUT_CLEAR },
        BusOp::WaitSet { offset: STATUS, mask: STATUS_IDLE },
    ]
}

/// The operations of the engine, as plans.
pub trait AesRaw {
    fn configure(
        &self,
        mode: Mode,
        operation: Operation,
        key_length: KeyLength,
        key_share0: &[u32; 8],
        key_share1: &[u32; 8],
    ) -> (r: Vec<BusOp>)
        ensures
            r@ == configure_plan(mode, operation, key_length, key_share0@, key_share1@),
    ;

    /// Output block `i` is read into words `4 * i .. 4 * i + 4` of a buffer
    /// as long as the input.
    fn execute(&self, input: &[u32]) -> (r: Vec<BusOp>)
        requires
            input@.len() % 4 == 0,
        ensures
            r@ == execute_plan(input@),
    ;

    fn deinitialize(&self) -> (r: Vec<BusOp>)
        ensures
            r@ == deinitialize_plan(),
    ;
}

/// Appends one round of the pipelined loop.
fn push_round(ops: &mut Vec<BusOp>, input: &[u32], n: usize, b: usize)
    requires
        n * 4 == input.len(),
        b < n + 2,
    ensures
        final(ops)@ == old(ops)@ + execute_round(input@, n as int, b as int),
{
    let ghost start = ops@;
    if b == 1 {
        ops.push(BusOp::WaitSet { offset: STATUS, mask: STATUS_INPUT_READY });
    }
    if b > 1 {
        ops.push(BusOp::WaitSet { offset: STATUS, mask: STATUS_OUTPUT_VALID });
        push_reads(ops, DATA_OUT, 4, (b - 2) * 4, 4);
    }
    if b < n {
        push_writes(ops, DATA_IN, 4, input, b * 4, 4);
    }
    assert(ops@ =~= start + execute_round(input@, n as int, b as int));
}

impl AesRaw for AesRegisters {
    fn configure(
        &self,
        mode: Mode,
        operation: Operation,
        key_length: KeyLength,
        key_share0: &[u32; 8],
        key_share1: &[u32; 8],
    ) -> (r: Vec<BusOp>) {
        let mut ops: Vec<BusOp> = Vec::new();
        let ctrl = key_length.length() | operation.reg_val() | mode.reg_val();
        ops.push(BusOp::WaitSet { offset: STATUS, mask: STATUS_IDLE });
        ops.push(BusOp::Write { offset: CTRL_SHADOWED, value: ctrl });
        ops.push(BusOp::Write { offset: CTRL_SHADOWED, value: ctrl });
        let ghost head = ops@;
        let mut i: usize = 0;
        while i < 8
            invariant
                i <= 8,
                ops@ == head + key_writes(key_share0@, key_share1@, i as int),
            decreases 8 - i,
        {
            ops.push(BusOp::Write { offset: KEY_SHARE0 + 4 * i, value: key_share0[i] });
            ops.push(BusOp::Write { offset: KEY_SHARE1 + 4 * i, value: key_share1[i] });
            assert(ops@ =~= head + key_writes(key_share0@, key_share1@, i + 1));
            i = i + 1;
        }
        ops.push(BusOp::WaitSet { offset: STATUS, mask: STATUS_IDLE });
        match mode {
            Mode::CBC { iv } => push_writes(&mut ops, IV, 4, iv.as_slice(), 0, 4),
            Mode::CTR { iv } => push_writes(&mut ops, IV, 4, iv.as_slice(), 0, 4),
            _ => {},
        }
        assert(ops@ =~= configure_plan(mode, operation, key_length, key_share0@, key_share1@));
        ops
    }

    fn execute(&self, input: &[u32]) -> (r: Vec<BusOp>) {
        let n = input.len() / 4;
        let mut ops: Vec<BusOp> = Vec::new();
        let mut b: usize = 0;
        while b < n + 2
            invariant
                n * 4 == input.len(),
                n == input@.len() / 4,
                b <= n + 2,
                ops@ == execute_rounds(input@, n as int, b as int),
            decreases n + 2 - b,
        {
            push_round(&mut ops, input, n, b);
            b = b + 1;
        }
        ops
    }

    fn deinitialize(&self) -> (r: Vec<BusOp>) {
        let mut ops: Vec<BusOp> = Vec::new();
        ops.push(BusOp::Write { offset: CTRL_SHADOWED, value: CTRL_MANUAL_OPERATION });
        ops.push(BusOp::Write { offset: CTRL_SHADOWED, value: CTRL_MANUAL_OPERATION });
        ops.push(BusOp::Write { offset: TRIGGER, value: TRIGGER_KEY_IV_DATA_IN_CLEAR | TRIGGER_DATA_OUT_CLEAR });
        ops.push(BusOp::WaitSet { offset: STATUS, mask: STATUS_IDLE });
        assert(ops@ =~= deinitialize_plan());
        ops
    }
}

/// The engine's driver interface above the raw plans.
pub trait Aes {}

} // verus!
