//! Serial port: baud-rate divisor, FIFO hand-shakes, line-feed expansion,
//! and the exclusive handle guarded by the port's lock.
use vstd::prelude::*;
use crate::bus::BusOp;
use crate::synch::Lock;

verus! {

/// Byte offsets of the port's registers.
pub const CTRL: usize = 0x10;
pub const STATUS: usize = 0x14;
pub const RDATA: usize = 0x18;
pub const WDATA: usize = 0x1c;
pub const FIFO_CTRL: usize = 0x20;

/// Bits of the registers above.
pub const CTRL_TX: u32 = 0x1;
pub const CTRL_RX: u32 = 0x2;
pub const STATUS_TXFULL: u32 = 0x1;
pub const STATUS_TXIDLE: u32 = 0x8;
pub const STATUS_RXEMPTY: u32 = 0x20;
pub const FIFO_CTRL_RXRST: u32 = 0x1;
pub const FIFO_CTRL_TXRST: u32 = 0x2;

/// The peripheral clock and the default baud rate of the platform.
pub const PERIPHERAL_FREQ: u32 = 125_000;
pub const UART_BAUD_RATE: u32 = 7200;

/// The port's register window.
pub struct UartRegisters;

/// The divisor for `baud` from a peripheral clock of `freq` Hz:
/// `(baud << 20) / freq`, kept to its low 16 bits.
pub open spec fn nco_spec(baud: u32, freq: u32) -> u32 {
    ((((baud as u64) << 20u64) / (freq as u64)) & 0xffff) as u32
}

/// The divisor for `baud` from a peripheral clock of `freq` Hz.
pub fn uart_nco(baud: u32, freq: u32) -> (r: u32)
    requires
        freq > 0,
    ensures
        r == nco_spec(baud, freq),
{
    ((((baud as u64) << 20u64) / (freq as u64)) & 0xffff) as u32
}

/// The control word: the divisor in bits 31:16, receiver and transmitter on.
pub open spec fn ctrl_word(nco: u32) -> u32 {
    ((nco & 0xffff) << 16u32) | CTRL_RX | CTRL_TX
}

/// The baud rate used: the one given, or the platform's default.
pub open spec fn baud_of(baudrate: Option<u32>) -> u32 {
    match baudrate {
        Some(b) => b,
        None => UART_BAUD_RATE,
    }
}

/// Configuration: write the control word for the baud rate, then reset
/// both FIFOs.
pub open spec fn configure_plan(baudrate: Option<u32>) -> Seq<BusOp> {
    seq![
        BusOp::Write { offset: CTRL, value: ctrl_word(nco_spec(baud_of(baudrate), PERIPHERAL_FREQ)) },
        BusOp::Write { offset: FIFO_CTRL, value: FIFO_CTRL_TXRST | FIFO_CTRL_RXRST },
    ]
}

/// Waiting until everything sent has left the transmitter.
pub open spec fn flush_plan() -> Seq<BusOp> {
    seq![BusOp::WaitSet { offset: STATUS, mask: STATUS_TXIDLE }]
}

/// Each byte waits for room in the transmit FIFO, then goes in.
pub open spec fn send_plan(data: Seq<u8>) -> Seq<BusOp>
    decreases data.len(),
{
    if data.len() == 0 {
        Seq::empty()
    } else {
        send_plan(data.drop_last()) + seq![
            BusOp::WaitClear { offset: STATUS, mask: STATUS_TXFULL },
            BusOp::Write { offset: WDATA, value: data.last() as u32 },
        ]
    }
}

/// Each byte waits for the receive FIFO to hold one, then is read into its
/// slot; its low eight bits are the byte.
pub open spec fn receive_plan(n: nat) -> Seq<BusOp>
    decreases n,
{
    if n == 0 {
        Seq::empty()
    } else {
        receive_plan((n - 1) as nat) + seq![
            BusOp::WaitClear { offset: STATUS, mask: STATUS_RXEMPTY },
            BusOp::Read { offset: RDATA, slot: (n - 1) as usize },
        ]
    }
}

/// Text bytes with every line feed preceded by a carriage return.
pub open spec fn crlf(data: Seq<u8>) -> Seq<u8>
    decreases data.len(),
{
    if data.len() == 0 {
        Seq::empty()
    } else if data.last() == 10u8 {
        crlf(data.drop_last()) + seq![13u8, 10u8]
    } else {
        crlf(data.drop_last()).push(data.last())
    }
}

/// The operations of the port, as plans and decisions.
pub trait UartRaw {
    fn configure(&self, baudrate: Option<u32>) -> (r: Vec<BusOp>)
        ensures
            r@ == configure_plan(baudrate),
    ;

    fn send_blocking(&self, data: &[u8]) -> (r: Vec<BusOp>)
        ensures
            r@ == send_plan(data@),
    ;

    /// Byte `i` is read into slot `i`.
    fn recieve_blocking(&self, len: usize) -> (r: Vec<BusOp>)
        ensures
            r@ == receive_plan(len as nat),
    ;

    /// Given the status word: the write that sends `data` when the transmit
    /// FIFO has room, busy otherwise.
    fn try_send(&self, status: u32, data: u8) -> (r: Result<BusOp, ()>)
        ensures
            r == (if status & STATUS_TXFULL == 0 {
                Ok::<BusOp, ()>(BusOp::Write { offset: WDATA, value: data as u32 })
            } else {
                Err(())
            }),
    ;

    /// Given the status word: the read of one byte when the receive FIFO
    /// holds one, busy otherwise.
    fn try_recieve(&self, status: u32) -> (r: Result<BusOp, ()>)
        ensures
            r == (if status & STATUS_RXEMPTY == 0 {
                Ok::<BusOp, ()>(BusOp::Read { offset: RDATA, slot: 0 })
            } else {
                Err(())
            }),
    ;

    fn flush(&self) -> (r: Vec<BusOp>)
        ensures
            r@ == flush_plan(),
    ;
}

impl UartRaw for UartRegisters {
    fn configure(&self, baudrate: Option<u32>) -> (r: Vec<BusOp>) {
        let baud = match baudrate {
            Some(b) => b,
            None => UART_BAUD_RATE,
        };
        let nco = uart_nco(baud, PERIPHERAL_FREQ);
        let mut ops: Vec<BusOp> = Vec::new();
        ops.push(BusOp::Write { offset: CTRL, value: ((nco & 0xffff) << 16u32) | CTRL_RX | CTRL_TX });
        ops.push(BusOp::Write { offset: FIFO_CTRL, value: FIFO_CTRL_TXRST | FIFO_CTRL_RXRST });
        assert(ops@ =~= configure_plan(baudrate));
        ops
    }

    fn send_blocking(&self, data: &[u8]) -> (r: Vec<BusOp>) {
        let mut ops: Vec<BusOp> = Vec::new();
        let mut i: usize = 0;
        assert(data@.take(0) =~= Seq::<u8>::empty());
        while i < data.len()
            invariant
                i <= data@.len(),
                ops@ == send_plan(data@.take(i as int)),
            decreases data@.len() - i,
        {
            ops.push(BusOp::WaitClear { offset: STATUS, mask: STATUS_TXFULL });
            ops.push(BusOp::Write { offset: WDATA, value: data[i] as u32 });
            assert(data@.take(i + 1).drop_last() =~= data@.take(i as int));
            assert(ops@ =~= send_plan(data@.take(i + 1)));
            i = i + 1;
        }
        assert(data@.take(data@.len() as int) =~= data@);
        ops
    }

    fn recieve_blocking(&self, len: usize) -> (r: Vec<BusOp>) {
        let mut ops: Vec<BusOp> = Vec::new();
        let mut i: usize = 0;
        while i < len
            invariant
                i <= len,
                ops@ == receive_plan(i as nat),
            decreases len - i,
        {
            ops.push(BusOp::WaitClear { offset: STATUS, mask: STATUS_RXEMPTY });
            ops.push(BusOp::Read { offset: RDATA, slot: i });
            assert(ops@ =~= receive_plan((i + 1) as nat));
            i = i + 1;
        }
        ops
    }

    fn try_send(&self, status: u32, data: u8) -> (r: Result<BusOp, ()>) {
        if status & STATUS_TXFULL == 0 {
            Ok(BusOp::Write { offset: WDATA, value: data as u32 })
        } else {
            Err(())
        }
    }

    fn try_recieve(&self, status: u32) -> (r: Result<BusOp, ()>) {
        if status & STATUS_RXEMPTY == 0 {
            Ok(BusOp::Read { offset: RDATA, slot: 0 })
        } else {
            Err(())
        }
    }

    fn flush(&self) -> (r: Vec<BusOp>) {
        let mut ops: Vec<BusOp> = Vec::new();
        ops.push(BusOp::WaitSet { offset: STATUS, mask: STATUS_TXIDLE });
        assert(ops@ =~= flush_plan());
        ops
    }
}

/// The byte that a word read from the receive register holds.
pub fn rdata_byte(word: u32) -> (r: u8)
    ensures
        r == (word & 0xff) as u8,
{
    (word & 0xff) as u8
}

/// Text bytes with every line feed turned into carriage return and line feed.
pub fn crlf_bytes(data: &[u8]) -> (r: Vec<u8>)
    ensures
        r@ == crlf(data@),
{
    let mut out: Vec<u8> = Vec::new();
    let mut i: usize = 0;
    assert(data@.take(0) =~= Seq::<u8>::empty());
    while i < data.len()
        invariant
            i <= data@.len(),
            out@ == crlf(data@.take(i as int)),
        decreases data@.len() - i,
    {
        let c = data[i];
        if c == 10u8 {
            out.push(13u8);
        }
        out.push(c);
        assert(data@.take(i + 1).drop_last() =~= data@.take(i as int));
        assert(out@ =~= crlf(data@.take(i + 1)));
        i = i + 1;
    }
    assert(data@.take(data@.len() as int) =~= data@);
    out
}

/// Exclusive use of the port, held while its lock is held; the lock is
/// released when the handle goes out of scope.
pub struct Uart<'a> {
    regs: UartRegisters,
    lock: &'a mut Lock,
}

impl<'a> Uart<'a> {
    /// Whether the port's lock is held while the handle lives.
    pub closed spec fn lock_held(&self) -> bool {
        (*self.lock)@
    }

    fn new(lock: &'a mut Lock) -> (r: Uart<'a>)
        ensures
            r.lock_held() == old(lock)@,
    {
        Uart { regs: UartRegisters, lock }
    }

    /// Waits for the transmitter to drain, then configures the port.
    pub fn reconfigure(&self, baudrate: Option<u32>) -> (r: Vec<BusOp>)
        ensures
            r@ == flush_plan() + configure_plan(baudrate),
    {
        let mut ops = self.regs.flush();
        let mut cfg = self.regs.configure(baudrate);
        ops.append(&mut cfg);
        ops
    }

    pub fn send_blocking(&self, data: &[u8]) -> (r: Vec<BusOp>)
        ensures
            r@ == send_plan(data@),
    {
        self.regs.send_blocking(data)
    }

    /// Byte `i` is read into slot `i`.
    pub fn recieve_blocking(&self, len: usize) -> (r: Vec<BusOp>)
        ensures
            r@ == receive_plan(len as nat),
    {
        self.regs.recieve_blocking(len)
    }

    /// Sending of text, with every line feed preceded by a carriage return.
    pub fn write_str(&self, data: &[u8]) -> (r: Vec<BusOp>)
        ensures
            r@ == send_plan(crlf(data@)),
    {
        let bytes = crlf_bytes(data);
        self.regs.send_blocking(bytes.as_slice())
    }
}

impl<'a> Drop for Uart<'a> {
    fn drop(&mut self)
        opens_invariants none
        no_unwind
    {
        self.lock.release();
    }
}

/// The port, if its lock is free: the lock is then taken. The caller runs
/// `reconfigure(None)` on the handle before use.
pub fn get_uart0<'a>(lock: &'a mut Lock) -> (r: Result<Uart<'a>, ()>)
    ensures
        r is Ok <==> !old(lock)@,
        r matches Ok(u) ==> u.lock_held(),
        r is Err ==> final(lock)@ == old(lock)@,
{
    if lock.try_lock().is_ok() {
        Ok(Uart::new(lock))
    } else {
        Err(())
    }
}

/// The port for last-resort diagnostics, whatever the state of its lock.
pub fn get_panic_uart<'a>(lock: &'a mut Lock) -> (r: Uart<'a>)
    ensures
        r.lock_held() == old(lock)@,
{
    Uart::new(lock)
}

} // verus!
