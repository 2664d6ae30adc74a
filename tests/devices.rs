use opentitan_hal::aes::{AesRaw, AesRegisters, KeyLength, Mode, Operation};
use opentitan_hal::bus::BusOp;
use opentitan_hal::csrng::{generate_header, CsrngCMD, CsrngRaw, CsrngRegisters};
use opentitan_hal::hmac::{HmacRaw, HmacRegisters};
use opentitan_hal::uart::{crlf_bytes, get_panic_uart, get_uart0, rdata_byte, uart_nco, UartRaw, UartRegisters};
use opentitan_hal::synch::Lock;

fn w(offset: usize, value: u32) -> BusOp {
    BusOp::Write { offset, value }
}

fn set(offset: usize, mask: u32) -> BusOp {
    BusOp::WaitSet { offset, mask }
}

fn clear(offset: usize, mask: u32) -> BusOp {
    BusOp::WaitClear { offset, mask }
}

fn rd(offset: usize, slot: usize) -> BusOp {
    BusOp::Read { offset, slot }
}

#[test]
fn aes_field_values() {
    assert_eq!(Operation::Encrypt.reg_val(), 0x1);
    assert_eq!(Operation::Decrypt.reg_val(), 0x2);
    assert_eq!(Mode::ECB.reg_val(), 0x4);
    assert_eq!(Mode::CTR { iv: [0; 4] }.reg_val(), 0x40);
    assert_eq!(KeyLength::Aes256.length(), 0x400);
}

#[test]
fn aes_configure_writes_control_twice() {
    let k0 = [1, 2, 3, 4, 5, 6, 7, 8];
    let k1 = [11, 12, 13, 14, 15, 16, 17, 18];
    let ops = AesRegisters.configure(Mode::CBC { iv: [21, 22, 23, 24] }, Operation::Decrypt, KeyLength::Aes128, &k0, &k1);
    let ctrl = 0x100 | 0x2 | 0x8;
    let mut expected = vec![set(0x84, 1), w(0x74, ctrl), w(0x74, ctrl)];
    for i in 0..8 {
        expected.push(w(0x04 + 4 * i, k0[i]));
        expected.push(w(0x24 + 4 * i, k1[i]));
    }
    expected.push(set(0x84, 1));
    for i in 0..4 {
        expected.push(w(0x44 + 4 * i, 21 + i as u32));
    }
    assert_eq!(ops, expected);
}

#[test]
fn aes_configure_without_iv() {
    let ops = AesRegisters.configure(Mode::ECB, Operation::Encrypt, KeyLength::Aes192, &[0; 8], &[0; 8]);
    assert_eq!(ops.len(), 3 + 16 + 1);
    assert_eq!(ops[1], w(0x74, 0x200 | 0x1 | 0x4));
}

#[test]
fn aes_execute_is_pipelined() {
    let input: Vec<u32> = (1..=8).collect();
    let ops = AesRegisters.execute(&input);
    let mut expected = vec![];
    // round 0: feed block 0
    for i in 0..4 {
        expected.push(w(0x54 + 4 * i, input[i]));
    }
    // round 1: wait for input ready, feed block 1
    expected.push(set(0x84, 0x10));
    for i in 0..4 {
        expected.push(w(0x54 + 4 * i, input[4 + i]));
    }
    // rounds 2 and 3: drain blocks 0 and 1
    for b in 0..2 {
        expected.push(set(0x84, 0x8));
        for i in 0..4 {
            expected.push(rd(0x64 + 4 * i, b * 4 + i));
        }
    }
    assert_eq!(ops, expected);
}

#[test]
fn aes_execute_empty_input() {
    assert_eq!(AesRegisters.execute(&[]), vec![set(0x84, 0x10)]);
}

#[test]
fn aes_deinitialize() {
    assert_eq!(AesRegisters.deinitialize(), vec![w(0x74, 0x8000), w(0x74, 0x8000), w(0x80, 0x6), set(0x84, 1)]);
}

#[test]
fn hmac_hash_plan() {
    let ops = HmacRegisters.hash_data(&[32, 33]);
    let mut expected = vec![w(0x10, 0x2), w(0x14, 0x1)];
    for v in [32, 33] {
        expected.push(clear(0x18, 0x2));
        expected.push(w(0x800, v));
    }
    expected.push(w(0x14, 0x2));
    expected.push(set(0x00, 0x1));
    for i in 0..8 {
        expected.push(rd(0x44 + 4 * i, i));
    }
    assert_eq!(ops, expected);
}

#[test]
fn csrng_command_headers() {
    assert_eq!(generate_header(CsrngCMD::Generate, 0, 0, 1), 0x1003);
    assert_eq!(generate_header(CsrngCMD::Instantiate, 5, 0x100, 0), 1 | 0x50 | 0x100);
    assert_eq!(generate_header(CsrngCMD::Uninstantiate, 0, 0, 0), 5);
    assert_eq!(generate_header(CsrngCMD::Reseed, 12, 0, 4095), 2 | 0xc0 | 0xfff000);
    assert_eq!(generate_header(CsrngCMD::Update, 0, 0, 4096), 4);
}

#[test]
fn csrng_configure_truncates_seed() {
    let seed: Vec<u32> = (100..114).collect();
    let ops = CsrngRegisters.configure(Some(&seed));
    let cmd = |v: u32| vec![set(0x1c, 1), w(0x18, v)];
    let mut expected = vec![w(0x14, 1), w(0x30, 0)];
    expected.extend(cmd(5));
    expected.extend(cmd(1 | (12 << 4) | 0x100));
    for v in &seed[..12] {
        expected.extend(cmd(*v));
    }
    assert_eq!(ops, expected);
}

#[test]
fn csrng_configure_without_seed() {
    let ops = CsrngRegisters.configure(None);
    assert_eq!(ops, vec![w(0x14, 1), w(0x30, 0), set(0x1c, 1), w(0x18, 5), set(0x1c, 1), w(0x18, 1)]);
}

#[test]
fn csrng_generate_plan() {
    let ops = CsrngRegisters.generate();
    assert_eq!(ops, vec![set(0x1c, 1), w(0x18, 0x1003), set(0x20, 1), rd(0x24, 0), rd(0x24, 1), rd(0x24, 2), rd(0x24, 3)]);
}

#[test]
fn uart_baud_divisor() {
    let expected = (((7200u64 << 20) / 125000) & 0xffff) as u32;
    assert_eq!(uart_nco(7200, 125000), expected);
    assert_eq!(uart_nco(7200, 125000), 60397);
    assert_eq!(uart_nco(115200, 125000), ((115200u64 << 20) / 125000 & 0xffff) as u32);
}

#[test]
fn uart_configure_plan() {
    let ops = UartRegisters.configure(None);
    assert_eq!(ops, vec![w(0x10, (60397 << 16) | 0x3), w(0x20, 0x3)]);
    let ops = UartRegisters.configure(Some(1000));
    let nco = ((1000u64 << 20) / 125000) as u32;
    assert_eq!(ops[0], w(0x10, (nco << 16) | 0x3));
}

#[test]
fn uart_try_send_and_receive() {
    assert_eq!(UartRegisters.try_send(0, b'a'), Ok(w(0x1c, 97)));
    assert_eq!(UartRegisters.try_send(0x1, b'a'), Err(()));
    assert_eq!(UartRegisters.try_recieve(0x0), Ok(rd(0x18, 0)));
    assert_eq!(UartRegisters.try_recieve(0x20), Err(()));
    assert_eq!(rdata_byte(0x1234), 0x34);
}

#[test]
fn uart_blocking_plans() {
    assert_eq!(UartRegisters.send_blocking(b"hi"), vec![clear(0x14, 1), w(0x1c, 104), clear(0x14, 1), w(0x1c, 105)]);
    assert_eq!(UartRegisters.recieve_blocking(2), vec![clear(0x14, 0x20), rd(0x18, 0), clear(0x14, 0x20), rd(0x18, 1)]);
    assert_eq!(UartRegisters.flush(), vec![set(0x14, 0x8)]);
}

#[test]
fn line_feeds_become_crlf() {
    assert_eq!(crlf_bytes(b"a\nb\n"), b"a\r\nb\r\n".to_vec());
    assert_eq!(crlf_bytes(b""), Vec::<u8>::new());
}

#[test]
fn uart_handle_takes_and_releases_lock() {
    let mut lock = Lock::new();
    {
        let uart = get_uart0(&mut lock).unwrap();
        let ops = uart.reconfigure(None);
        assert_eq!(ops[0], set(0x14, 0x8));
        assert_eq!(ops.len(), 3);
        assert_eq!(uart.write_str(b"\n"), vec![clear(0x14, 1), w(0x1c, 13), clear(0x14, 1), w(0x1c, 10)]);
    }
    assert!(!lock.is_locked());
    lock.try_lock().unwrap();
    assert!(get_uart0(&mut lock).is_err());
    assert!(lock.is_locked());
    let panic_port = get_panic_uart(&mut lock);
    assert_eq!(panic_port.send_blocking(b"x").len(), 2);
}
