use opentitan_hal::addresses::{addresses, parse_addr, AddressEntry};
use opentitan_hal::description::{ModuleDescription, TopDescription};
use opentitan_hal::numbers::{extract_end, extract_start, parse_hex, parse_usize};
use opentitan_hal::sanitize::{replace_text, sanitize};
use opentitan_hal::text::str_eq;

#[test]
fn decimal_numbers() {
    assert_eq!(parse_usize("42", 10), Some(42));
    assert_eq!(parse_usize("+7", 10), Some(7));
    assert_eq!(parse_usize("007", 10), Some(7));
    assert_eq!(parse_usize("", 10), None);
    assert_eq!(parse_usize("+", 10), None);
    assert_eq!(parse_usize("-1", 10), None);
    assert_eq!(parse_usize("12a", 10), None);
    assert_eq!(parse_usize(&usize::MAX.to_string(), 10), Some(usize::MAX));
    assert_eq!(parse_usize("99999999999999999999999", 10), None);
}

#[test]
fn hexadecimal_numbers() {
    assert_eq!(parse_hex("0x1f"), Some(31));
    assert_eq!(parse_hex("1F"), Some(31));
    assert_eq!(parse_hex("0x0x10"), Some(16));
    assert_eq!(parse_hex("0x"), None);
    assert_eq!(parse_hex("zz"), None);
    assert_eq!(parse_usize("ff", 16), Some(255));
}

#[test]
fn bit_ranges() {
    assert_eq!(extract_start("7:4"), Some(4));
    assert_eq!(extract_end("7:4"), Some(7));
    assert_eq!(extract_start("3"), Some(3));
    assert_eq!(extract_end("3"), Some(3));
    assert_eq!(extract_end("a:1"), None);
    assert_eq!(extract_start("5:"), None);
}

#[test]
fn base_addresses() {
    assert_eq!(parse_addr(&Some("0x40000000".to_string())), Some(0x4000_0000));
    assert_eq!(parse_addr(&None), None);
    assert_eq!(parse_addr(&Some("nope".to_string())), None);
}

#[test]
fn address_table() {
    let top = TopDescription {
        module: vec![
            ModuleDescription { name: "uart0".to_string(), base_addr: Some("0x40000000".to_string()) },
            ModuleDescription { name: "rom".to_string(), base_addr: None },
            ModuleDescription { name: "bad".to_string(), base_addr: Some("0xq".to_string()) },
            ModuleDescription { name: "Aes".to_string(), base_addr: Some("0x41100000".to_string()) },
        ],
    };
    assert_eq!(
        addresses(&top),
        vec![
            AddressEntry { name: "UART0".to_string(), address: 0x4000_0000 },
            AddressEntry { name: "AES".to_string(), address: 0x4110_0000 },
        ]
    );
}

#[test]
fn sanitizes_description_text() {
    let t = sanitize("desc: '''one line''', loop\nx: '''a'''".to_string());
    assert_eq!(t, "desc: '''one line\n''', looping\nx: '''a'''");
    assert_eq!(sanitize(String::new()), "");
    assert_eq!(sanitize("loops".to_string()), "loopings");
}

#[test]
fn replaces_text() {
    assert_eq!(replace_text("aaa", "aa", "b"), "ba");
    assert_eq!(replace_text("abc", "x", "y"), "abc");
}

#[test]
fn text_equality() {
    assert!(str_eq("rw", "rw"));
    assert!(!str_eq("rw", "ro"));
    assert!(!str_eq("rw", "rw1c"));
}
