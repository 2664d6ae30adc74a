use opentitan_hal::description::{
    FieldDescription, IPDescription, InterruptDescription, ParamDescription, RegisterDescription,
};
use opentitan_hal::layout::{
    gen_bitfield, gen_interrupt_alert_bitfields, gen_register, parse_count, registers, Access,
    BitField, CompileError, LayoutEntry,
};

fn s(x: &str) -> String {
    x.to_string()
}

fn irq(name: &str) -> InterruptDescription {
    InterruptDescription { name: s(name), desc: s("an event") }
}

fn field(bits: &str, name: Option<&str>) -> FieldDescription {
    FieldDescription { bits: s(bits), name: name.map(s), desc: None }
}

fn plain(name: &str, access: &str, fields: Option<Vec<FieldDescription>>) -> RegisterDescription {
    RegisterDescription::Register { name: s(name), desc: None, swaccess: s(access), fields }
}

fn bf(name: &str, offset: usize, width: usize) -> BitField {
    BitField { name: s(name), offset, width }
}

fn sample() -> IPDescription {
    IPDescription {
        interrupt_list: Some(vec![irq("TxWatermark"), irq("rx_full")]),
        alert_list: vec![irq("fatal_fault")],
        registers: vec![
            plain("CTRL", "rw", Some(vec![field("0", Some("Enable")), field("7:4", None)])),
            plain("status", "ro", None),
            RegisterDescription::Window {
                name: s("Buffer"),
                desc: None,
                swaccess: s("wo"),
                items: s("4"),
                fields: None,
            },
            RegisterDescription::Multireg {
                name: s("key"),
                desc: None,
                swaccess: s("rw1c"),
                count: s("NumKeys"),
                fields: None,
            },
            RegisterDescription::Skipto(s("0x100")),
            plain("data", "wo", Some(vec![])),
        ],
        param_list: Some(vec![ParamDescription { name: s("NumKeys"), default: Some(s("3")) }]),
    }
}

fn rw(offset: usize, name: &str, fields: Option<Vec<BitField>>) -> LayoutEntry {
    LayoutEntry::Register { offset, name: s(name), access: Access::ReadWrite, items: None, fields }
}

#[test]
fn compiles_full_description() {
    let l = registers(&sample()).unwrap();
    let intr = || Some(vec![bf("txwatermark", 0, 1), bf("rx_full", 1, 1)]);
    let expected = vec![
        rw(0, "intr_state", intr()),
        rw(4, "intr_enable", intr()),
        rw(8, "intr_test", intr()),
        rw(12, "alert_test", Some(vec![bf("fatal_fault", 0, 1)])),
        rw(16, "ctrl", Some(vec![bf("enable", 0, 1), bf("data", 4, 4)])),
        LayoutEntry::Register { offset: 20, name: s("status"), access: Access::ReadOnly, items: None, fields: None },
        LayoutEntry::Register { offset: 24, name: s("buffer"), access: Access::WriteOnly, items: Some(4), fields: None },
        LayoutEntry::Register { offset: 40, name: s("key"), access: Access::ReadWrite, items: Some(3), fields: None },
        LayoutEntry::Padding { offset: 52, size: 0x100 - 52 },
        LayoutEntry::Register { offset: 0x100, name: s("data"), access: Access::WriteOnly, items: None, fields: None },
        LayoutEntry::End { offset: 0x104 },
    ];
    assert_eq!(l, expected);
}

#[test]
fn layout_is_deterministic() {
    let d = sample();
    assert_eq!(registers(&d).unwrap(), registers(&d.clone()).unwrap());
}

fn entry_offset(e: &LayoutEntry) -> usize {
    match e {
        LayoutEntry::Register { offset, .. } | LayoutEntry::Padding { offset, .. } | LayoutEntry::End { offset } => *offset,
    }
}

fn entry_size(e: &LayoutEntry) -> usize {
    match e {
        LayoutEntry::Register { items, .. } => 4 * items.unwrap_or(1),
        LayoutEntry::Padding { size, .. } => *size,
        LayoutEntry::End { .. } => 0,
    }
}

#[test]
fn offsets_are_contiguous() {
    let l = registers(&sample()).unwrap();
    for w in l.windows(2) {
        assert_eq!(entry_offset(&w[1]), entry_offset(&w[0]) + entry_size(&w[0]));
    }
    let total: usize = l.iter().map(entry_size).sum();
    assert_eq!(entry_offset(l.last().unwrap()), total);
}

#[test]
fn no_interrupts_starts_with_alert_test() {
    let d = IPDescription {
        interrupt_list: None,
        alert_list: vec![],
        registers: vec![plain("a", "rw0c", None)],
        param_list: None,
    };
    let l = registers(&d).unwrap();
    assert_eq!(
        l,
        vec![
            rw(0, "alert_test", None),
            rw(4, "a", None),
            LayoutEntry::End { offset: 8 },
        ]
    );
}

#[test]
fn empty_register_list() {
    let d = IPDescription { interrupt_list: None, alert_list: vec![], registers: vec![], param_list: None };
    assert_eq!(registers(&d).unwrap(), vec![rw(0, "alert_test", None), LayoutEntry::End { offset: 4 }]);
}

fn with_registers(regs: Vec<RegisterDescription>) -> IPDescription {
    IPDescription { interrupt_list: None, alert_list: vec![], registers: regs, param_list: None }
}

#[test]
fn unknown_access_is_rejected() {
    let d = with_registers(vec![plain("a", "rx", None)]);
    assert_eq!(registers(&d), Err(CompileError::UnknownAccess));
}

#[test]
fn unresolved_count_is_rejected() {
    let m = RegisterDescription::Multireg {
        name: s("k"),
        desc: None,
        swaccess: s("rw"),
        count: s("Missing"),
        fields: None,
    };
    assert_eq!(registers(&with_registers(vec![m])), Err(CompileError::InvalidCount));
    let w = RegisterDescription::Window { name: s("w"), desc: None, swaccess: s("rw"), items: s("x"), fields: None };
    assert_eq!(registers(&with_registers(vec![w])), Err(CompileError::InvalidCount));
}

#[test]
fn count_larger_than_address_space_is_rejected() {
    let w = RegisterDescription::Window {
        name: s("w"),
        desc: None,
        swaccess: s("rw"),
        items: usize::MAX.to_string(),
        fields: None,
    };
    assert_eq!(registers(&with_registers(vec![w])), Err(CompileError::InvalidCount));
}

#[test]
fn backward_skip_is_rejected() {
    let d = with_registers(vec![plain("a", "rw", None), plain("b", "rw", None), RegisterDescription::Skipto(s("0x4"))]);
    assert_eq!(registers(&d), Err(CompileError::InvalidSkipTo));
}

#[test]
fn skip_to_the_cursor_leaves_an_empty_gap() {
    let d = with_registers(vec![RegisterDescription::Skipto(s("0x4")), plain("a", "rw", None)]);
    let l = registers(&d).unwrap();
    assert_eq!(l[1], LayoutEntry::Padding { offset: 4, size: 0 });
    assert_eq!(l[3], LayoutEntry::End { offset: 8 });
}

#[test]
fn malformed_skip_is_rejected() {
    let d = with_registers(vec![RegisterDescription::Skipto(s("0xzz"))]);
    assert_eq!(registers(&d), Err(CompileError::InvalidSkipTo));
}

#[test]
fn overlapping_fields_are_rejected() {
    let d = with_registers(vec![plain("a", "rw", Some(vec![field("3:0", Some("x")), field("4:3", Some("y"))]))]);
    assert_eq!(registers(&d), Err(CompileError::InvalidField));
}

#[test]
fn field_beyond_bit_31_is_rejected() {
    let d = with_registers(vec![plain("a", "rw", Some(vec![field("32", Some("x"))]))]);
    assert_eq!(registers(&d), Err(CompileError::InvalidField));
    let d = with_registers(vec![plain("a", "rw", Some(vec![field("2:5", Some("x"))]))]);
    assert_eq!(registers(&d), Err(CompileError::InvalidField));
}

#[test]
fn bitfield_ranges() {
    let f = Some(vec![field("31:16", Some("Hi")), field("15:0", Some("lo"))]);
    let r = gen_bitfield(&f).unwrap().unwrap();
    assert_eq!(r, vec![bf("hi", 16, 16), bf("lo", 0, 16)]);
    for b in &r {
        assert!(b.width >= 1 && b.offset + b.width <= 32);
    }
    assert_eq!(gen_bitfield(&None), Ok(None));
    assert_eq!(gen_bitfield(&Some(vec![])), Ok(None));
}

#[test]
fn too_many_interrupts_are_rejected() {
    let list: Vec<InterruptDescription> = (0..33).map(|i| irq(&format!("i{}", i))).collect();
    assert_eq!(gen_interrupt_alert_bitfields(&list), Err(CompileError::InvalidField));
    let list: Vec<InterruptDescription> = (0..32).map(|i| irq(&format!("i{}", i))).collect();
    assert_eq!(gen_interrupt_alert_bitfields(&list).unwrap().unwrap()[31], bf("i31", 31, 1));
}

#[test]
fn register_moves_cursor() {
    let mut cursor: usize = 8;
    let e = gen_register(&mut cursor, &plain("A", "ro", None), &None).unwrap();
    assert_eq!(e, LayoutEntry::Register { offset: 8, name: s("a"), access: Access::ReadOnly, items: None, fields: None });
    assert_eq!(cursor, 12);
}

#[test]
fn count_by_literal_or_parameter() {
    let params = Some(vec![
        ParamDescription { name: s("N"), default: Some(s("5")) },
        ParamDescription { name: s("M"), default: None },
        ParamDescription { name: s("N"), default: Some(s("9")) },
    ]);
    assert_eq!(parse_count("7", &params), Some(7));
    assert_eq!(parse_count("N", &params), Some(5));
    assert_eq!(parse_count("M", &params), None);
    assert_eq!(parse_count("Q", &params), None);
    assert_eq!(parse_count("N", &None), None);
}
