//! Exact-value checks of the arithmetic and logic unit.

use rust6502::cpu::{StatusRegister, CPU};

fn cpu_with(ac: u8, sr: u8) -> CPU {
    let mut c = CPU::new();
    c.ac = ac;
    c.sr.bits = sr;
    c
}

#[test]
fn adc_binary_sum_and_carry() {
    // 0x50 + 0x50 overflows the signed range: V set, C clear.
    let mut c = cpu_with(0x50, 0x00);
    c.adc(0x50);
    assert_eq!(c.ac, 0xa0);
    assert_eq!(c.sr.bits & 0x01, 0x00, "no carry out");
    assert_eq!(c.sr.bits & 0x40, 0x40, "signed overflow");
    assert_eq!(c.sr.bits & 0x80, 0x80, "negative result");

    // 0xFF + 0x01 wraps to zero with carry out.
    let mut c = cpu_with(0xff, 0x00);
    c.adc(0x01);
    assert_eq!(c.ac, 0x00);
    assert_eq!(c.sr.bits & 0x01, 0x01, "carry out");
    assert_eq!(c.sr.bits & 0x02, 0x02, "zero result");
    assert_eq!(c.sr.bits & 0x40, 0x00, "no signed overflow");

    // The carry in is added: 0x10 + 0x20 + 1.
    let mut c = cpu_with(0x10, 0x01);
    c.adc(0x20);
    assert_eq!(c.ac, 0x31);
    assert_eq!(c.sr.bits & 0x01, 0x00);
}

#[test]
fn sbc_binary_borrow() {
    // With carry set (no borrow pending): 0x50 - 0x30 = 0x20, carry kept.
    let mut c = cpu_with(0x50, 0x01);
    c.sbc(0x30);
    assert_eq!(c.ac, 0x20);
    assert_eq!(c.sr.bits & 0x01, 0x01, "no borrow occurred");

    // 0x30 - 0x50 borrows: result wraps, carry cleared.
    let mut c = cpu_with(0x30, 0x01);
    c.sbc(0x50);
    assert_eq!(c.ac, 0xe0);
    assert_eq!(c.sr.bits & 0x01, 0x00, "borrow occurred");

    // With carry clear an extra one is subtracted.
    let mut c = cpu_with(0x50, 0x00);
    c.sbc(0x30);
    assert_eq!(c.ac, 0x1f);
}

#[test]
fn adc_decimal_mode() {
    // 0x15 + 0x27 in BCD is 0x42.
    let mut c = cpu_with(0x15, 0x08);
    c.bcd_enabled = true;
    c.adc(0x27);
    assert_eq!(c.ac, 0x42);

    // 0x58 + 0x46 in BCD is 104: result 0x04 with carry out.
    let mut c = cpu_with(0x58, 0x08);
    c.bcd_enabled = true;
    c.adc(0x46);
    assert_eq!(c.ac, 0x04);
    assert_eq!(c.sr.bits & 0x01, 0x01);

    // Decimal mode is ignored while BCD is disabled.
    let mut c = cpu_with(0x15, 0x08);
    c.adc(0x27);
    assert_eq!(c.ac, 0x3c);
}

#[test]
fn sbc_decimal_mode() {
    // 0x42 - 0x15 in BCD is 0x27 (carry set: no borrow pending).
    let mut c = cpu_with(0x42, 0x08 | 0x01);
    c.bcd_enabled = true;
    c.sbc(0x15);
    assert_eq!(c.ac, 0x27);
    assert_eq!(c.sr.bits & 0x01, 0x01);
}

#[test]
fn cmp_sets_carry_when_no_borrow() {
    let mut c = cpu_with(0x40, 0x00);
    c.cmp(0x40, 0x30);
    assert_eq!(c.sr.bits & 0x01, 0x01, "0x40 >= 0x30");
    assert_eq!(c.sr.bits & 0x02, 0x00);
    let mut c = cpu_with(0x40, 0x00);
    c.cmp(0x30, 0x40);
    assert_eq!(c.sr.bits & 0x01, 0x00, "0x30 < 0x40");
    assert_eq!(c.sr.bits & 0x80, 0x80, "difference is negative");
    let mut c = cpu_with(0x40, 0x00);
    c.cmp(0x30, 0x30);
    assert_eq!(c.sr.bits & 0x03, 0x03, "equal: zero and carry");
}

#[test]
fn shifts_and_rotates() {
    let mut c = cpu_with(0, 0x00);
    assert_eq!(c.asl(0x81), 0x02);
    assert_eq!(c.sr.bits & 0x01, 0x01, "bit 7 leaves through carry");

    let mut c = cpu_with(0, 0x00);
    assert_eq!(c.lsr(0x01), 0x00);
    assert_eq!(c.sr.bits & 0x03, 0x03, "bit 0 to carry, result zero");

    let mut c = cpu_with(0, 0x01);
    assert_eq!(c.rol(0x80), 0x01);
    assert_eq!(c.sr.bits & 0x01, 0x01);

    let mut c = cpu_with(0, 0x01);
    assert_eq!(c.ror(0x01), 0x80);
    assert_eq!(c.sr.bits & 0x01, 0x01);
    assert_eq!(c.sr.bits & 0x80, 0x80);
}

#[test]
fn bit_copies_high_flags() {
    let mut c = cpu_with(0x0f, 0x00);
    c.bit(0xc0);
    assert_eq!(c.sr.bits & 0x02, 0x02, "AC & operand is zero");
    assert_eq!(c.sr.bits & 0x80, 0x80, "N copied from operand bit 7");
    assert_eq!(c.sr.bits & 0x40, 0x40, "V copied from operand bit 6");
}

#[test]
fn sbx_works_like_a_compare_on_ac_and_x() {
    let mut c = CPU::new();
    c.ac = 0xf0;
    c.x = 0x0f;
    c.sbx(0x01);
    // (0xF0 & 0x0F) - 1 underflows.
    assert_eq!(c.x, 0xff);
    assert_eq!(c.sr.bits & 0x01, 0x00, "borrow occurred");
}

#[test]
fn status_register_operations() {
    let mut sr = StatusRegister::empty();
    sr.insert(StatusRegister::N | StatusRegister::C);
    assert!(sr.contains(StatusRegister::N));
    assert!(sr.contains(StatusRegister::C));
    assert!(!sr.contains(StatusRegister::Z));
    sr.set(StatusRegister::C, false);
    assert!(!sr.contains(StatusRegister::C));
    sr.toggle(StatusRegister::V);
    assert_eq!(sr.bits, 0x80 | 0x40);
    sr.remove(StatusRegister::N);
    assert_eq!(sr.bits, 0x40);
}
