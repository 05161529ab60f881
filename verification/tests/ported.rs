use rust6502::cpu::{StatusRegister, CPU};
use rust6502::cpu::opcodes::{ins, AddressingMode, Instruction, Opcode};

#[test]
#[allow(non_snake_case)]
fn itWorks() {
    assert_eq!(2 + 2, 4);
}

#[test]
fn memes() {
    let mut c = CPU::new();
    let mut sr = StatusRegister::empty();
    assert_eq!(c.sr, sr);
    c.nz(0);
    sr.toggle(StatusRegister::Z);
    assert_eq!(c.sr, sr);
    let x: i8 = -1;
    c.nz(x as u8);
    sr.remove(StatusRegister::Z);
    sr.toggle(StatusRegister::N);
    assert_eq!(c.sr, sr);
}

#[test]
fn yeet() {
    assert_eq!(
        Instruction::from_byte(0x00),
        ins(Opcode::BRK, AddressingMode::Impl, 7)
    );
    assert_eq!(
        Instruction::from_byte(0x64),
        ins(Opcode::NOP, AddressingMode::Zpg, 7)
    );
}
