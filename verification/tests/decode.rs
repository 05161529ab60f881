//! Decoder checks over representative opcode bytes.

use rust6502::cpu::opcodes::{AddressingMode, Instruction, Opcode};

#[test]
fn documented_opcodes_decode() {
    let cases: Vec<(u8, Opcode, AddressingMode)> = vec![
        (0xa9, Opcode::LDA, AddressingMode::Imm),
        (0xad, Opcode::LDA, AddressingMode::Abs),
        (0xbd, Opcode::LDA, AddressingMode::AbsX),
        (0xb9, Opcode::LDA, AddressingMode::AbsY),
        (0xa5, Opcode::LDA, AddressingMode::Zpg),
        (0xb5, Opcode::LDA, AddressingMode::ZpgX),
        (0xa1, Opcode::LDA, AddressingMode::XInd),
        (0xb1, Opcode::LDA, AddressingMode::IndY),
        (0xa2, Opcode::LDX, AddressingMode::Imm),
        (0xb6, Opcode::LDX, AddressingMode::ZpgY),
        (0x8d, Opcode::STA, AddressingMode::Abs),
        (0x86, Opcode::STX, AddressingMode::Zpg),
        (0x4c, Opcode::JMP, AddressingMode::Abs),
        (0x6c, Opcode::JMP, AddressingMode::Ind),
        (0x20, Opcode::JSR, AddressingMode::Abs),
        (0x60, Opcode::RTS, AddressingMode::Impl),
        (0x40, Opcode::RTI, AddressingMode::Impl),
        (0x10, Opcode::BPL, AddressingMode::Rel),
        (0x30, Opcode::BMI, AddressingMode::Rel),
        (0x50, Opcode::BVC, AddressingMode::Rel),
        (0x70, Opcode::BVS, AddressingMode::Rel),
        (0x90, Opcode::BCC, AddressingMode::Rel),
        (0xb0, Opcode::BCS, AddressingMode::Rel),
        (0xd0, Opcode::BNE, AddressingMode::Rel),
        (0xf0, Opcode::BEQ, AddressingMode::Rel),
        (0x0a, Opcode::ASL, AddressingMode::Acc),
        (0x06, Opcode::ASL, AddressingMode::Zpg),
        (0x4a, Opcode::LSR, AddressingMode::Acc),
        (0x2a, Opcode::ROL, AddressingMode::Acc),
        (0x6a, Opcode::ROR, AddressingMode::Acc),
        (0xc6, Opcode::DEC, AddressingMode::Zpg),
        (0xee, Opcode::INC, AddressingMode::Abs),
        (0xe8, Opcode::INX, AddressingMode::Impl),
        (0x88, Opcode::DEY, AddressingMode::Impl),
        (0x69, Opcode::ADC, AddressingMode::Imm),
        (0xe9, Opcode::SBC, AddressingMode::Imm),
        (0xc9, Opcode::CMP, AddressingMode::Imm),
        (0xe0, Opcode::CPX, AddressingMode::Imm),
        (0xc0, Opcode::CPY, AddressingMode::Imm),
        (0x24, Opcode::BIT, AddressingMode::Zpg),
        (0x08, Opcode::PHP, AddressingMode::Impl),
        (0x28, Opcode::PLP, AddressingMode::Impl),
        (0x48, Opcode::PHA, AddressingMode::Impl),
        (0x68, Opcode::PLA, AddressingMode::Impl),
        (0x18, Opcode::CLC, AddressingMode::Impl),
        (0x38, Opcode::SEC, AddressingMode::Impl),
        (0x58, Opcode::CLI, AddressingMode::Impl),
        (0x78, Opcode::SEI, AddressingMode::Impl),
        (0xb8, Opcode::CLV, AddressingMode::Impl),
        (0xd8, Opcode::CLD, AddressingMode::Impl),
        (0xf8, Opcode::SED, AddressingMode::Impl),
        (0xaa, Opcode::TAX, AddressingMode::Impl),
        (0xa8, Opcode::TAY, AddressingMode::Impl),
        (0x8a, Opcode::TXA, AddressingMode::Impl),
        (0x98, Opcode::TYA, AddressingMode::Impl),
        (0x9a, Opcode::TXS, AddressingMode::Impl),
        (0xba, Opcode::TSX, AddressingMode::Impl),
        (0xea, Opcode::NOP, AddressingMode::Impl),
    ];
    for (b, op, mode) in cases {
        let i = Instruction::from_byte(b);
        assert_eq!(i.opcode, op, "opcode of {:#04x}", b);
        assert_eq!(i.mode, mode, "mode of {:#04x}", b);
        assert_eq!(i.cycles, 7);
    }
}

#[test]
fn undocumented_opcodes_decode() {
    let cases: Vec<(u8, Opcode, AddressingMode)> = vec![
        (0x0b, Opcode::ANC, AddressingMode::Imm),
        (0x2b, Opcode::ANC2, AddressingMode::Imm),
        (0x4b, Opcode::ALR, AddressingMode::Imm),
        (0x6b, Opcode::ARR, AddressingMode::Imm),
        (0x8b, Opcode::ANE, AddressingMode::Imm),
        (0xab, Opcode::LXA, AddressingMode::Imm),
        (0xcb, Opcode::SBX, AddressingMode::Imm),
        (0xeb, Opcode::USBC, AddressingMode::Imm),
        (0x07, Opcode::SLO, AddressingMode::Zpg),
        (0x27, Opcode::RLA, AddressingMode::Zpg),
        (0x47, Opcode::SRE, AddressingMode::Zpg),
        (0x67, Opcode::RRA, AddressingMode::Zpg),
        (0x87, Opcode::SAX, AddressingMode::Zpg),
        (0x97, Opcode::SAX, AddressingMode::ZpgY),
        (0xa7, Opcode::LAX, AddressingMode::Zpg),
        (0xbf, Opcode::LAX, AddressingMode::AbsY),
        (0xc7, Opcode::DCP, AddressingMode::Zpg),
        (0xe7, Opcode::ISC, AddressingMode::Zpg),
        (0x93, Opcode::SHA, AddressingMode::IndY),
        (0x9f, Opcode::SHA, AddressingMode::AbsY),
        (0x9e, Opcode::SHX, AddressingMode::AbsY),
        (0x9c, Opcode::SHY, AddressingMode::AbsX),
        (0x9b, Opcode::TAS, AddressingMode::AbsY),
        (0xbb, Opcode::LAS, AddressingMode::AbsY),
        (0x02, Opcode::JAM, AddressingMode::Impl),
        (0x92, Opcode::JAM, AddressingMode::Impl),
        (0x04, Opcode::NOP, AddressingMode::Zpg),
        (0x1c, Opcode::NOP, AddressingMode::AbsX),
        (0x80, Opcode::NOP, AddressingMode::Imm),
    ];
    for (b, op, mode) in cases {
        let i = Instruction::from_byte(b);
        assert_eq!(i.opcode, op, "opcode of {:#04x}", b);
        assert_eq!(i.mode, mode, "mode of {:#04x}", b);
    }
}
