//! Instruction decoding.
//!
//! Every opcode byte splits as `aaa bbb cc` (bits 7-5, 4-2, 1-0).  The
//! `(cc, bbb, aaa)` triple selects a bus-level addressing class and a memory
//! access direction, and an operation within that group.  The same tables
//! drive both the public [`Instruction::from_byte`] decoder and the
//! per-cycle micro-step machine in the parent module.

use vstd::prelude::*;

verus! {

/// The addressing mode of a decoded instruction, as a programmer names it.
#[derive(Debug, Copy, Clone, Eq, PartialEq, Structural)]
pub enum AddressingMode {
    Acc,
    Abs,
    AbsX,
    AbsY,
    Imm,
    Impl,
    Ind,
    XInd,
    IndY,
    Rel,
    Zpg,
    ZpgX,
    ZpgY,
}

/// The mnemonic of a decoded instruction, documented and undocumented alike.
#[derive(Debug, Copy, Clone, Eq, PartialEq, Structural)]
pub enum Opcode {
    ADC,
    AND,
    ASL,
    BCC,
    BCS,
    BEQ,
    BIT,
    BMI,
    BNE,
    BPL,
    BRK,
    BVC,
    BVS,
    CLC,
    CLD,
    CLI,
    CLV,
    CMP,
    CPX,
    CPY,
    DEC,
    DEX,
    DEY,
    EOR,
    INC,
    INX,
    INY,
    JMP,
    JSR,
    LDA,
    LDX,
    LDY,
    LSR,
    NOP,
    ORA,
    PHA,
    PHP,
    PLA,
    PLP,
    ROL,
    ROR,
    RTI,
    RTS,
    SBC,
    SEC,
    SED,
    SEI,
    STA,
    STX,
    STY,
    TAX,
    TAY,
    TSX,
    TXA,
    TXS,
    TYA,
    ALR,
    ANC,
    ANC2,
    ANE,
    ARR,
    DCP,
    ISC,
    LAS,
    LAX,
    LXA,
    RLA,
    RRA,
    SAX,
    SBX,
    SHA,
    SHX,
    SHY,
    SLO,
    SRE,
    TAS,
    USBC,
    JAM,
}

/// A decoded instruction: its mnemonic, its addressing mode, and the width
/// of the sub-cycle window the dispatch reserves for it (sub-cycle indices
/// run from 0 to `cycles`).
#[derive(Debug, Eq, PartialEq, Structural)]
pub struct Instruction {
    pub opcode: Opcode,
    pub mode: AddressingMode,
    pub cycles: u16,
}

/// Builds an [`Instruction`] from its three parts.
pub fn ins(opcode: Opcode, mode: AddressingMode, cycles: u16) -> (r: Instruction)
    ensures
        r == (Instruction { opcode, mode, cycles }),
{
    Instruction { opcode, mode, cycles }
}

/// The bus-level addressing class of an opcode: how the effective address is
/// formed, cycle by cycle.  `NoOperand` drives the program counter without
/// consuming a byte; `Halt` marks the opcodes that jam the processor.
#[derive(Debug, Copy, Clone, Eq, PartialEq, Structural)]
pub enum AddrClass {
    NoOperand,
    Imm,
    Zp,
    ZpX,
    ZpY,
    Abs,
    AbsX,
    AbsY,
    IndX,
    IndY,
    JmpAbs,
    JmpSub,
    Halt,
}

/// Whether an opcode reads, writes, or read-modify-writes its operand.
/// Read-only accesses may skip the page-cross fixup cycle.
#[derive(Debug, Copy, Clone, Eq, PartialEq, Structural)]
pub enum MemAccess {
    NoMem,
    MemR,
    MemW,
    MemRw,
}

/// The operation an opcode performs once its operand is in reach.
/// `SetF`/`ClearF` carry the status-flag mask; `Branch` carries the tested
/// mask and the level on which the branch is taken.
#[derive(Debug, Copy, Clone, Eq, PartialEq, Structural)]
pub enum OpKind {
    Brk,
    Nop,
    Lda,
    Ldx,
    Ldy,
    Lax,
    Lxa,
    Sta,
    Stx,
    Sty,
    Sax,
    Tax,
    Tay,
    Txa,
    Tya,
    Txs,
    Tsx,
    Php,
    Plp,
    Pha,
    Pla,
    SetF(u8),
    ClearF(u8),
    Branch(u8, bool),
    Jmp,
    Jmpi,
    Jsr,
    Rts,
    Rti,
    Ora,
    And,
    Eor,
    Adc,
    Sbc,
    Cmp,
    Cpx,
    Cpy,
    Dcp,
    Sbx,
    Dec,
    Inc,
    Dex,
    Dey,
    Inx,
    Iny,
    Isb,
    Asl,
    Asla,
    Lsr,
    Lsra,
    Slo,
    Alr,
    Sre,
    Rol,
    Rola,
    Rla,
    Ror,
    Rora,
    Rra,
    Arr,
    Ane,
    Sha,
    Shx,
    Shy,
    Shs,
    Anc,
    Las,
    Jam,
    Bit,
}

/// The addressing class and access direction of an opcode byte, from the
/// `(cc, bbb, aaa)` decomposition.
#[verifier::opaque]
pub open spec fn bus_mode(op: u8) -> (AddrClass, MemAccess) {
    let cc = op % 4;
    let bbb = (op / 4) % 8;
    let aaa = op / 32;
    if cc == 0 {
        if bbb == 0 {
            if aaa == 0 {
                (AddrClass::NoOperand, MemAccess::NoMem)
            } else if aaa == 1 {
                (AddrClass::JmpSub, MemAccess::MemR)
            } else if aaa == 2 || aaa == 3 {
                (AddrClass::NoOperand, MemAccess::MemR)
            } else {
                (AddrClass::Imm, MemAccess::MemR)
            }
        } else if bbb == 1 {
            if aaa == 4 {
                (AddrClass::Zp, MemAccess::MemW)
            } else {
                (AddrClass::Zp, MemAccess::MemR)
            }
        } else if bbb == 2 {
            if aaa == 0 || aaa == 2 {
                (AddrClass::NoOperand, MemAccess::MemW)
            } else {
                (AddrClass::NoOperand, MemAccess::NoMem)
            }
        } else if bbb == 3 {
            if aaa == 2 || aaa == 3 {
                (AddrClass::JmpAbs, MemAccess::MemR)
            } else if aaa == 4 {
                (AddrClass::Abs, MemAccess::MemW)
            } else {
                (AddrClass::Abs, MemAccess::MemR)
            }
        } else if bbb == 4 {
            (AddrClass::Imm, MemAccess::MemR)
        } else if bbb == 5 {
            if aaa == 4 {
                (AddrClass::ZpX, MemAccess::MemW)
            } else {
                (AddrClass::ZpX, MemAccess::MemR)
            }
        } else if bbb == 6 {
            (AddrClass::NoOperand, MemAccess::NoMem)
        } else {
            if aaa == 4 {
                (AddrClass::AbsX, MemAccess::MemW)
            } else {
                (AddrClass::AbsX, MemAccess::MemR)
            }
        }
    } else if cc == 1 {
        let class = if bbb == 0 {
            AddrClass::IndX
        } else if bbb == 1 {
            AddrClass::Zp
        } else if bbb == 2 {
            AddrClass::Imm
        } else if bbb == 3 {
            AddrClass::Abs
        } else if bbb == 4 {
            AddrClass::IndY
        } else if bbb == 5 {
            AddrClass::ZpX
        } else if bbb == 6 {
            AddrClass::AbsY
        } else {
            AddrClass::AbsX
        };
        if aaa == 4 && bbb != 2 {
            (class, MemAccess::MemW)
        } else {
            (class, MemAccess::MemR)
        }
    } else if cc == 2 {
        if bbb == 0 {
            if aaa < 4 {
                (AddrClass::Halt, MemAccess::MemRw)
            } else {
                (AddrClass::Imm, MemAccess::MemR)
            }
        } else if bbb == 1 {
            if aaa == 4 {
                (AddrClass::Zp, MemAccess::MemW)
            } else if aaa == 5 {
                (AddrClass::Zp, MemAccess::MemR)
            } else {
                (AddrClass::Zp, MemAccess::MemRw)
            }
        } else if bbb == 2 {
            (AddrClass::NoOperand, MemAccess::NoMem)
        } else if bbb == 3 {
            if aaa == 4 {
                (AddrClass::Abs, MemAccess::MemW)
            } else if aaa == 5 {
                (AddrClass::Abs, MemAccess::MemR)
            } else {
                (AddrClass::Abs, MemAccess::MemRw)
            }
        } else if bbb == 4 {
            if aaa == 4 {
                (AddrClass::Halt, MemAccess::MemW)
            } else if aaa == 5 {
                (AddrClass::Halt, MemAccess::MemR)
            } else {
                (AddrClass::Halt, MemAccess::MemRw)
            }
        } else if bbb == 5 {
            if aaa == 4 {
                (AddrClass::ZpY, MemAccess::MemW)
            } else if aaa == 5 {
                (AddrClass::ZpY, MemAccess::MemR)
            } else {
                (AddrClass::ZpX, MemAccess::MemRw)
            }
        } else if bbb == 6 {
            if aaa == 4 || aaa == 5 {
                (AddrClass::NoOperand, MemAccess::NoMem)
            } else {
                (AddrClass::NoOperand, MemAccess::MemR)
            }
        } else {
            if aaa == 4 {
                (AddrClass::AbsY, MemAccess::MemW)
            } else if aaa == 5 {
                (AddrClass::AbsY, MemAccess::MemR)
            } else {
                (AddrClass::AbsX, MemAccess::MemRw)
            }
        }
    } else {
        if bbb == 0 {
            if aaa == 4 {
                (AddrClass::IndX, MemAccess::MemW)
            } else if aaa == 5 {
                (AddrClass::IndX, MemAccess::MemR)
            } else {
                (AddrClass::IndX, MemAccess::MemRw)
            }
        } else if bbb == 1 {
            if aaa == 4 {
                (AddrClass::Zp, MemAccess::MemW)
            } else if aaa == 5 {
                (AddrClass::Zp, MemAccess::MemR)
            } else {
                (AddrClass::Zp, MemAccess::MemRw)
            }
        } else if bbb == 2 {
            (AddrClass::Imm, MemAccess::MemR)
        } else if bbb == 3 {
            if aaa == 4 {
                (AddrClass::Abs, MemAccess::MemW)
            } else if aaa == 5 {
                (AddrClass::Abs, MemAccess::MemR)
            } else {
                (AddrClass::Abs, MemAccess::MemRw)
            }
        } else if bbb == 4 {
            if aaa == 5 {
                (AddrClass::IndY, MemAccess::MemR)
            } else {
                (AddrClass::IndY, MemAccess::MemRw)
            }
        } else if bbb == 5 {
            if aaa == 4 {
                (AddrClass::ZpY, MemAccess::MemW)
            } else if aaa == 5 {
                (AddrClass::ZpY, MemAccess::MemR)
            } else {
                (AddrClass::ZpX, MemAccess::MemRw)
            }
        } else if bbb == 6 {
            if aaa == 4 {
                (AddrClass::AbsY, MemAccess::MemW)
            } else if aaa == 5 {
                (AddrClass::AbsY, MemAccess::MemR)
            } else {
                (AddrClass::AbsY, MemAccess::MemRw)
            }
        } else {
            if aaa == 4 {
                (AddrClass::AbsY, MemAccess::MemW)
            } else if aaa == 5 {
                (AddrClass::AbsY, MemAccess::MemR)
            } else {
                (AddrClass::AbsX, MemAccess::MemRw)
            }
        }
    }
}

/// The operation of an opcode byte.  The opcodes whose addressing class is
/// `Halt` always decode to `Jam`.
#[verifier::opaque]
pub open spec fn op_kind(op: u8) -> OpKind {
    let cc = op % 4;
    let bbb = (op / 4) % 8;
    let aaa = op / 32;
    if bus_mode(op).0 == AddrClass::Halt {
        OpKind::Jam
    } else if cc == 0 {
        if aaa == 0 {
            if bbb == 0 {
                OpKind::Brk
            } else if bbb == 2 {
                OpKind::Php
            } else if bbb == 4 {
                OpKind::Branch(0x80, false)
            } else if bbb == 6 {
                OpKind::ClearF(0x01)
            } else {
                OpKind::Nop
            }
        } else if aaa == 1 {
            if bbb == 0 {
                OpKind::Jsr
            } else if bbb == 2 {
                OpKind::Plp
            } else if bbb == 4 {
                OpKind::Branch(0x80, true)
            } else if bbb == 6 {
                OpKind::SetF(0x01)
            } else if bbb == 5 || bbb == 7 {
                OpKind::Nop
            } else {
                OpKind::Bit
            }
        } else if aaa == 2 {
            if bbb == 0 {
                OpKind::Rti
            } else if bbb == 2 {
                OpKind::Pha
            } else if bbb == 3 {
                OpKind::Jmp
            } else if bbb == 4 {
                OpKind::Branch(0x40, false)
            } else if bbb == 6 {
                OpKind::ClearF(0x04)
            } else {
                OpKind::Nop
            }
        } else if aaa == 3 {
            if bbb == 0 {
                OpKind::Rts
            } else if bbb == 2 {
                OpKind::Pla
            } else if bbb == 3 {
                OpKind::Jmpi
            } else if bbb == 4 {
                OpKind::Branch(0x40, true)
            } else if bbb == 6 {
                OpKind::SetF(0x04)
            } else {
                OpKind::Nop
            }
        } else if aaa == 4 {
            if bbb == 0 {
                OpKind::Nop
            } else if bbb == 2 {
                OpKind::Dey
            } else if bbb == 4 {
                OpKind::Branch(0x01, false)
            } else if bbb == 6 {
                OpKind::Tya
            } else if bbb == 7 {
                OpKind::Shy
            } else {
                OpKind::Sty
            }
        } else if aaa == 5 {
            if bbb == 2 {
                OpKind::Tay
            } else if bbb == 4 {
                OpKind::Branch(0x01, true)
            } else if bbb == 6 {
                OpKind::ClearF(0x40)
            } else {
                OpKind::Ldy
            }
        } else if aaa == 6 {
            if bbb == 2 {
                OpKind::Iny
            } else if bbb == 4 {
                OpKind::Branch(0x02, false)
            } else if bbb == 6 {
                OpKind::ClearF(0x08)
            } else if bbb == 5 || bbb == 7 {
                OpKind::Nop
            } else {
                OpKind::Cpy
            }
        } else {
            if bbb == 2 {
                OpKind::Inx
            } else if bbb == 4 {
                OpKind::Branch(0x02, true)
            } else if bbb == 6 {
                OpKind::SetF(0x08)
            } else if bbb == 5 || bbb == 7 {
                OpKind::Nop
            } else {
                OpKind::Cpx
            }
        }
    } else if cc == 1 {
        if aaa == 0 {
            OpKind::Ora
        } else if aaa == 1 {
            OpKind::And
        } else if aaa == 2 {
            OpKind::Eor
        } else if aaa == 3 {
            OpKind::Adc
        } else if aaa == 4 {
            if bbb == 2 {
                OpKind::Nop
            } else {
                OpKind::Sta
            }
        } else if aaa == 5 {
            OpKind::Lda
        } else if aaa == 6 {
            OpKind::Cmp
        } else {
            OpKind::Sbc
        }
    } else if cc == 2 {
        if aaa == 0 {
            if bbb == 2 {
                OpKind::Asla
            } else if bbb == 6 {
                OpKind::Nop
            } else {
                OpKind::Asl
            }
        } else if aaa == 1 {
            if bbb == 2 {
                OpKind::Rola
            } else if bbb == 6 {
                OpKind::Nop
            } else {
                OpKind::Rol
            }
        } else if aaa == 2 {
            if bbb == 2 {
                OpKind::Lsra
            } else if bbb == 6 {
                OpKind::Nop
            } else {
                OpKind::Lsr
            }
        } else if aaa == 3 {
            if bbb == 2 {
                OpKind::Rora
            } else if bbb == 6 {
                OpKind::Nop
            } else {
                OpKind::Ror
            }
        } else if aaa == 4 {
            if bbb == 0 {
                OpKind::Nop
            } else if bbb == 2 {
                OpKind::Txa
            } else if bbb == 6 {
                OpKind::Txs
            } else if bbb == 7 {
                OpKind::Shx
            } else {
                OpKind::Stx
            }
        } else if aaa == 5 {
            if bbb == 2 {
                OpKind::Tax
            } else if bbb == 6 {
                OpKind::Tsx
            } else {
                OpKind::Ldx
            }
        } else if aaa == 6 {
            if bbb == 0 || bbb == 2 || bbb == 6 {
                if bbb == 2 {
                    OpKind::Dex
                } else {
                    OpKind::Nop
                }
            } else {
                OpKind::Dec
            }
        } else {
            if bbb == 0 || bbb == 2 || bbb == 6 {
                OpKind::Nop
            } else {
                OpKind::Inc
            }
        }
    } else {
        if aaa == 0 {
            if bbb == 2 {
                OpKind::Anc
            } else {
                OpKind::Slo
            }
        } else if aaa == 1 {
            if bbb == 2 {
                OpKind::Anc
            } else {
                OpKind::Rla
            }
        } else if aaa == 2 {
            if bbb == 2 {
                OpKind::Alr
            } else {
                OpKind::Sre
            }
        } else if aaa == 3 {
            if bbb == 2 {
                OpKind::Arr
            } else {
                OpKind::Rra
            }
        } else if aaa == 4 {
            if bbb == 2 {
                OpKind::Ane
            } else if bbb == 6 {
                OpKind::Shs
            } else if bbb == 4 || bbb == 7 {
                OpKind::Sha
            } else {
                OpKind::Sax
            }
        } else if aaa == 5 {
            if bbb == 2 {
                OpKind::Lxa
            } else if bbb == 6 {
                OpKind::Las
            } else {
                OpKind::Lax
            }
        } else if aaa == 6 {
            if bbb == 2 {
                OpKind::Sbx
            } else {
                OpKind::Dcp
            }
        } else {
            if bbb == 2 {
                OpKind::Sbc
            } else {
                OpKind::Isb
            }
        }
    }
}

/// Executable twin of [`bus_mode`].
pub fn decode_bus(op: u8) -> (r: (AddrClass, MemAccess))
    ensures
        r == bus_mode(op),
{
    proof {
        reveal(bus_mode);
    }
    let cc = op % 4;
    let bbb = (op / 4) % 8;
    let aaa = op / 32;
    if cc == 0 {
        if bbb == 0 {
            if aaa == 0 {
                (AddrClass::NoOperand, MemAccess::NoMem)
            } else if aaa == 1 {
                (AddrClass::JmpSub, MemAccess::MemR)
            } else if aaa == 2 || aaa == 3 {
                (AddrClass::NoOperand, MemAccess::MemR)
            } else {
                (AddrClass::Imm, MemAccess::MemR)
            }
        } else if bbb == 1 {
            if aaa == 4 {
                (AddrClass::Zp, MemAccess::MemW)
            } else {
                (AddrClass::Zp, MemAccess::MemR)
            }
        } else if bbb == 2 {
            if aaa == 0 || aaa == 2 {
                (AddrClass::NoOperand, MemAccess::MemW)
            } else {
                (AddrClass::NoOperand, MemAccess::NoMem)
            }
        } else if bbb == 3 {
            if aaa == 2 || aaa == 3 {
                (AddrClass::JmpAbs, MemAccess::MemR)
            } else if aaa == 4 {
                (AddrClass::Abs, MemAccess::MemW)
            } else {
                (AddrClass::Abs, MemAccess::MemR)
            }
        } else if bbb == 4 {
            (AddrClass::Imm, MemAccess::MemR)
        } else if bbb == 5 {
            if aaa == 4 {
                (AddrClass::ZpX, MemAccess::MemW)
            } else {
                (AddrClass::ZpX, MemAccess::MemR)
            }
        } else if bbb == 6 {
            (AddrClass::NoOperand, MemAccess::NoMem)
        } else {
            if aaa == 4 {
                (AddrClass::AbsX, MemAccess::MemW)
            } else {
                (AddrClass::AbsX, MemAccess::MemR)
            }
        }
    } else if cc == 1 {
        let class = if bbb == 0 {
            AddrClass::IndX
        } else if bbb == 1 {
            AddrClass::Zp
        } else if bbb == 2 {
            AddrClass::Imm
        } else if bbb == 3 {
            AddrClass::Abs
        } else if bbb == 4 {
            AddrClass::IndY
        } else if bbb == 5 {
            AddrClass::ZpX
        } else if bbb == 6 {
            AddrClass::AbsY
        } else {
            AddrClass::AbsX
        };
        if aaa == 4 && bbb != 2 {
            (class, MemAccess::MemW)
        } else {
            (class, MemAccess::MemR)
        }
    } else if cc == 2 {
        if bbb == 0 {
            if aaa < 4 {
                (AddrClass::Halt, MemAccess::MemRw)
            } else {
                (AddrClass::Imm, MemAccess::MemR)
            }
        } else if bbb == 1 {
            if aaa == 4 {
                (AddrClass::Zp, MemAccess::MemW)
            } else if aaa == 5 {
                (AddrClass::Zp, MemAccess::MemR)
            } else {
                (AddrClass::Zp, MemAccess::MemRw)
            }
        } else if bbb == 2 {
            (AddrClass::NoOperand, MemAccess::NoMem)
        } else if bbb == 3 {
            if aaa == 4 {
                (AddrClass::Abs, MemAccess::MemW)
            } else if aaa == 5 {
                (AddrClass::Abs, MemAccess::MemR)
            } else {
                (AddrClass::Abs, MemAccess::MemRw)
            }
        } else if bbb == 4 {
            if aaa == 4 {
                (AddrClass::Halt, MemAccess::MemW)
            } else if aaa == 5 {
                (AddrClass::Halt, MemAccess::MemR)
            } else {
                (AddrClass::Halt, MemAccess::MemRw)
            }
        } else if bbb == 5 {
            if aaa == 4 {
                (AddrClass::ZpY, MemAccess::MemW)
            } else if aaa == 5 {
                (AddrClass::ZpY, MemAccess::MemR)
            } else {
                (AddrClass::ZpX, MemAccess::MemRw)
            }
        } else if bbb == 6 {
            if aaa == 4 || aaa == 5 {
                (AddrClass::NoOperand, MemAccess::NoMem)
            } else {
                (AddrClass::NoOperand, MemAccess::MemR)
            }
        } else {
            if aaa == 4 {
                (AddrClass::AbsY, MemAccess::MemW)
            } else if aaa == 5 {
                (AddrClass::AbsY, MemAccess::MemR)
            } else {
                (AddrClass::AbsX, MemAccess::MemRw)
            }
        }
    } else {
        if bbb == 0 {
            if aaa == 4 {
                (AddrClass::IndX, MemAccess::MemW)
            } else if aaa == 5 {
                (AddrClass::IndX, MemAccess::MemR)
            } else {
                (AddrClass::IndX, MemAccess::MemRw)
            }
        } else if bbb == 1 {
            if aaa == 4 {
                (AddrClass::Zp, MemAccess::MemW)
            } else if aaa == 5 {
                (AddrClass::Zp, MemAccess::MemR)
            } else {
                (AddrClass::Zp, MemAccess::MemRw)
            }
        } else if bbb == 2 {
            (AddrClass::Imm, MemAccess::MemR)
        } else if bbb == 3 {
            if aaa == 4 {
                (AddrClass::Abs, MemAccess::MemW)
            } else if aaa == 5 {
                (AddrClass::Abs, MemAccess::MemR)
            } else {
                (AddrClass::Abs, MemAccess::MemRw)
            }
        } else if bbb == 4 {
            if aaa == 5 {
                (AddrClass::IndY, MemAccess::MemR)
            } else {
                (AddrClass::IndY, MemAccess::MemRw)
            }
        } else if bbb == 5 {
            if aaa == 4 {
                (AddrClass::ZpY, MemAccess::MemW)
            } else if aaa == 5 {
                (AddrClass::ZpY, MemAccess::MemR)
            } else {
                (AddrClass::ZpX, MemAccess::MemRw)
            }
        } else if bbb == 6 {
            if aaa == 4 {
                (AddrClass::AbsY, MemAccess::MemW)
            } else if aaa == 5 {
                (AddrClass::AbsY, MemAccess::MemR)
            } else {
                (AddrClass::AbsY, MemAccess::MemRw)
            }
        } else {
            if aaa == 4 {
                (AddrClass::AbsY, MemAccess::MemW)
            } else if aaa == 5 {
                (AddrClass::AbsY, MemAccess::MemR)
            } else {
                (AddrClass::AbsX, MemAccess::MemRw)
            }
        }
    }
}

/// Executable twin of [`op_kind`].
pub fn decode_kind(op: u8) -> (r: OpKind)
    ensures
        r == op_kind(op),
{
    proof {
        reveal(op_kind);
    }
    let cc = op % 4;
    let bbb = (op / 4) % 8;
    let aaa = op / 32;
    let (class, _) = decode_bus(op);
    if class == AddrClass::Halt {
        OpKind::Jam
    } else if cc == 0 {
        if aaa == 0 {
            if bbb == 0 {
                OpKind::Brk
            } else if bbb == 2 {
                OpKind::Php
            } else if bbb == 4 {
                OpKind::Branch(0x80, false)
            } else if bbb == 6 {
                OpKind::ClearF(0x01)
            } else {
                OpKind::Nop
            }
        } else if aaa == 1 {
            if bbb == 0 {
                OpKind::Jsr
            } else if bbb == 2 {
                OpKind::Plp
            } else if bbb == 4 {
                OpKind::Branch(0x80, true)
            } else if bbb == 6 {
                OpKind::SetF(0x01)
            } else if bbb == 5 || bbb == 7 {
                OpKind::Nop
            } else {
                OpKind::Bit
            }
        } else if aaa == 2 {
            if bbb == 0 {
                OpKind::Rti
            } else if bbb == 2 {
                OpKind::Pha
            } else if bbb == 3 {
                OpKind::Jmp
            } else if bbb == 4 {
                OpKind::Branch(0x40, false)
            } else if bbb == 6 {
                OpKind::ClearF(0x04)
            } else {
                OpKind::Nop
            }
        } else if aaa == 3 {
            if bbb == 0 {
                OpKind::Rts
            } else if bbb == 2 {
                OpKind::Pla
            } else if bbb == 3 {
                OpKind::Jmpi
            } else if bbb == 4 {
                OpKind::Branch(0x40, true)
            } else if bbb == 6 {
                OpKind::SetF(0x04)
            } else {
                OpKind::Nop
            }
        } else if aaa == 4 {
            if bbb == 0 {
                OpKind::Nop
            } else if bbb == 2 {
                OpKind::Dey
            } else if bbb == 4 {
                OpKind::Branch(0x01, false)
            } else if bbb == 6 {
                OpKind::Tya
            } else if bbb == 7 {
                OpKind::Shy
            } else {
                OpKind::Sty
            }
        } else if aaa == 5 {
            if bbb == 2 {
                OpKind::Tay
            } else if bbb == 4 {
                OpKind::Branch(0x01, true)
            } else if bbb == 6 {
                OpKind::ClearF(0x40)
            } else {
                OpKind::Ldy
            }
        } else if aaa == 6 {
            if bbb == 2 {
                OpKind::Iny
            } else if bbb == 4 {
                OpKind::Branch(0x02, false)
            } else if bbb == 6 {
                OpKind::ClearF(0x08)
            } else if bbb == 5 || bbb == 7 {
                OpKind::Nop
            } else {
                OpKind::Cpy
            }
        } else {
            if bbb == 2 {
                OpKind::Inx
            } else if bbb == 4 {
                OpKind::Branch(0x02, true)
            } else if bbb == 6 {
                OpKind::SetF(0x08)
            } else if bbb == 5 || bbb == 7 {
                OpKind::Nop
            } else {
                OpKind::Cpx
            }
        }
    } else if cc == 1 {
        if aaa == 0 {
            OpKind::Ora
        } else if aaa == 1 {
            OpKind::And
        } else if aaa == 2 {
            OpKind::Eor
        } else if aaa == 3 {
            OpKind::Adc
        } else if aaa == 4 {
            if bbb == 2 {
                OpKind::Nop
            } else {
                OpKind::Sta
            }
        } else if aaa == 5 {
            OpKind::Lda
        } else if aaa == 6 {
            OpKind::Cmp
        } else {
            OpKind::Sbc
        }
    } else if cc == 2 {
        if aaa == 0 {
            if bbb == 2 {
                OpKind::Asla
            } else if bbb == 6 {
                OpKind::Nop
            } else {
                OpKind::Asl
            }
        } else if aaa == 1 {
            if bbb == 2 {
                OpKind::Rola
            } else if bbb == 6 {
                OpKind::Nop
            } else {
                OpKind::Rol
            }
        } else if aaa == 2 {
            if bbb == 2 {
                OpKind::Lsra
            } else if bbb == 6 {
                OpKind::Nop
            } else {
                OpKind::Lsr
            }
        } else if aaa == 3 {
            if bbb == 2 {
                OpKind::Rora
            } else if bbb == 6 {
                OpKind::Nop
            } else {
                OpKind::Ror
            }
        } else if aaa == 4 {
            if bbb == 0 {
                OpKind::Nop
            } else if bbb == 2 {
                OpKind::Txa
            } else if bbb == 6 {
                OpKind::Txs
            } else if bbb == 7 {
                OpKind::Shx
            } else {
                OpKind::Stx
            }
        } else if aaa == 5 {
            if bbb == 2 {
                OpKind::Tax
            } else if bbb == 6 {
                OpKind::Tsx
            } else {
                OpKind::Ldx
            }
        } else if aaa == 6 {
            if bbb == 0 || bbb == 2 || bbb == 6 {
                if bbb == 2 {
                    OpKind::Dex
                } else {
                    OpKind::Nop
                }
            } else {
                OpKind::Dec
            }
        } else {
            if bbb == 0 || bbb == 2 || bbb == 6 {
                OpKind::Nop
            } else {
                OpKind::Inc
            }
        }
    } else {
        if aaa == 0 {
            if bbb == 2 {
                OpKind::Anc
            } else {
                OpKind::Slo
            }
        } else if aaa == 1 {
            if bbb == 2 {
                OpKind::Anc
            } else {
                OpKind::Rla
            }
        } else if aaa == 2 {
            if bbb == 2 {
                OpKind::Alr
            } else {
                OpKind::Sre
            }
        } else if aaa == 3 {
            if bbb == 2 {
                OpKind::Arr
            } else {
                OpKind::Rra
            }
        } else if aaa == 4 {
            if bbb == 2 {
                OpKind::Ane
            } else if bbb == 6 {
                OpKind::Shs
            } else if bbb == 4 || bbb == 7 {
                OpKind::Sha
            } else {
                OpKind::Sax
            }
        } else if aaa == 5 {
            if bbb == 2 {
                OpKind::Lxa
            } else if bbb == 6 {
                OpKind::Las
            } else {
                OpKind::Lax
            }
        } else if aaa == 6 {
            if bbb == 2 {
                OpKind::Sbx
            } else {
                OpKind::Dcp
            }
        } else {
            if bbb == 2 {
                OpKind::Sbc
            } else {
                OpKind::Isb
            }
        }
    }
}

/// The mnemonic under which a decoded opcode byte is reported.
pub open spec fn instr_opcode(b: u8) -> Opcode {
    match op_kind(b) {
        OpKind::Brk => Opcode::BRK,
        OpKind::Nop => Opcode::NOP,
        OpKind::Lda => Opcode::LDA,
        OpKind::Ldx => Opcode::LDX,
        OpKind::Ldy => Opcode::LDY,
        OpKind::Lax => Opcode::LAX,
        OpKind::Lxa => Opcode::LXA,
        OpKind::Sta => Opcode::STA,
        OpKind::Stx => Opcode::STX,
        OpKind::Sty => Opcode::STY,
        OpKind::Sax => Opcode::SAX,
        OpKind::Tax => Opcode::TAX,
        OpKind::Tay => Opcode::TAY,
        OpKind::Txa => Opcode::TXA,
        OpKind::Tya => Opcode::TYA,
        OpKind::Txs => Opcode::TXS,
        OpKind::Tsx => Opcode::TSX,
        OpKind::Php => Opcode::PHP,
        OpKind::Plp => Opcode::PLP,
        OpKind::Pha => Opcode::PHA,
        OpKind::Pla => Opcode::PLA,
        OpKind::SetF(m) => if m == 0x01 {
            Opcode::SEC
        } else if m == 0x04 {
            Opcode::SEI
        } else {
            Opcode::SED
        },
        OpKind::ClearF(m) => if m == 0x01 {
            Opcode::CLC
        } else if m == 0x04 {
            Opcode::CLI
        } else if m == 0x08 {
            Opcode::CLD
        } else {
            Opcode::CLV
        },
        OpKind::Branch(m, w) => if m == 0x80 {
            if w {
                Opcode::BMI
            } else {
                Opcode::BPL
            }
        } else if m == 0x40 {
            if w {
                Opcode::BVS
            } else {
                Opcode::BVC
            }
        } else if m == 0x01 {
            if w {
                Opcode::BCS
            } else {
                Opcode::BCC
            }
        } else {
            if w {
                Opcode::BEQ
            } else {
                Opcode::BNE
            }
        },
        OpKind::Jmp => Opcode::JMP,
        OpKind::Jmpi => Opcode::JMP,
        OpKind::Jsr => Opcode::JSR,
        OpKind::Rts => Opcode::RTS,
        OpKind::Rti => Opcode::RTI,
        OpKind::Ora => Opcode::ORA,
        OpKind::And => Opcode::AND,
        OpKind::Eor => Opcode::EOR,
        OpKind::Adc => Opcode::ADC,
        OpKind::Sbc => if b == 0xEB {
            Opcode::USBC
        } else {
            Opcode::SBC
        },
        OpKind::Cmp => Opcode::CMP,
        OpKind::Cpx => Opcode::CPX,
        OpKind::Cpy => Opcode::CPY,
        OpKind::Dcp => Opcode::DCP,
        OpKind::Sbx => Opcode::SBX,
        OpKind::Dec => Opcode::DEC,
        OpKind::Inc => Opcode::INC,
        OpKind::Dex => Opcode::DEX,
        OpKind::Dey => Opcode::DEY,
        OpKind::Inx => Opcode::INX,
        OpKind::Iny => Opcode::INY,
        OpKind::Isb => Opcode::ISC,
        OpKind::Asl => Opcode::ASL,
        OpKind::Asla => Opcode::ASL,
        OpKind::Lsr => Opcode::LSR,
        OpKind::Lsra => Opcode::LSR,
        OpKind::Slo => Opcode::SLO,
        OpKind::Alr => Opcode::ALR,
        OpKind::Sre => Opcode::SRE,
        OpKind::Rol => Opcode::ROL,
        OpKind::Rola => Opcode::ROL,
        OpKind::Rla => Opcode::RLA,
        OpKind::Ror => Opcode::ROR,
        OpKind::Rora => Opcode::ROR,
        OpKind::Rra => Opcode::RRA,
        OpKind::Arr => Opcode::ARR,
        OpKind::Ane => Opcode::ANE,
        OpKind::Sha => Opcode::SHA,
        OpKind::Shx => Opcode::SHX,
        OpKind::Shy => Opcode::SHY,
        OpKind::Shs => Opcode::TAS,
        OpKind::Anc => if b == 0x2B {
            Opcode::ANC2
        } else {
            Opcode::ANC
        },
        OpKind::Las => Opcode::LAS,
        OpKind::Jam => Opcode::JAM,
        OpKind::Bit => Opcode::BIT,
    }
}

/// The addressing mode under which a decoded opcode byte is reported.
pub open spec fn instr_mode(b: u8) -> AddressingMode {
    let kind = op_kind(b);
    match bus_mode(b).0 {
        AddrClass::NoOperand => if kind == OpKind::Asla || kind == OpKind::Rola || kind
            == OpKind::Lsra || kind == OpKind::Rora {
            AddressingMode::Acc
        } else {
            AddressingMode::Impl
        },
        AddrClass::Imm => if kind is Branch {
            AddressingMode::Rel
        } else {
            AddressingMode::Imm
        },
        AddrClass::Zp => AddressingMode::Zpg,
        AddrClass::ZpX => AddressingMode::ZpgX,
        AddrClass::ZpY => AddressingMode::ZpgY,
        AddrClass::Abs => AddressingMode::Abs,
        AddrClass::AbsX => AddressingMode::AbsX,
        AddrClass::AbsY => AddressingMode::AbsY,
        AddrClass::IndX => AddressingMode::XInd,
        AddrClass::IndY => AddressingMode::IndY,
        AddrClass::JmpAbs => if kind == OpKind::Jmpi {
            AddressingMode::Ind
        } else {
            AddressingMode::Abs
        },
        AddrClass::JmpSub => AddressingMode::Abs,
        AddrClass::Halt => AddressingMode::Impl,
    }
}

impl Instruction {
    /// Decodes one opcode byte.  The `cycles` field is always 7: the
    /// sub-cycle window reserved for an instruction runs from index 0 to 7,
    /// and the longest sequences use all of it.
    pub fn from_byte(data: u8) -> (r: Instruction)
        ensures
            r == (Instruction {
                opcode: instr_opcode(data),
                mode: instr_mode(data),
                cycles: 7,
            }),
    {
        let kind = decode_kind(data);
        let (class, _) = decode_bus(data);
        let opcode = match kind {
            OpKind::Brk => Opcode::BRK,
            OpKind::Nop => Opcode::NOP,
            OpKind::Lda => Opcode::LDA,
            OpKind::Ldx => Opcode::LDX,
            OpKind::Ldy => Opcode::LDY,
            OpKind::Lax => Opcode::LAX,
            OpKind::Lxa => Opcode::LXA,
            OpKind::Sta => Opcode::STA,
            OpKind::Stx => Opcode::STX,
            OpKind::Sty => Opcode::STY,
            OpKind::Sax => Opcode::SAX,
            OpKind::Tax => Opcode::TAX,
            OpKind::Tay => Opcode::TAY,
            OpKind::Txa => Opcode::TXA,
            OpKind::Tya => Opcode::TYA,
            OpKind::Txs => Opcode::TXS,
            OpKind::Tsx => Opcode::TSX,
            OpKind::Php => Opcode::PHP,
            OpKind::Plp => Opcode::PLP,
            OpKind::Pha => Opcode::PHA,
            OpKind::Pla => Opcode::PLA,
            OpKind::SetF(m) => if m == 0x01 {
                Opcode::SEC
            } else if m == 0x04 {
                Opcode::SEI
            } else {
                Opcode::SED
            },
            OpKind::ClearF(m) => if m == 0x01 {
                Opcode::CLC
            } else if m == 0x04 {
                Opcode::CLI
            } else if m == 0x08 {
                Opcode::CLD
            } else {
                Opcode::CLV
            },
            OpKind::Branch(m, w) => if m == 0x80 {
                if w {
                    Opcode::BMI
                } else {
                    Opcode::BPL
                }
            } else if m == 0x40 {
                if w {
                    Opcode::BVS
                } else {
                    Opcode::BVC
                }
            } else if m == 0x01 {
                if w {
                    Opcode::BCS
                } else {
                    Opcode::BCC
                }
            } else {
                if w {
                    Opcode::BEQ
                } else {
                    Opcode::BNE
                }
            },
            OpKind::Jmp => Opcode::JMP,
            OpKind::Jmpi => Opcode::JMP,
            OpKind::Jsr => Opcode::JSR,
            OpKind::Rts => Opcode::RTS,
            OpKind::Rti => Opcode::RTI,
            OpKind::Ora => Opcode::ORA,
            OpKind::And => Opcode::AND,
            OpKind::Eor => Opcode::EOR,
            OpKind::Adc => Opcode::ADC,
            OpKind::Sbc => if data == 0xEB {
                Opcode::USBC
            } else {
                Opcode::SBC
            },
            OpKind::Cmp => Opcode::CMP,
            OpKind::Cpx => Opcode::CPX,
            OpKind::Cpy => Opcode::CPY,
            OpKind::Dcp => Opcode::DCP,
            OpKind::Sbx => Opcode::SBX,
            OpKind::Dec => Opcode::DEC,
            OpKind::Inc => Opcode::INC,
            OpKind::Dex => Opcode::DEX,
            OpKind::Dey => Opcode::DEY,
            OpKind::Inx => Opcode::INX,
            OpKind::Iny => Opcode::INY,
            OpKind::Isb => Opcode::ISC,
            OpKind::Asl => Opcode::ASL,
            OpKind::Asla => Opcode::ASL,
            OpKind::Lsr => Opcode::LSR,
            OpKind::Lsra => Opcode::LSR,
            OpKind::Slo => Opcode::SLO,
            OpKind::Alr => Opcode::ALR,
            OpKind::Sre => Opcode::SRE,
            OpKind::Rol => Opcode::ROL,
            OpKind::Rola => Opcode::ROL,
            OpKind::Rla => Opcode::RLA,
            OpKind::Ror => Opcode::ROR,
            OpKind::Rora => Opcode::ROR,
            OpKind::Rra => Opcode::RRA,
            OpKind::Arr => Opcode::ARR,
            OpKind::Ane => Opcode::ANE,
            OpKind::Sha => Opcode::SHA,
            OpKind::Shx => Opcode::SHX,
            OpKind::Shy => Opcode::SHY,
            OpKind::Shs => Opcode::TAS,
            OpKind::Anc => if data == 0x2B {
                Opcode::ANC2
            } else {
                Opcode::ANC
            },
            OpKind::Las => Opcode::LAS,
            OpKind::Jam => Opcode::JAM,
            OpKind::Bit => Opcode::BIT,
        };
        let mode = match class {
            AddrClass::NoOperand => if kind == OpKind::Asla || kind == OpKind::Rola || kind
                == OpKind::Lsra || kind == OpKind::Rora {
                AddressingMode::Acc
            } else {
                AddressingMode::Impl
            },
            AddrClass::Imm => if matches!(kind, OpKind::Branch(_, _)) {
                AddressingMode::Rel
            } else {
                AddressingMode::Imm
            },
            AddrClass::Zp => AddressingMode::Zpg,
            AddrClass::ZpX => AddressingMode::ZpgX,
            AddrClass::ZpY => AddressingMode::ZpgY,
            AddrClass::Abs => AddressingMode::Abs,
            AddrClass::AbsX => AddressingMode::AbsX,
            AddrClass::AbsY => AddressingMode::AbsY,
            AddrClass::IndX => AddressingMode::XInd,
            AddrClass::IndY => AddressingMode::IndY,
            AddrClass::JmpAbs => if kind == OpKind::Jmpi {
                AddressingMode::Ind
            } else {
                AddressingMode::Abs
            },
            AddrClass::JmpSub => AddressingMode::Abs,
            AddrClass::Halt => AddressingMode::Impl,
        };
        Instruction { opcode, mode, cycles: 7 }
    }
}

} // verus!
