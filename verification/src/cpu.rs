//! The processor core: register file, status flags, bus pins and the
//! per-cycle state machine.

use vstd::prelude::*;

pub mod opcodes;

use opcodes::AddrClass;
use opcodes::MemAccess;
use opcodes::OpKind;
use opcodes::bus_mode;
use opcodes::op_kind;
use opcodes::decode_bus;
use opcodes::decode_kind;

verus! {

/// Direction of the current bus cycle.
#[derive(Copy, Clone, Eq, PartialEq, Debug, Structural)]
pub enum ReadWrite {
    Read,
    Write,
}

/// The boolean control lines of the pin record, named for `on`/`off`.
#[derive(Copy, Clone, Eq, PartialEq, Debug, Structural)]
pub enum PinFlags {
    Sync,
    Irq,
    Rdy,
    Aec,
    Res,
}

/// The bus pins shared between the processor and its host.  The host performs
/// one memory transaction per tick as described by `address`, `data` and `rw`,
/// and owns the interrupt lines `irq`, `nmi`, `res` and `rdy`.
#[derive(Copy, Clone, Eq, PartialEq, Debug, Structural)]
pub struct Pins {
    pub data: u8,
    pub address: u16,
    pub rw: ReadWrite,
    pub sync: bool,
    pub irq: bool,
    pub rdy: bool,
    pub aec: bool,
    pub res: bool,
    pub nmi: bool,
}

impl Pins {
    /// The power-on pin state: a read cycle with `sync` and `res` asserted, so
    /// that the first tick enters the reset sequence.
    pub fn new() -> (p: Pins)
        ensures
            p == (Pins {
                data: 0,
                address: 0,
                rw: ReadWrite::Read,
                sync: true,
                irq: false,
                rdy: false,
                aec: false,
                res: true,
                nmi: false,
            }),
    {
        Pins {
            data: 0,
            address: 0,
            rw: ReadWrite::Read,
            sync: true,
            irq: false,
            rdy: false,
            aec: false,
            res: true,
            nmi: false,
        }
    }
}

/// The processor status register, stored as its eight flag bits.
/// Bit 5 (`X`) and bit 4 (`B`) are held clear in the stored byte; pushes to
/// the stack set them as the push site demands.
#[derive(Copy, Clone, Eq, PartialEq, Debug, Structural)]
pub struct StatusRegister {
    pub bits: u8,
}

impl StatusRegister {
    /// Negative flag (bit 7).
    pub const N: u8 = 0x80;

    /// Overflow flag (bit 6).
    pub const V: u8 = 0x40;

    /// The unused bit (bit 5), set on every push, never stored.
    pub const X: u8 = 0x20;

    /// Break flag (bit 4), set on pushes by `BRK`/`PHP`, never stored.
    pub const B: u8 = 0x10;

    /// Decimal-mode flag (bit 3).
    pub const D: u8 = 0x08;

    /// Interrupt-disable flag (bit 2).
    pub const I: u8 = 0x04;

    /// Zero flag (bit 1).
    pub const Z: u8 = 0x02;

    /// Carry flag (bit 0).
    pub const C: u8 = 0x01;

    /// The register with every flag clear.
    pub fn empty() -> (r: StatusRegister)
        ensures
            r.bits == 0,
    {
        StatusRegister { bits: 0 }
    }

    /// True when every flag of `mask` is set in `self`.
    pub fn contains(&self, mask: u8) -> (r: bool)
        ensures
            r == (self.bits & mask == mask),
    {
        self.bits & mask == mask
    }

    /// Set every flag of `mask`.
    pub fn insert(&mut self, mask: u8)
        ensures
            final(self).bits == (old(self).bits | mask),
    {
        self.bits = self.bits | mask;
    }

    /// Clear every flag of `mask`.
    pub fn remove(&mut self, mask: u8)
        ensures
            final(self).bits == (old(self).bits & !mask),
    {
        self.bits = self.bits & !mask;
    }

    /// Flip every flag of `mask`.
    pub fn toggle(&mut self, mask: u8)
        ensures
            final(self).bits == (old(self).bits ^ mask),
    {
        self.bits = self.bits ^ mask;
    }

    /// Set or clear every flag of `mask` according to `value`.
    pub fn set(&mut self, mask: u8, value: bool)
        ensures
            final(self).bits == (if value {
                old(self).bits | mask
            } else {
                old(self).bits & !mask
            }),
    {
        if value {
            self.bits = self.bits | mask;
        } else {
            self.bits = self.bits & !mask;
        }
    }
}

/// Which interrupt a `BRK`-shaped micro-sequence is servicing.
#[derive(Copy, Clone, Eq, PartialEq, Debug, Structural)]
pub struct BreakFlags {
    pub bits: u8,
}

impl BreakFlags {
    /// A maskable interrupt is being serviced.
    pub const IRQ: u8 = 0x01;

    /// A non-maskable interrupt is being serviced.
    pub const NMI: u8 = 0x02;

    /// The reset line is being serviced.
    pub const RESET: u8 = 0x04;

    /// No interrupt marked.
    pub fn empty() -> (r: BreakFlags)
        ensures
            r.bits == 0,
    {
        BreakFlags { bits: 0 }
    }

    /// True when every flag of `mask` is set.
    pub fn contains(&self, mask: u8) -> (r: bool)
        ensures
            r == (self.bits & mask == mask),
    {
        self.bits & mask == mask
    }

    /// Set every flag of `mask`.
    pub fn insert(&mut self, mask: u8)
        ensures
            final(self).bits == (old(self).bits | mask),
    {
        self.bits = self.bits | mask;
    }

    /// True when no flag is set.
    pub fn is_empty(&self) -> (r: bool)
        ensures
            r == (self.bits == 0),
    {
        self.bits == 0
    }
}

/// The processor: the register file and the in-flight instruction state.
///
/// `ir` packs the current opcode (bits 3 and up) with its sub-cycle (low
/// three bits).  `nmi_pip` and `irq_pip` are the two shift registers that
/// model the recognition delay of the interrupt lines.  `adl_adh` is the
/// scratch latch used while an effective address is formed; its value means
/// nothing between instructions.
#[derive(Copy, Clone, Eq, PartialEq, Debug, Structural)]
pub struct CPU {
    pub pc: u16,
    pub ac: u8,
    pub x: u8,
    pub y: u8,
    pub sr: StatusRegister,
    pub sp: u8,
    pub pins: Pins,
    pub ir: u16,
    pub nmi_pip: u16,
    pub irq_pip: u16,
    pub brk_flags: BreakFlags,
    pub bcd_enabled: bool,
    pub adl_adh: u16,
}

impl CPU {
    /// The power-on state.  The pins assert `sync` and `res`, so the first
    /// tick enters the reset sequence.  Decimal mode starts disabled.
    pub fn new() -> (c: CPU)
        ensures
            c == (CPU {
                pc: 0,
                ac: 0,
                x: 0,
                y: 0,
                sr: StatusRegister { bits: 0 },
                sp: 0,
                ir: 0,
                pins: Pins {
                    data: 0,
                    address: 0,
                    rw: ReadWrite::Read,
                    sync: true,
                    irq: false,
                    rdy: false,
                    aec: false,
                    res: true,
                    nmi: false,
                },
                nmi_pip: 0,
                irq_pip: 0,
                brk_flags: BreakFlags { bits: 0 },
                bcd_enabled: false,
                adl_adh: 0,
            }),
    {
        CPU {
            pc: 0,
            ac: 0,
            x: 0,
            y: 0,
            sr: StatusRegister { bits: 0 },
            sp: 0,
            ir: 0,
            pins: Pins::new(),
            nmi_pip: 0,
            irq_pip: 0,
            brk_flags: BreakFlags { bits: 0 },
            bcd_enabled: false,
            adl_adh: 0,
        }
    }
}


/// The status byte with `N` and `Z` recomputed from a result byte and every
/// other flag kept.
pub open spec fn flags_nz(sr: u8, v: u8) -> u8 {
    if v == 0 {
        (sr & 0x7d) | 0x02
    } else {
        (sr & 0x7d) | (v & 0x80)
    }
}

/// The carry flag of a status byte, as the integer 0 or 1.
pub open spec fn carry_bit(sr: u8) -> int {
    if sr & 0x01 == 0x01 {
        1
    } else {
        0
    }
}

/// Binary add-with-carry: `AC + v + C` modulo 256, carry out when the nine
/// bit sum exceeds 0xFF, overflow when the operand signs match and differ
/// from the result sign, `N` and `Z` from the result.
pub open spec fn spec_adc_bin(c: CPU, v: u8) -> CPU {
    let cin = carry_bit(c.sr.bits);
    let sum = c.ac + v + cin;
    let r = (sum % 256) as u8;
    let vset = ((c.ac >= 0x80) == (v >= 0x80)) && ((c.ac >= 0x80) != (r >= 0x80));
    let b0 = c.sr.bits & 0xbe;
    let b1 = flags_nz(b0, r);
    let b2 = if vset {
        b1 | 0x40
    } else {
        b1
    };
    let b3 = if sum > 0xff {
        b2 | 0x01
    } else {
        b2
    };
    CPU { ac: r, sr: StatusRegister { bits: b3 }, ..c }
}

/// Decimal add-with-carry: nibble-wise with the documented quirks — `Z` from
/// the binary sum, `N` and `V` from the intermediate high nibble before its
/// decimal correction.
pub open spec fn spec_adc_bcd(c: CPU, v: u8) -> CPU {
    let cin = carry_bit(c.sr.bits);
    let al0 = (c.ac % 16) + (v % 16) + cin;
    let al = if al0 > 9 {
        al0 + 6
    } else {
        al0
    };
    let ah0 = (c.ac / 16) + (v / 16) + (if al0 > 9 {
        1int
    } else {
        0int
    });
    let bin = c.ac + v + cin;
    let b0 = c.sr.bits & 0x3d;
    let b1 = if bin % 256 == 0 {
        b0 | 0x02
    } else if ah0 >= 128 {
        b0 | 0x80
    } else {
        b0
    };
    let vset = ((c.ac >= 0x80) == (v >= 0x80)) && ((c.ac >= 0x80) != ((ah0 * 16) % 256 >= 128));
    let b2 = if vset {
        b1 | 0x40
    } else {
        b1
    };
    let ah = if ah0 > 9 {
        ah0 + 6
    } else {
        ah0
    };
    let b3 = if ah > 15 {
        b2 | 0x01
    } else {
        b2
    };
    let r = (((ah % 16) * 16) + (al % 16)) as u8;
    CPU { ac: r, sr: StatusRegister { bits: b3 }, ..c }
}

/// Add-with-carry, decimal when enabled and the `D` flag is set.
pub open spec fn spec_adc(c: CPU, v: u8) -> CPU {
    if c.bcd_enabled && c.sr.bits & 0x08 == 0x08 {
        spec_adc_bcd(c, v)
    } else {
        spec_adc_bin(c, v)
    }
}

/// Decimal subtract-with-borrow: nibble-wise, `Z`, `V` and `C` from the
/// binary difference, `N` from the intermediate high nibble.
pub open spec fn spec_sbc_bcd(c: CPU, v: u8) -> CPU {
    let bw = 1 - carry_bit(c.sr.bits);
    let diff = (0x10000 + c.ac - v - bw) % 0x10000;
    let al0 = 64 + (c.ac % 16) - (v % 16) - bw;
    let aln = al0 < 64;
    let al = if aln {
        al0 - 6
    } else {
        al0
    };
    let ah0 = 64 + (c.ac / 16) - (v / 16) - (if aln {
        1int
    } else {
        0int
    });
    let ahn = ah0 < 64;
    let b0 = c.sr.bits & 0x3c;
    let b1 = if diff % 256 == 0 {
        b0 | 0x02
    } else if ahn {
        b0 | 0x80
    } else {
        b0
    };
    let vset = ((c.ac >= 0x80) != (v >= 0x80)) && ((c.ac >= 0x80) != (diff % 256 >= 128));
    let b2 = if vset {
        b1 | 0x40
    } else {
        b1
    };
    let b3 = if diff < 256 {
        b2 | 0x01
    } else {
        b2
    };
    let ah = if ahn {
        ah0 - 6
    } else {
        ah0
    };
    let r = (((ah % 16) * 16) + (al % 16)) as u8;
    CPU { ac: r, sr: StatusRegister { bits: b3 }, ..c }
}

/// Subtract-with-borrow.  In binary mode it is exactly add-with-carry of the
/// complemented operand: `AC - v - (1 - C)` modulo 256, carry set when no
/// borrow occurred.
pub open spec fn spec_sbc(c: CPU, v: u8) -> CPU {
    if c.bcd_enabled && c.sr.bits & 0x08 == 0x08 {
        spec_sbc_bcd(c, v)
    } else {
        spec_adc_bin(c, (255 - v) as u8)
    }
}

/// Compare: `N` and `Z` from `r - v` modulo 256, carry set when no borrow
/// occurred (`r >= v`).  The registers stay unchanged.
pub open spec fn spec_cmp(c: CPU, r: u8, v: u8) -> CPU {
    let diff = (0x10000 + r - v) % 0x10000;
    let b1 = flags_nz(c.sr.bits, (diff % 256) as u8);
    let b2 = if diff < 256 {
        b1 | 0x01
    } else {
        b1 & 0xfe
    };
    CPU { sr: StatusRegister { bits: b2 }, ..c }
}

/// `(AC & X) - v` into X, with compare-style flags.
pub open spec fn spec_sbx(c: CPU, v: u8) -> CPU {
    let t = (0x10000 + (c.ac & c.x) - v) % 0x10000;
    let b1 = flags_nz(c.sr.bits, (t % 256) as u8);
    let b2 = if t < 256 {
        b1 | 0x01
    } else {
        b1 & 0xfe
    };
    CPU { x: (t % 256) as u8, sr: StatusRegister { bits: b2 }, ..c }
}

/// Arithmetic shift left of one byte: flags and shifted value.
pub open spec fn spec_asl(c: CPU, v: u8) -> (CPU, u8) {
    let r = ((v * 2) % 256) as u8;
    let b1 = flags_nz(c.sr.bits, r);
    let b2 = if v >= 0x80 {
        b1 | 0x01
    } else {
        b1 & 0xfe
    };
    (CPU { sr: StatusRegister { bits: b2 }, ..c }, r)
}

/// Logical shift right of one byte: flags and shifted value.
pub open spec fn spec_lsr(c: CPU, v: u8) -> (CPU, u8) {
    let r = (v / 2) as u8;
    let b1 = flags_nz(c.sr.bits, r);
    let b2 = if v % 2 == 1 {
        b1 | 0x01
    } else {
        b1 & 0xfe
    };
    (CPU { sr: StatusRegister { bits: b2 }, ..c }, r)
}

/// Rotate left through carry.
pub open spec fn spec_rol(c: CPU, v: u8) -> (CPU, u8) {
    let carry = c.sr.bits & 0x01 == 0x01;
    let b0 = c.sr.bits & 0x7c;
    let b1 = if v >= 0x80 {
        b0 | 0x01
    } else {
        b0
    };
    let r = (((v * 2) % 256) + (if carry {
        1int
    } else {
        0int
    })) as u8;
    let b2 = flags_nz(b1, r);
    (CPU { sr: StatusRegister { bits: b2 }, ..c }, r)
}

/// Rotate right through carry.
pub open spec fn spec_ror(c: CPU, v: u8) -> (CPU, u8) {
    let carry = c.sr.bits & 0x01 == 0x01;
    let b0 = c.sr.bits & 0x7c;
    let b1 = if v % 2 == 1 {
        b0 | 0x01
    } else {
        b0
    };
    let r = ((v / 2) + (if carry {
        128int
    } else {
        0int
    })) as u8;
    let b2 = flags_nz(b1, r);
    (CPU { sr: StatusRegister { bits: b2 }, ..c }, r)
}

/// The `ARR` tail: rotate the accumulator right through carry with its
/// peculiar flag rules, decimal-corrected when decimal mode is in force.
pub open spec fn spec_arr(c: CPU) -> CPU {
    let carry = c.sr.bits & 0x01 == 0x01;
    let b0 = c.sr.bits & 0x3c;
    let a = (c.ac / 2) + (if carry {
        128int
    } else {
        0int
    });
    if c.bcd_enabled && c.sr.bits & 0x08 == 0x08 {
        let b1 = flags_nz(b0, a as u8);
        let vset = (a / 64) % 2 != (c.ac / 64) % 2;
        let b2 = if vset {
            b1 | 0x40
        } else {
            b1
        };
        let a2 = if c.ac % 16 >= 5 {
            (a - (a % 16)) + ((a + 6) % 16)
        } else {
            a
        };
        let crossed = c.ac / 16 >= 5;
        let a3 = if crossed {
            (a2 + 0x60) % 256
        } else {
            a2
        };
        let b3 = if crossed {
            b2 | 0x01
        } else {
            b2
        };
        CPU { ac: a3 as u8, sr: StatusRegister { bits: b3 }, ..c }
    } else {
        let b1 = flags_nz(b0, a as u8);
        let b2 = if (a / 64) % 2 == 1 {
            b1 | 0x41
        } else {
            b1
        };
        let b3 = if (a / 32) % 2 == 1 {
            b2 ^ 0x40
        } else {
            b2
        };
        CPU { ac: a as u8, sr: StatusRegister { bits: b3 }, ..c }
    }
}

/// Bit test: `Z` from `AC & v`, `N` and `V` copied from bits 7 and 6 of the
/// operand.
pub open spec fn spec_bit(c: CPU, v: u8) -> CPU {
    let t = c.ac & v;
    let b0 = c.sr.bits & 0x3d;
    let b1 = if t == 0 {
        b0 | 0x02
    } else {
        b0
    };
    let b2 = b1 | (v & 0xc0);
    CPU { sr: StatusRegister { bits: b2 }, ..c }
}

impl CPU {
    /// Recompute `N` and `Z` from a result byte.
    pub fn nz(&mut self, value: u8)
        ensures
            *final(self) == (CPU {
                sr: StatusRegister { bits: flags_nz(old(self).sr.bits, value) },
                ..*old(self)
            }),
    {
        if value == 0 {
            self.sr.bits = (self.sr.bits & 0x7d) | 0x02;
        } else {
            self.sr.bits = (self.sr.bits & 0x7d) | (value & 0x80);
        }
    }

    /// Add `val` to the accumulator with carry, binary or decimal.
    pub fn adc(&mut self, val: u8)
        ensures
            *final(self) == spec_adc(*old(self), val),
    {
        if self.bcd_enabled && self.sr.contains(StatusRegister::D) {
            let cin: u16 = if self.sr.contains(StatusRegister::C) {
                1
            } else {
                0
            };
            let ac = self.ac;
            let al0: u16 = (ac % 16) as u16 + (val % 16) as u16 + cin;
            let al: u16 = if al0 > 9 {
                al0 + 6
            } else {
                al0
            };
            let ah0: u16 = (ac / 16) as u16 + (val / 16) as u16 + (if al0 > 9 {
                1
            } else {
                0
            });
            let bin: u16 = ac as u16 + val as u16 + cin;
            self.sr.bits = self.sr.bits & 0x3d;
            if bin % 256 == 0 {
                self.sr.insert(StatusRegister::Z);
            } else if ah0 >= 128 {
                self.sr.insert(StatusRegister::N);
            }
            if ((ac >= 0x80) == (val >= 0x80)) && ((ac >= 0x80) != ((ah0 * 16) % 256 >= 128)) {
                self.sr.insert(StatusRegister::V);
            }
            let ah: u16 = if ah0 > 9 {
                ah0 + 6
            } else {
                ah0
            };
            if ah > 15 {
                self.sr.insert(StatusRegister::C);
            }
            self.ac = (((ah % 16) * 16) + (al % 16)) as u8;
        } else {
            self.adc_bin(val);
        }
    }

    /// Binary add-with-carry.
    fn adc_bin(&mut self, val: u8)
        ensures
            *final(self) == spec_adc_bin(*old(self), val),
    {
        let cin: u16 = if self.sr.contains(StatusRegister::C) {
            1
        } else {
            0
        };
        let ac = self.ac;
        let sum: u16 = ac as u16 + val as u16 + cin;
        let r: u8 = (sum % 256) as u8;
        self.sr.bits = self.sr.bits & 0xbe;
        self.nz(r);
        if ((ac >= 0x80) == (val >= 0x80)) && ((ac >= 0x80) != (r >= 0x80)) {
            self.sr.insert(StatusRegister::V);
        }
        if sum > 0xff {
            self.sr.insert(StatusRegister::C);
        }
        self.ac = r;
    }

    /// Subtract `val` from the accumulator with borrow, binary or decimal.
    pub fn sbc(&mut self, val: u8)
        ensures
            *final(self) == spec_sbc(*old(self), val),
    {
        if self.bcd_enabled && self.sr.contains(StatusRegister::D) {
            let bw: u32 = if self.sr.contains(StatusRegister::C) {
                0
            } else {
                1
            };
            let ac = self.ac;
            let diff: u32 = (0x10000 + ac as u32 - val as u32 - bw) % 0x10000;
            let al0: u32 = 64 + (ac % 16) as u32 - (val % 16) as u32 - bw;
            let aln = al0 < 64;
            let al: u32 = if aln {
                al0 - 6
            } else {
                al0
            };
            let ah0: u32 = 64 + (ac / 16) as u32 - (val / 16) as u32 - (if aln {
                1
            } else {
                0
            });
            let ahn = ah0 < 64;
            self.sr.bits = self.sr.bits & 0x3c;
            if diff % 256 == 0 {
                self.sr.insert(StatusRegister::Z);
            } else if ahn {
                self.sr.insert(StatusRegister::N);
            }
            if ((ac >= 0x80) != (val >= 0x80)) && ((ac >= 0x80) != (diff % 256 >= 128)) {
                self.sr.insert(StatusRegister::V);
            }
            if diff < 256 {
                self.sr.insert(StatusRegister::C);
            }
            let ah: u32 = if ahn {
                ah0 - 6
            } else {
                ah0
            };
            self.ac = (((ah % 16) * 16) + (al % 16)) as u8;
        } else {
            self.adc_bin(255 - val);
        }
    }

    /// Compare a register value against an operand, compare-style flags.
    pub fn cmp(&mut self, r: u8, v: u8)
        ensures
            *final(self) == spec_cmp(*old(self), r, v),
    {
        let diff: u32 = (0x10000 + r as u32 - v as u32) % 0x10000;
        self.nz((diff % 256) as u8);
        if diff < 256 {
            self.sr.insert(StatusRegister::C);
        } else {
            self.sr.bits = self.sr.bits & 0xfe;
        }
    }

    /// `(AC & X) - v` into X, compare-style flags.
    pub fn sbx(&mut self, v: u8)
        ensures
            *final(self) == spec_sbx(*old(self), v),
    {
        let t: u32 = (0x10000 + (self.ac & self.x) as u32 - v as u32) % 0x10000;
        self.nz((t % 256) as u8);
        if t < 256 {
            self.sr.insert(StatusRegister::C);
        } else {
            self.sr.bits = self.sr.bits & 0xfe;
        }
        self.x = (t % 256) as u8;
    }

    /// Arithmetic shift left; returns the shifted byte.
    pub fn asl(&mut self, v: u8) -> (r: u8)
        ensures
            (*final(self), r) == spec_asl(*old(self), v),
    {
        let r: u8 = ((v as u16 * 2) % 256) as u8;
        self.nz(r);
        if v >= 0x80 {
            self.sr.insert(StatusRegister::C);
        } else {
            self.sr.bits = self.sr.bits & 0xfe;
        }
        r
    }

    /// Logical shift right; returns the shifted byte.
    pub fn lsr(&mut self, v: u8) -> (r: u8)
        ensures
            (*final(self), r) == spec_lsr(*old(self), v),
    {
        let r: u8 = v / 2;
        self.nz(r);
        if v % 2 == 1 {
            self.sr.insert(StatusRegister::C);
        } else {
            self.sr.bits = self.sr.bits & 0xfe;
        }
        r
    }

    /// Rotate left through carry; returns the rotated byte.
    pub fn rol(&mut self, v: u8) -> (r: u8)
        ensures
            (*final(self), r) == spec_rol(*old(self), v),
    {
        let carry = self.sr.contains(StatusRegister::C);
        self.sr.bits = self.sr.bits & 0x7c;
        if v >= 0x80 {
            self.sr.insert(StatusRegister::C);
        }
        let r: u8 = (((v as u16 * 2) % 256) + (if carry {
            1
        } else {
            0
        })) as u8;
        self.nz(r);
        r
    }

    /// Rotate right through carry; returns the rotated byte.
    pub fn ror(&mut self, v: u8) -> (r: u8)
        ensures
            (*final(self), r) == spec_ror(*old(self), v),
    {
        let carry = self.sr.contains(StatusRegister::C);
        self.sr.bits = self.sr.bits & 0x7c;
        if v % 2 == 1 {
            self.sr.insert(StatusRegister::C);
        }
        let r: u8 = (v / 2) + (if carry {
            128
        } else {
            0
        });
        self.nz(r);
        r
    }

    /// The `ARR` tail on the accumulator.
    pub fn arr(&mut self)
        ensures
            *final(self) == spec_arr(*old(self)),
    {
        let carry = self.sr.contains(StatusRegister::C);
        let ac = self.ac;
        let dec = self.bcd_enabled && self.sr.contains(StatusRegister::D);
        self.sr.bits = self.sr.bits & 0x3c;
        let a: u8 = (ac / 2) + (if carry {
            128
        } else {
            0
        });
        if dec {
            self.nz(a);
            if (a / 64) % 2 != (ac / 64) % 2 {
                self.sr.insert(StatusRegister::V);
            }
            let a2: u16 = if ac % 16 >= 5 {
                (a as u16 - (a as u16 % 16)) + ((a as u16 + 6) % 16)
            } else {
                a as u16
            };
            let crossed = ac / 16 >= 5;
            let a3: u16 = if crossed {
                (a2 + 0x60) % 256
            } else {
                a2
            };
            if crossed {
                self.sr.insert(StatusRegister::C);
            }
            self.ac = a3 as u8;
        } else {
            self.nz(a);
            if (a / 64) % 2 == 1 {
                self.sr.insert(0x41);
            }
            if (a / 32) % 2 == 1 {
                self.sr.toggle(StatusRegister::V);
            }
            self.ac = a;
        }
    }

    /// Bit test of the accumulator against an operand.
    pub fn bit(&mut self, v: u8)
        ensures
            *final(self) == spec_bit(*old(self), v),
    {
        let t = self.ac & v;
        self.sr.bits = self.sr.bits & 0x3d;
        if t == 0 {
            self.sr.insert(StatusRegister::Z);
        }
        self.sr.bits = self.sr.bits | (v & 0xc0);
    }
}


/// A 16-bit value reduced modulo 65536.
pub open spec fn w16(v: int) -> u16 {
    (v % 0x10000) as u16
}

/// A stack-pointer or register value reduced modulo 256.
pub open spec fn w8(v: int) -> u8 {
    (v % 256) as u8
}

/// One left shift of an interrupt pipeline, high bit discarded.
pub open spec fn pip_shl(v: u16) -> u16 {
    ((v % 0x8000) * 2) as u16
}

/// Pins driving the next opcode fetch: address at `pc`, `sync` asserted.
pub open spec fn spec_fetch(p: Pins, pc: u16) -> Pins {
    Pins { address: pc, sync: true, ..p }
}

/// How many cycles an addressing class spends forming its effective address
/// (before any page-cross shortcut).
pub open spec fn n_addr_steps(class: AddrClass) -> int {
    match class {
        AddrClass::NoOperand => 1,
        AddrClass::Imm => 1,
        AddrClass::Zp => 2,
        AddrClass::ZpX => 3,
        AddrClass::ZpY => 3,
        AddrClass::Abs => 3,
        AddrClass::AbsX => 4,
        AddrClass::AbsY => 4,
        AddrClass::IndX => 5,
        AddrClass::IndY => 5,
        AddrClass::JmpAbs => 0,
        AddrClass::JmpSub => 0,
        AddrClass::Halt => 0,
    }
}

/// The operations that read, write back unmodified, then write a modified
/// byte.
pub open spec fn is_rmw_kind(k: OpKind) -> bool {
    k == OpKind::Asl || k == OpKind::Lsr || k == OpKind::Rol || k == OpKind::Ror || k
        == OpKind::Dec || k == OpKind::Inc || k == OpKind::Slo || k == OpKind::Sre || k
        == OpKind::Rla || k == OpKind::Rra || k == OpKind::Dcp || k == OpKind::Isb
}

/// The operations that only store a byte at the effective address.
pub open spec fn is_store_kind(k: OpKind) -> bool {
    k == OpKind::Sta || k == OpKind::Stx || k == OpKind::Sty || k == OpKind::Sax || k
        == OpKind::Sha || k == OpKind::Shx || k == OpKind::Shy || k == OpKind::Shs
}

/// The operations whose whole micro-sequence is written out by hand rather
/// than composed from an addressing prelude.
pub open spec fn is_custom_kind(k: OpKind) -> bool {
    k == OpKind::Brk || k == OpKind::Php || k == OpKind::Pha || k == OpKind::Plp || k
        == OpKind::Pla || k == OpKind::Rts || k == OpKind::Rti || k == OpKind::Jsr || k
        == OpKind::Jmp || k == OpKind::Jmpi || k == OpKind::Jam || (k is Branch)
}

/// How many micro-steps an opcode defines; its sub-cycle counter stays below
/// this bound.
pub open spec fn steps_of(op: u8) -> int {
    let kind = op_kind(op);
    let class = bus_mode(op).0;
    match kind {
        OpKind::Brk => 7,
        OpKind::Php => 3,
        OpKind::Pha => 3,
        OpKind::Plp => 4,
        OpKind::Pla => 4,
        OpKind::Rts => 6,
        OpKind::Rti => 6,
        OpKind::Jsr => 6,
        OpKind::Jmp => 3,
        OpKind::Jmpi => 5,
        OpKind::Jam => 2,
        OpKind::Branch(_, _) => 4,
        _ => if is_rmw_kind(kind) {
            n_addr_steps(class) + 3
        } else {
            n_addr_steps(class) + 1
        },
    }
}

/// The in-flight instruction state is within its opcode's defined window.
pub open spec fn ir_in_range(c: CPU) -> bool {
    c.ir % 8 < steps_of((c.ir / 8) as u8)
}

/// One cycle of an addressing prelude: which address is driven and how the
/// scratch latch, program counter and sub-cycle counter move.
pub open spec fn spec_addr_step(c: CPU, p: Pins, class: AddrClass, access: MemAccess, st: int) -> (
    CPU,
    Pins,
) {
    match class {
        AddrClass::NoOperand => (c, Pins { address: c.pc, ..p }),
        AddrClass::Imm => (CPU { pc: w16(c.pc + 1), ..c }, Pins { address: c.pc, ..p }),
        AddrClass::Zp => if st == 0 {
            (CPU { pc: w16(c.pc + 1), ..c }, Pins { address: c.pc, ..p })
        } else {
            (c, Pins { address: p.data as u16, ..p })
        },
        AddrClass::ZpX => if st == 0 {
            (CPU { pc: w16(c.pc + 1), ..c }, Pins { address: c.pc, ..p })
        } else if st == 1 {
            (CPU { adl_adh: p.data as u16, ..c }, Pins { address: p.data as u16, ..p })
        } else {
            (c, Pins { address: (((c.adl_adh % 256) + c.x) % 256) as u16, ..p })
        },
        AddrClass::ZpY => if st == 0 {
            (CPU { pc: w16(c.pc + 1), ..c }, Pins { address: c.pc, ..p })
        } else if st == 1 {
            (CPU { adl_adh: p.data as u16, ..c }, Pins { address: p.data as u16, ..p })
        } else {
            (c, Pins { address: (((c.adl_adh % 256) + c.y) % 256) as u16, ..p })
        },
        AddrClass::Abs => if st == 0 {
            (CPU { pc: w16(c.pc + 1), ..c }, Pins { address: c.pc, ..p })
        } else if st == 1 {
            (
                CPU { pc: w16(c.pc + 1), adl_adh: p.data as u16, ..c },
                Pins { address: c.pc, ..p },
            )
        } else {
            (c, Pins { address: (p.data * 256 + (c.adl_adh % 256)) as u16, ..p })
        },
        AddrClass::AbsX => if st == 0 {
            (CPU { pc: w16(c.pc + 1), ..c }, Pins { address: c.pc, ..p })
        } else if st == 1 {
            (
                CPU { pc: w16(c.pc + 1), adl_adh: p.data as u16, ..c },
                Pins { address: c.pc, ..p },
            )
        } else if st == 2 {
            spec_indexed_spec(c, p, c.x, access)
        } else {
            spec_indexed_fixup(c, p, c.x)
        },
        AddrClass::AbsY => if st == 0 {
            (CPU { pc: w16(c.pc + 1), ..c }, Pins { address: c.pc, ..p })
        } else if st == 1 {
            (
                CPU { pc: w16(c.pc + 1), adl_adh: p.data as u16, ..c },
                Pins { address: c.pc, ..p },
            )
        } else if st == 2 {
            spec_indexed_spec(c, p, c.y, access)
        } else {
            spec_indexed_fixup(c, p, c.y)
        },
        AddrClass::IndX => if st == 0 {
            (CPU { pc: w16(c.pc + 1), ..c }, Pins { address: c.pc, ..p })
        } else if st == 1 {
            (CPU { adl_adh: p.data as u16, ..c }, Pins { address: p.data as u16, ..p })
        } else if st == 2 {
            let zz = (((c.adl_adh % 256) + c.x) % 256) as u16;
            (CPU { adl_adh: zz, ..c }, Pins { address: zz, ..p })
        } else if st == 3 {
            (
                CPU { adl_adh: p.data as u16, ..c },
                Pins { address: (((c.adl_adh % 256) + 1) % 256) as u16, ..p },
            )
        } else {
            (c, Pins { address: (p.data * 256 + (c.adl_adh % 256)) as u16, ..p })
        },
        AddrClass::IndY => if st == 0 {
            (CPU { pc: w16(c.pc + 1), ..c }, Pins { address: c.pc, ..p })
        } else if st == 1 {
            (CPU { adl_adh: p.data as u16, ..c }, Pins { address: p.data as u16, ..p })
        } else if st == 2 {
            (
                CPU { adl_adh: p.data as u16, ..c },
                Pins { address: (((c.adl_adh % 256) + 1) % 256) as u16, ..p },
            )
        } else if st == 3 {
            spec_indexed_spec(c, p, c.y, access)
        } else {
            spec_indexed_fixup(c, p, c.y)
        },
        AddrClass::JmpAbs => (c, p),
        AddrClass::JmpSub => (c, p),
        AddrClass::Halt => (c, p),
    }
}

/// The page-check cycle shared by the indexed absolute and indirect-indexed
/// classes: latch the high byte, drive the speculative address within the
/// base page, and skip the fixup cycle on a read that does not cross a page.
pub open spec fn spec_indexed_spec(c: CPU, p: Pins, idx: u8, access: MemAccess) -> (CPU, Pins) {
    let base = ((c.adl_adh % 256) + p.data * 256) as u16;
    let ea = w16(base + idx);
    let skip = access == MemAccess::MemR && base / 256 == ea / 256;
    (
        CPU {
            adl_adh: base,
            ir: if skip {
                w16(c.ir + 1)
            } else {
                c.ir
            },
            ..c
        },
        Pins { address: ((base / 256) * 256 + (ea % 256)) as u16, ..p },
    )
}

/// The page-cross fixup cycle: drive the corrected effective address.
pub open spec fn spec_indexed_fixup(c: CPU, p: Pins, idx: u8) -> (CPU, Pins) {
    (c, Pins { address: w16(c.adl_adh + idx), ..p })
}


/// The register and flag effect of a one-cycle operation, applied on the
/// cycle that also fetches the next opcode.
pub open spec fn spec_single(c: CPU, p: Pins, kind: OpKind) -> CPU {
    match kind {
        OpKind::Lda => CPU {
            ac: p.data,
            sr: StatusRegister { bits: flags_nz(c.sr.bits, p.data) },
            ..c
        },
        OpKind::Ldx => CPU {
            x: p.data,
            sr: StatusRegister { bits: flags_nz(c.sr.bits, p.data) },
            ..c
        },
        OpKind::Ldy => CPU {
            y: p.data,
            sr: StatusRegister { bits: flags_nz(c.sr.bits, p.data) },
            ..c
        },
        OpKind::Lax => CPU {
            ac: p.data,
            x: p.data,
            sr: StatusRegister { bits: flags_nz(c.sr.bits, p.data) },
            ..c
        },
        OpKind::Lxa => {
            let z = (c.ac | 0xee) & p.data;
            CPU { ac: z, x: z, sr: StatusRegister { bits: flags_nz(c.sr.bits, z) }, ..c }
        },
        OpKind::Tax => CPU { x: c.ac, sr: StatusRegister { bits: flags_nz(c.sr.bits, c.ac) }, ..c },
        OpKind::Tay => CPU { y: c.ac, sr: StatusRegister { bits: flags_nz(c.sr.bits, c.ac) }, ..c },
        OpKind::Txa => CPU { ac: c.x, sr: StatusRegister { bits: flags_nz(c.sr.bits, c.x) }, ..c },
        OpKind::Tya => CPU { ac: c.y, sr: StatusRegister { bits: flags_nz(c.sr.bits, c.y) }, ..c },
        OpKind::Txs => CPU { sp: c.x, ..c },
        OpKind::Tsx => CPU { x: c.sp, sr: StatusRegister { bits: flags_nz(c.sr.bits, c.sp) }, ..c },
        OpKind::Dex => {
            let r = w8(c.x + 255);
            CPU { x: r, sr: StatusRegister { bits: flags_nz(c.sr.bits, r) }, ..c }
        },
        OpKind::Dey => {
            let r = w8(c.y + 255);
            CPU { y: r, sr: StatusRegister { bits: flags_nz(c.sr.bits, r) }, ..c }
        },
        OpKind::Inx => {
            let r = w8(c.x + 1);
            CPU { x: r, sr: StatusRegister { bits: flags_nz(c.sr.bits, r) }, ..c }
        },
        OpKind::Iny => {
            let r = w8(c.y + 1);
            CPU { y: r, sr: StatusRegister { bits: flags_nz(c.sr.bits, r) }, ..c }
        },
        OpKind::SetF(m) => CPU { sr: StatusRegister { bits: c.sr.bits | m }, ..c },
        OpKind::ClearF(m) => CPU { sr: StatusRegister { bits: c.sr.bits & !m }, ..c },
        OpKind::Ora => {
            let r = c.ac | p.data;
            CPU { ac: r, sr: StatusRegister { bits: flags_nz(c.sr.bits, r) }, ..c }
        },
        OpKind::And => {
            let r = c.ac & p.data;
            CPU { ac: r, sr: StatusRegister { bits: flags_nz(c.sr.bits, r) }, ..c }
        },
        OpKind::Eor => {
            let r = c.ac ^ p.data;
            CPU { ac: r, sr: StatusRegister { bits: flags_nz(c.sr.bits, r) }, ..c }
        },
        OpKind::Adc => spec_adc(c, p.data),
        OpKind::Sbc => spec_sbc(c, p.data),
        OpKind::Cmp => spec_cmp(c, c.ac, p.data),
        OpKind::Cpx => spec_cmp(c, c.x, p.data),
        OpKind::Cpy => spec_cmp(c, c.y, p.data),
        OpKind::Sbx => spec_sbx(c, p.data),
        OpKind::Anc => {
            let a = c.ac & p.data;
            let b1 = flags_nz(c.sr.bits, a);
            let b2 = if a >= 0x80 {
                b1 | 0x01
            } else {
                b1 & 0xfe
            };
            CPU { ac: a, sr: StatusRegister { bits: b2 }, ..c }
        },
        OpKind::Alr => {
            let a = c.ac & p.data;
            let cr = spec_lsr(CPU { ac: a, ..c }, a);
            CPU { ac: cr.1, ..cr.0 }
        },
        OpKind::Arr => spec_arr(CPU { ac: c.ac & p.data, ..c }),
        OpKind::Ane => {
            let z = (c.ac | 0xee) & c.x & p.data;
            CPU { ac: z, sr: StatusRegister { bits: flags_nz(c.sr.bits, z) }, ..c }
        },
        OpKind::Las => {
            let z = p.data & c.sp;
            CPU { ac: z, x: z, sp: z, sr: StatusRegister { bits: flags_nz(c.sr.bits, z) }, ..c }
        },
        OpKind::Asla => {
            let cr = spec_asl(c, c.ac);
            CPU { ac: cr.1, ..cr.0 }
        },
        OpKind::Lsra => {
            let cr = spec_lsr(c, c.ac);
            CPU { ac: cr.1, ..cr.0 }
        },
        OpKind::Rola => {
            let cr = spec_rol(c, c.ac);
            CPU { ac: cr.1, ..cr.0 }
        },
        OpKind::Rora => {
            let cr = spec_ror(c, c.ac);
            CPU { ac: cr.1, ..cr.0 }
        },
        OpKind::Bit => spec_bit(c, p.data),
        _ => c,
    }
}

/// The byte a store operation drives onto the data bus, given the effective
/// address already on the address bus.
pub open spec fn spec_store_value(c: CPU, addr: u16, kind: OpKind) -> u8 {
    let hb = w8(addr / 256 + 1);
    match kind {
        OpKind::Sta => c.ac,
        OpKind::Stx => c.x,
        OpKind::Sty => c.y,
        OpKind::Sax => c.ac & c.x,
        OpKind::Sha => c.ac & c.x & hb,
        OpKind::Shx => c.x & hb,
        OpKind::Shy => c.y & hb,
        OpKind::Shs => (c.ac & c.x) & hb,
        _ => 0,
    }
}

/// The first read-modify-write cycle: latch the byte just read and write it
/// straight back.
pub open spec fn spec_rmw_first(c: CPU, p: Pins) -> (CPU, Pins) {
    (CPU { adl_adh: p.data as u16, ..c }, Pins { rw: ReadWrite::Write, ..p })
}

/// The second read-modify-write cycle: write the modified byte, with the
/// operation's register and flag effects.
pub open spec fn spec_rmw_second(c: CPU, p: Pins, kind: OpKind) -> (CPU, Pins) {
    let v = w8(c.adl_adh as int);
    match kind {
        OpKind::Dec => {
            let m = w8(v + 255);
            (
                CPU {
                    adl_adh: m as u16,
                    sr: StatusRegister { bits: flags_nz(c.sr.bits, m) },
                    ..c
                },
                Pins { data: m, rw: ReadWrite::Write, ..p },
            )
        },
        OpKind::Inc => {
            let m = w8(v + 1);
            (
                CPU {
                    adl_adh: m as u16,
                    sr: StatusRegister { bits: flags_nz(c.sr.bits, m) },
                    ..c
                },
                Pins { data: m, rw: ReadWrite::Write, ..p },
            )
        },
        OpKind::Dcp => {
            let m = w8(v + 255);
            let c1 = CPU {
                adl_adh: m as u16,
                sr: StatusRegister { bits: flags_nz(c.sr.bits, m) },
                ..c
            };
            (spec_cmp(c1, c1.ac, m), Pins { data: m, rw: ReadWrite::Write, ..p })
        },
        OpKind::Isb => {
            let m = w8(v + 1);
            (
                spec_sbc(CPU { adl_adh: m as u16, ..c }, m),
                Pins { data: m, rw: ReadWrite::Write, ..p },
            )
        },
        OpKind::Asl => {
            let cr = spec_asl(c, v);
            (cr.0, Pins { data: cr.1, rw: ReadWrite::Write, ..p })
        },
        OpKind::Lsr => {
            let cr = spec_lsr(c, v);
            (cr.0, Pins { data: cr.1, rw: ReadWrite::Write, ..p })
        },
        OpKind::Rol => {
            let cr = spec_rol(c, v);
            (cr.0, Pins { data: cr.1, rw: ReadWrite::Write, ..p })
        },
        OpKind::Ror => {
            let cr = spec_ror(c, v);
            (cr.0, Pins { data: cr.1, rw: ReadWrite::Write, ..p })
        },
        OpKind::Slo => {
            let cr = spec_asl(c, v);
            let a = cr.0.ac | cr.1;
            (
                CPU {
                    adl_adh: cr.1 as u16,
                    ac: a,
                    sr: StatusRegister { bits: flags_nz(cr.0.sr.bits, a) },
                    ..cr.0
                },
                Pins { data: cr.1, rw: ReadWrite::Write, ..p },
            )
        },
        OpKind::Sre => {
            let cr = spec_lsr(c, v);
            let a = cr.0.ac ^ cr.1;
            (
                CPU {
                    adl_adh: cr.1 as u16,
                    ac: a,
                    sr: StatusRegister { bits: flags_nz(cr.0.sr.bits, a) },
                    ..cr.0
                },
                Pins { data: cr.1, rw: ReadWrite::Write, ..p },
            )
        },
        OpKind::Rla => {
            let cr = spec_rol(c, v);
            let a = cr.0.ac & cr.1;
            (
                CPU {
                    adl_adh: cr.1 as u16,
                    ac: a,
                    sr: StatusRegister { bits: flags_nz(cr.0.sr.bits, a) },
                    ..cr.0
                },
                Pins { data: cr.1, rw: ReadWrite::Write, ..p },
            )
        },
        OpKind::Rra => {
            let cr = spec_ror(c, v);
            (
                spec_adc(CPU { adl_adh: cr.1 as u16, ..cr.0 }, cr.1),
                Pins { data: cr.1, rw: ReadWrite::Write, ..p },
            )
        },
        _ => (c, p),
    }
}

/// The seven-cycle `BRK` sequence, shared by the `BRK` opcode and every
/// interrupt and reset entry.  On reset the three stack pushes are
/// suppressed (the bus stays in read); the pushed status byte carries `B`
/// set for a software break and clear while an interrupt is serviced.
pub open spec fn spec_brk_step(c: CPU, p: Pins, st: int) -> (CPU, Pins) {
    let reset = c.brk_flags.bits & 0x04 == 0x04;
    let rw = if reset {
        ReadWrite::Read
    } else {
        ReadWrite::Write
    };
    if st == 0 {
        (c, Pins { address: c.pc, ..p })
    } else if st == 1 {
        let pc1 = if !(c.brk_flags.bits & 0x02 == 0x02) && !(c.brk_flags.bits & 0x01 == 0x01) {
            w16(c.pc + 1)
        } else {
            c.pc
        };
        (
            CPU { pc: pc1, sp: w8(c.sp + 255), ..c },
            Pins { address: (0x100 + c.sp) as u16, data: (pc1 / 256) as u8, rw, ..p },
        )
    } else if st == 2 {
        (
            CPU { sp: w8(c.sp + 255), ..c },
            Pins { address: (0x100 + c.sp) as u16, data: (c.pc % 256) as u8, rw, ..p },
        )
    } else if st == 3 {
        let serviced = c.brk_flags.bits & 0x01 == 0x01 || c.brk_flags.bits & 0x02 == 0x02;
        let pushed = if serviced {
            (c.sr.bits | 0x20) & 0xef
        } else {
            c.sr.bits | 0x30
        };
        let vector: u16 = if reset {
            0xfffc
        } else if c.brk_flags.bits & 0x02 == 0x02 {
            0xfffa
        } else {
            0xfffe
        };
        (
            CPU { sp: w8(c.sp + 255), adl_adh: vector, ..c },
            Pins { address: (0x100 + c.sp) as u16, data: pushed, rw, ..p },
        )
    } else if st == 4 {
        (
            CPU {
                adl_adh: w16(c.adl_adh + 1),
                sr: StatusRegister { bits: c.sr.bits | 0x04 },
                brk_flags: BreakFlags { bits: 0 },
                ..c
            },
            Pins { address: c.adl_adh, ..p },
        )
    } else if st == 5 {
        (CPU { adl_adh: p.data as u16, ..c }, Pins { address: c.adl_adh, ..p })
    } else {
        let pc1 = (p.data * 256 + (c.adl_adh % 256)) as u16;
        (CPU { pc: pc1, ..c }, spec_fetch(p, pc1))
    }
}

/// One cycle of a conditional branch: test, speculative same-page target,
/// and the extra page-cross cycle.  A taken branch that stays in the page
/// shifts both interrupt pipelines right, reproducing the hardware quirk
/// that a taken branch inhibits interrupt sampling for one cycle.
pub open spec fn spec_branch_step(c: CPU, p: Pins, mask: u8, want: bool, st: int) -> (CPU, Pins) {
    if st == 0 {
        (CPU { pc: w16(c.pc + 1), ..c }, Pins { address: c.pc, ..p })
    } else if st == 1 {
        let off = if p.data >= 0x80 {
            p.data + 0xff00
        } else {
            p.data + 0
        };
        let target = w16(c.pc + off);
        let taken = (c.sr.bits & mask == mask) == want;
        let c1 = CPU { adl_adh: target, ..c };
        if taken {
            (c1, Pins { address: c.pc, ..p })
        } else {
            (c1, spec_fetch(Pins { address: c.pc, ..p }, c.pc))
        }
    } else if st == 2 {
        let spec_addr = ((c.pc / 256) * 256 + (c.adl_adh % 256)) as u16;
        if c.adl_adh / 256 == c.pc / 256 {
            (
                CPU {
                    pc: c.adl_adh,
                    irq_pip: (c.irq_pip / 2) as u16,
                    nmi_pip: (c.nmi_pip / 2) as u16,
                    ..c
                },
                spec_fetch(Pins { address: spec_addr, ..p }, c.adl_adh),
            )
        } else {
            (c, Pins { address: spec_addr, ..p })
        }
    } else {
        (CPU { pc: c.adl_adh, ..c }, spec_fetch(p, c.adl_adh))
    }
}

/// One cycle of the hand-written stack, jump and jam sequences.
pub open spec fn spec_custom_step(c: CPU, p: Pins, kind: OpKind, st: int) -> (CPU, Pins) {
    let stack: u16 = (0x100 + c.sp) as u16;
    match kind {
        OpKind::Brk => spec_brk_step(c, p, st),
        OpKind::Branch(m, w) => spec_branch_step(c, p, m, w, st),
        OpKind::Php => if st == 0 {
            (c, Pins { address: c.pc, ..p })
        } else if st == 1 {
            (
                CPU { sp: w8(c.sp + 255), ..c },
                Pins { address: stack, data: c.sr.bits | 0x30, rw: ReadWrite::Write, ..p },
            )
        } else {
            (c, spec_fetch(p, c.pc))
        },
        OpKind::Pha => if st == 0 {
            (c, Pins { address: c.pc, ..p })
        } else if st == 1 {
            (
                CPU { sp: w8(c.sp + 255), ..c },
                Pins { address: stack, data: c.ac, rw: ReadWrite::Write, ..p },
            )
        } else {
            (c, spec_fetch(p, c.pc))
        },
        OpKind::Plp => if st == 0 {
            (c, Pins { address: c.pc, ..p })
        } else if st == 1 {
            (CPU { sp: w8(c.sp + 1), ..c }, Pins { address: stack, ..p })
        } else if st == 2 {
            (c, Pins { address: stack, ..p })
        } else {
            (
                CPU { sr: StatusRegister { bits: p.data & 0xcf }, ..c },
                spec_fetch(p, c.pc),
            )
        },
        OpKind::Pla => if st == 0 {
            (c, Pins { address: c.pc, ..p })
        } else if st == 1 {
            (CPU { sp: w8(c.sp + 1), ..c }, Pins { address: stack, ..p })
        } else if st == 2 {
            (c, Pins { address: stack, ..p })
        } else {
            (
                CPU {
                    ac: p.data,
                    sr: StatusRegister { bits: flags_nz(c.sr.bits, p.data) },
                    ..c
                },
                spec_fetch(p, c.pc),
            )
        },
        OpKind::Rts => if st == 0 {
            (c, Pins { address: c.pc, ..p })
        } else if st == 1 || st == 2 {
            (CPU { sp: w8(c.sp + 1), ..c }, Pins { address: stack, ..p })
        } else if st == 3 {
            (CPU { adl_adh: p.data as u16, ..c }, Pins { address: stack, ..p })
        } else if st == 4 {
            let pc1 = (p.data * 256 + (c.adl_adh % 256)) as u16;
            (CPU { pc: w16(pc1 + 1), ..c }, Pins { address: pc1, ..p })
        } else {
            (c, spec_fetch(p, c.pc))
        },
        OpKind::Rti => if st == 0 {
            (c, Pins { address: c.pc, ..p })
        } else if st == 1 || st == 2 {
            (CPU { sp: w8(c.sp + 1), ..c }, Pins { address: stack, ..p })
        } else if st == 3 {
            (
                CPU { sp: w8(c.sp + 1), sr: StatusRegister { bits: p.data & 0xcf }, ..c },
                Pins { address: stack, ..p },
            )
        } else if st == 4 {
            (CPU { adl_adh: p.data as u16, ..c }, Pins { address: stack, ..p })
        } else {
            let pc1 = (p.data * 256 + (c.adl_adh % 256)) as u16;
            (CPU { pc: pc1, ..c }, spec_fetch(p, pc1))
        },
        OpKind::Jsr => if st == 0 {
            (CPU { pc: w16(c.pc + 1), ..c }, Pins { address: c.pc, ..p })
        } else if st == 1 {
            (CPU { adl_adh: p.data as u16, ..c }, Pins { address: stack, ..p })
        } else if st == 2 {
            (
                CPU { sp: w8(c.sp + 255), ..c },
                Pins { address: stack, data: (c.pc / 256) as u8, rw: ReadWrite::Write, ..p },
            )
        } else if st == 3 {
            (
                CPU { sp: w8(c.sp + 255), ..c },
                Pins { address: stack, data: (c.pc % 256) as u8, rw: ReadWrite::Write, ..p },
            )
        } else if st == 4 {
            (c, Pins { address: c.pc, ..p })
        } else {
            let pc1 = (p.data * 256 + (c.adl_adh % 256)) as u16;
            (CPU { pc: pc1, ..c }, spec_fetch(p, pc1))
        },
        OpKind::Jmp => if st == 0 {
            (CPU { pc: w16(c.pc + 1), ..c }, Pins { address: c.pc, ..p })
        } else if st == 1 {
            (
                CPU { pc: w16(c.pc + 1), adl_adh: p.data as u16, ..c },
                Pins { address: c.pc, ..p },
            )
        } else {
            let pc1 = (p.data * 256 + (c.adl_adh % 256)) as u16;
            (CPU { pc: pc1, ..c }, spec_fetch(p, pc1))
        },
        OpKind::Jmpi => if st == 0 {
            (CPU { pc: w16(c.pc + 1), ..c }, Pins { address: c.pc, ..p })
        } else if st == 1 {
            (
                CPU { pc: w16(c.pc + 1), adl_adh: p.data as u16, ..c },
                Pins { address: c.pc, ..p },
            )
        } else if st == 2 {
            let ptr = ((c.adl_adh % 256) + p.data * 256) as u16;
            (CPU { adl_adh: ptr, ..c }, Pins { address: ptr, ..p })
        } else if st == 3 {
            let hi_addr = ((c.adl_adh / 256) * 256 + ((c.adl_adh + 1) % 256)) as u16;
            (CPU { adl_adh: p.data as u16, ..c }, Pins { address: hi_addr, ..p })
        } else {
            let pc1 = (p.data * 256 + (c.adl_adh % 256)) as u16;
            (CPU { pc: pc1, ..c }, spec_fetch(p, pc1))
        },
        OpKind::Jam => if st == 0 {
            (c, Pins { address: c.pc, ..p })
        } else {
            (
                CPU { ir: ((c.ir + 0xffff) % 0x10000) as u16, ..c },
                Pins { address: 0xffff, data: 0xff, ..p },
            )
        },
        _ => (c, p),
    }
}

/// One micro-step of the in-flight opcode: the heart of the state machine.
#[verifier::opaque]
pub open spec fn spec_step(c: CPU, p: Pins) -> (CPU, Pins) {
    let op = (c.ir / 8) as u8;
    let st = c.ir % 8;
    let kind = op_kind(op);
    let class = bus_mode(op).0;
    let access = bus_mode(op).1;
    if is_custom_kind(kind) {
        spec_custom_step(c, p, kind, st as int)
    } else {
        let na = n_addr_steps(class);
        if is_store_kind(kind) {
            if st < na - 1 {
                spec_addr_step(c, p, class, access, st as int)
            } else if st == na - 1 {
                let cp = spec_addr_step(c, p, class, access, st as int);
                let c1 = cp.0;
                let p1 = cp.1;
                let value = spec_store_value(c1, p1.address, kind);
                let c2 = if kind == OpKind::Shs {
                    CPU { sp: c1.ac & c1.x, ..c1 }
                } else {
                    c1
                };
                (c2, Pins { data: value, rw: ReadWrite::Write, ..p1 })
            } else {
                (c, spec_fetch(p, c.pc))
            }
        } else if is_rmw_kind(kind) {
            if st < na {
                spec_addr_step(c, p, class, access, st as int)
            } else if st == na {
                spec_rmw_first(c, p)
            } else if st == na + 1 {
                spec_rmw_second(c, p, kind)
            } else {
                (c, spec_fetch(p, c.pc))
            }
        } else {
            if st < na {
                spec_addr_step(c, p, class, access, st as int)
            } else {
                let c1 = spec_single(c, p, kind);
                (c1, spec_fetch(p, c1.pc))
            }
        }
    }
}

/// The latch performed on a sync cycle: the data bus byte becomes the new
/// opcode, pending interrupts are committed, and the program counter
/// advances past the opcode unless an interrupt hijacks the slot (then the
/// `BRK` sequence runs with `B` cleared and the reset line acknowledged).
pub open spec fn spec_sync_latch(c: CPU, p: Pins) -> (CPU, Pins) {
    let p1 = Pins { sync: false, ..p };
    let bf0 = c.brk_flags.bits;
    let bf1 = if c.irq_pip & 4 == 4 && !(c.sr.bits & 0x04 == 0x04) {
        bf0 | 0x01
    } else {
        bf0
    };
    let bf2 = if c.nmi_pip & 0xfffc != 0 {
        bf1 | 0x02
    } else {
        bf1
    };
    let bf3 = if p.res {
        bf2 | 0x04
    } else {
        bf2
    };
    let c1 = CPU {
        ir: (p.data * 8) as u16,
        irq_pip: c.irq_pip & 3,
        nmi_pip: c.nmi_pip & 3,
        brk_flags: BreakFlags { bits: bf3 },
        ..c
    };
    if bf3 == 0 {
        (CPU { pc: w16(c1.pc + 1), ..c1 }, p1)
    } else {
        (
            CPU { ir: 0, sr: StatusRegister { bits: c1.sr.bits & 0xef }, ..c1 },
            Pins { res: false, ..p1 },
        )
    }
}

/// One full bus cycle: sample the interrupt lines, honour a `rdy` stall,
/// latch a new opcode on a sync cycle, run one micro-step, and advance the
/// sub-cycle counter and the interrupt pipelines.  The result is a function
/// of the previous processor state and the incoming pins alone.
#[verifier::opaque]
pub open spec fn spec_tick(c: CPU, p: Pins) -> (CPU, Pins) {
    let c1 = if !c.pins.nmi && p.nmi {
        CPU { nmi_pip: c.nmi_pip | 1, ..c }
    } else {
        c
    };
    let c2 = if p.irq && !(c1.sr.bits & 0x04 == 0x04) {
        CPU { irq_pip: c1.irq_pip | 1, ..c1 }
    } else {
        c1
    };
    if p.rw == ReadWrite::Read && p.rdy {
        (CPU { pins: p, irq_pip: pip_shl(c2.irq_pip), ..c2 }, p)
    } else {
        let cp3 = if p.sync {
            spec_sync_latch(c2, p)
        } else {
            (c2, p)
        };
        let p4 = Pins { rw: ReadWrite::Read, ..cp3.1 };
        let cp5 = spec_step(cp3.0, p4);
        let c6 = CPU {
            ir: w16(cp5.0.ir + 1),
            pins: cp5.1,
            irq_pip: pip_shl(cp5.0.irq_pip),
            nmi_pip: pip_shl(cp5.0.nmi_pip),
            ..cp5.0
        };
        (c6, cp5.1)
    }
}


/// Drive the address bus.
pub fn sa(pins: &mut Pins, addr: u16)
    ensures
        *final(pins) == (Pins { address: addr, ..*old(pins) }),
{
    pins.address = addr;
}

/// Read the address bus.
pub fn ga(pins: &Pins) -> (r: u16)
    ensures
        r == pins.address,
{
    pins.address
}

/// Drive the address and data buses.
pub fn sad(pins: &mut Pins, addr: u16, data: u8)
    ensures
        *final(pins) == (Pins { address: addr, data, ..*old(pins) }),
{
    pins.address = addr;
    pins.data = data;
}

/// Drive the data bus.
pub fn sd(pins: &mut Pins, data: u8)
    ensures
        *final(pins) == (Pins { data, ..*old(pins) }),
{
    pins.data = data;
}

/// Read the data bus.
pub fn gd(pins: &Pins) -> (r: u8)
    ensures
        r == pins.data,
{
    pins.data
}

/// Assert one of the boolean control lines.
pub fn on(pins: &mut Pins, x: PinFlags)
    ensures
        *final(pins) == (match x {
            PinFlags::Sync => Pins { sync: true, ..*old(pins) },
            PinFlags::Irq => Pins { irq: true, ..*old(pins) },
            PinFlags::Rdy => Pins { rdy: true, ..*old(pins) },
            PinFlags::Aec => Pins { aec: true, ..*old(pins) },
            PinFlags::Res => Pins { res: true, ..*old(pins) },
        }),
{
    match x {
        PinFlags::Sync => pins.sync = true,
        PinFlags::Irq => pins.irq = true,
        PinFlags::Rdy => pins.rdy = true,
        PinFlags::Aec => pins.aec = true,
        PinFlags::Res => pins.res = true,
    }
}

/// Release one of the boolean control lines.
pub fn off(pins: &mut Pins, x: PinFlags)
    ensures
        *final(pins) == (match x {
            PinFlags::Sync => Pins { sync: false, ..*old(pins) },
            PinFlags::Irq => Pins { irq: false, ..*old(pins) },
            PinFlags::Rdy => Pins { rdy: false, ..*old(pins) },
            PinFlags::Aec => Pins { aec: false, ..*old(pins) },
            PinFlags::Res => Pins { res: false, ..*old(pins) },
        }),
{
    match x {
        PinFlags::Sync => pins.sync = false,
        PinFlags::Irq => pins.irq = false,
        PinFlags::Rdy => pins.rdy = false,
        PinFlags::Aec => pins.aec = false,
        PinFlags::Res => pins.res = false,
    }
}

/// Mark the cycle as a read.
pub fn rd(pins: &mut Pins)
    ensures
        *final(pins) == (Pins { rw: ReadWrite::Read, ..*old(pins) }),
{
    pins.rw = ReadWrite::Read;
}

/// Mark the cycle as a write.
pub fn wr(pins: &mut Pins)
    ensures
        *final(pins) == (Pins { rw: ReadWrite::Write, ..*old(pins) }),
{
    pins.rw = ReadWrite::Write;
}

/// Drive the next opcode fetch: address at `pc`, `sync` asserted.
pub fn fetch(pins: &mut Pins, pc: u16)
    ensures
        *final(pins) == spec_fetch(*old(pins), pc),
{
    pins.address = pc;
    pins.sync = true;
}

/// Increment modulo 65536.
fn inc16(v: u16) -> (r: u16)
    ensures
        r == w16(v + 1),
{
    if v == 0xffff {
        0
    } else {
        v + 1
    }
}

/// Add modulo 65536.
fn wadd16(a: u16, b: u16) -> (r: u16)
    ensures
        r == w16(a + b),
{
    ((a as u32 + b as u32) % 0x10000) as u16
}

/// Increment modulo 256.
fn inc8(v: u8) -> (r: u8)
    ensures
        r == w8(v + 1),
{
    if v == 0xff {
        0
    } else {
        v + 1
    }
}

/// Decrement modulo 256.
fn dec8(v: u8) -> (r: u8)
    ensures
        r == w8(v + 255),
{
    if v == 0 {
        0xff
    } else {
        v - 1
    }
}

/// Executable twin of [`is_custom_kind`].
fn kind_is_custom(k: OpKind) -> (r: bool)
    ensures
        r == is_custom_kind(k),
{
    match k {
        OpKind::Brk | OpKind::Php | OpKind::Pha | OpKind::Plp | OpKind::Pla | OpKind::Rts
            | OpKind::Rti | OpKind::Jsr | OpKind::Jmp | OpKind::Jmpi | OpKind::Jam
            | OpKind::Branch(_, _) => true,
        _ => false,
    }
}

/// Executable twin of [`is_store_kind`].
fn kind_is_store(k: OpKind) -> (r: bool)
    ensures
        r == is_store_kind(k),
{
    match k {
        OpKind::Sta | OpKind::Stx | OpKind::Sty | OpKind::Sax | OpKind::Sha | OpKind::Shx
            | OpKind::Shy | OpKind::Shs => true,
        _ => false,
    }
}

/// Executable twin of [`is_rmw_kind`].
fn kind_is_rmw(k: OpKind) -> (r: bool)
    ensures
        r == is_rmw_kind(k),
{
    match k {
        OpKind::Asl | OpKind::Lsr | OpKind::Rol | OpKind::Ror | OpKind::Dec | OpKind::Inc
            | OpKind::Slo | OpKind::Sre | OpKind::Rla | OpKind::Rra | OpKind::Dcp
            | OpKind::Isb => true,
        _ => false,
    }
}

/// Executable twin of [`n_addr_steps`].
fn addr_step_count(class: AddrClass) -> (r: u16)
    ensures
        r == n_addr_steps(class),
{
    match class {
        AddrClass::NoOperand => 1,
        AddrClass::Imm => 1,
        AddrClass::Zp => 2,
        AddrClass::ZpX => 3,
        AddrClass::ZpY => 3,
        AddrClass::Abs => 3,
        AddrClass::AbsX => 4,
        AddrClass::AbsY => 4,
        AddrClass::IndX => 5,
        AddrClass::IndY => 5,
        AddrClass::JmpAbs => 0,
        AddrClass::JmpSub => 0,
        AddrClass::Halt => 0,
    }
}

impl CPU {
    /// The page-check cycle of an indexed access.
    fn indexed_spec_cycle(&mut self, pins: &mut Pins, idx: u8, access: MemAccess)
        ensures
            (*final(self), *final(pins)) == spec_indexed_spec(
                *old(self),
                *old(pins),
                idx,
                access,
            ),
    {
        let base: u16 = (self.adl_adh % 256) + (pins.data as u16) * 256;
        self.adl_adh = base;
        let ea: u16 = ((base as u32 + idx as u32) % 0x10000) as u16;
        if access == MemAccess::MemR && base / 256 == ea / 256 {
            self.ir = ((self.ir as u32 + 1) % 0x10000) as u16;
        }
        sa(pins, (base / 256) * 256 + (ea % 256));
    }

    /// The page-cross fixup cycle of an indexed access.
    fn indexed_fixup_cycle(&mut self, pins: &mut Pins, idx: u8)
        ensures
            (*final(self), *final(pins)) == spec_indexed_fixup(*old(self), *old(pins), idx),
    {
        sa(pins, ((self.adl_adh as u32 + idx as u32) % 0x10000) as u16);
    }

    /// One cycle of an addressing prelude.
    fn addr_step(&mut self, pins: &mut Pins, class: AddrClass, access: MemAccess)
        ensures
            (*final(self), *final(pins)) == spec_addr_step(
                *old(self),
                *old(pins),
                class,
                access,
                (old(self).ir % 8) as int,
            ),
    {
        let st = self.ir % 8;
        match class {
            AddrClass::NoOperand => {
                sa(pins, self.pc);
            },
            AddrClass::Imm => {
                sa(pins, self.pc);
                self.pc = inc16(self.pc);
            },
            AddrClass::Zp => {
                if st == 0 {
                    sa(pins, self.pc);
                    self.pc = inc16(self.pc);
                } else {
                    sa(pins, pins.data as u16);
                }
            },
            AddrClass::ZpX => {
                if st == 0 {
                    sa(pins, self.pc);
                    self.pc = inc16(self.pc);
                } else if st == 1 {
                    self.adl_adh = pins.data as u16;
                    sa(pins, self.adl_adh);
                } else {
                    sa(pins, ((self.adl_adh % 256) + self.x as u16) % 256);
                }
            },
            AddrClass::ZpY => {
                if st == 0 {
                    sa(pins, self.pc);
                    self.pc = inc16(self.pc);
                } else if st == 1 {
                    self.adl_adh = pins.data as u16;
                    sa(pins, self.adl_adh);
                } else {
                    sa(pins, ((self.adl_adh % 256) + self.y as u16) % 256);
                }
            },
            AddrClass::Abs => {
                if st == 0 {
                    sa(pins, self.pc);
                    self.pc = inc16(self.pc);
                } else if st == 1 {
                    sa(pins, self.pc);
                    self.pc = inc16(self.pc);
                    self.adl_adh = pins.data as u16;
                } else {
                    sa(pins, (pins.data as u16) * 256 + (self.adl_adh % 256));
                }
            },
            AddrClass::AbsX => {
                if st == 0 {
                    sa(pins, self.pc);
                    self.pc = inc16(self.pc);
                } else if st == 1 {
                    sa(pins, self.pc);
                    self.pc = inc16(self.pc);
                    self.adl_adh = pins.data as u16;
                } else if st == 2 {
                    let idx = self.x;
                    self.indexed_spec_cycle(pins, idx, access);
                } else {
                    let idx = self.x;
                    self.indexed_fixup_cycle(pins, idx);
                }
            },
            AddrClass::AbsY => {
                if st == 0 {
                    sa(pins, self.pc);
                    self.pc = inc16(self.pc);
                } else if st == 1 {
                    sa(pins, self.pc);
                    self.pc = inc16(self.pc);
                    self.adl_adh = pins.data as u16;
                } else if st == 2 {
                    let idx = self.y;
                    self.indexed_spec_cycle(pins, idx, access);
                } else {
                    let idx = self.y;
                    self.indexed_fixup_cycle(pins, idx);
                }
            },
            AddrClass::IndX => {
                if st == 0 {
                    sa(pins, self.pc);
                    self.pc = inc16(self.pc);
                } else if st == 1 {
                    self.adl_adh = pins.data as u16;
                    sa(pins, self.adl_adh);
                } else if st == 2 {
                    self.adl_adh = ((self.adl_adh % 256) + self.x as u16) % 256;
                    sa(pins, self.adl_adh);
                } else if st == 3 {
                    sa(pins, ((self.adl_adh % 256) + 1) % 256);
                    self.adl_adh = pins.data as u16;
                } else {
                    sa(pins, (pins.data as u16) * 256 + (self.adl_adh % 256));
                }
            },
            AddrClass::IndY => {
                if st == 0 {
                    sa(pins, self.pc);
                    self.pc = inc16(self.pc);
                } else if st == 1 {
                    self.adl_adh = pins.data as u16;
                    sa(pins, self.adl_adh);
                } else if st == 2 {
                    sa(pins, ((self.adl_adh % 256) + 1) % 256);
                    self.adl_adh = pins.data as u16;
                } else if st == 3 {
                    let idx = self.y;
                    self.indexed_spec_cycle(pins, idx, access);
                } else {
                    let idx = self.y;
                    self.indexed_fixup_cycle(pins, idx);
                }
            },
            AddrClass::JmpAbs => {},
            AddrClass::JmpSub => {},
            AddrClass::Halt => {},
        }
    }
}


impl CPU {
    /// The register and flag effect of a one-cycle operation.
    fn single_op(&mut self, pins: &Pins, kind: OpKind)
        ensures
            *final(self) == spec_single(*old(self), *pins, kind),
    {
        match kind {
            OpKind::Lda => {
                self.ac = pins.data;
                let a = self.ac;
                self.nz(a);
            },
            OpKind::Ldx => {
                self.x = pins.data;
                let a = self.x;
                self.nz(a);
            },
            OpKind::Ldy => {
                self.y = pins.data;
                let a = self.y;
                self.nz(a);
            },
            OpKind::Lax => {
                self.ac = pins.data;
                self.x = pins.data;
                let a = self.x;
                self.nz(a);
            },
            OpKind::Lxa => {
                let z = (self.ac | 0xee) & pins.data;
                self.ac = z;
                self.x = z;
                self.nz(z);
            },
            OpKind::Tax => {
                self.x = self.ac;
                let a = self.x;
                self.nz(a);
            },
            OpKind::Tay => {
                self.y = self.ac;
                let a = self.y;
                self.nz(a);
            },
            OpKind::Txa => {
                self.ac = self.x;
                let a = self.ac;
                self.nz(a);
            },
            OpKind::Tya => {
                self.ac = self.y;
                let a = self.ac;
                self.nz(a);
            },
            OpKind::Txs => {
                self.sp = self.x;
            },
            OpKind::Tsx => {
                self.x = self.sp;
                let a = self.x;
                self.nz(a);
            },
            OpKind::Dex => {
                self.x = dec8(self.x);
                let a = self.x;
                self.nz(a);
            },
            OpKind::Dey => {
                self.y = dec8(self.y);
                let a = self.y;
                self.nz(a);
            },
            OpKind::Inx => {
                self.x = inc8(self.x);
                let a = self.x;
                self.nz(a);
            },
            OpKind::Iny => {
                self.y = inc8(self.y);
                let a = self.y;
                self.nz(a);
            },
            OpKind::SetF(m) => {
                self.sr.insert(m);
            },
            OpKind::ClearF(m) => {
                self.sr.remove(m);
            },
            OpKind::Ora => {
                self.ac = self.ac | pins.data;
                let a = self.ac;
                self.nz(a);
            },
            OpKind::And => {
                self.ac = self.ac & pins.data;
                let a = self.ac;
                self.nz(a);
            },
            OpKind::Eor => {
                self.ac = self.ac ^ pins.data;
                let a = self.ac;
                self.nz(a);
            },
            OpKind::Adc => {
                self.adc(pins.data);
            },
            OpKind::Sbc => {
                self.sbc(pins.data);
            },
            OpKind::Cmp => {
                let r = self.ac;
                self.cmp(r, pins.data);
            },
            OpKind::Cpx => {
                let r = self.x;
                self.cmp(r, pins.data);
            },
            OpKind::Cpy => {
                let r = self.y;
                self.cmp(r, pins.data);
            },
            OpKind::Sbx => {
                self.sbx(pins.data);
            },
            OpKind::Anc => {
                let a = self.ac & pins.data;
                self.ac = a;
                self.nz(a);
                if a >= 0x80 {
                    self.sr.insert(StatusRegister::C);
                } else {
                    self.sr.bits = self.sr.bits & 0xfe;
                }
            },
            OpKind::Alr => {
                let a = self.ac & pins.data;
                self.ac = a;
                let r = self.lsr(a);
                self.ac = r;
            },
            OpKind::Arr => {
                self.ac = self.ac & pins.data;
                self.arr();
            },
            OpKind::Ane => {
                let z = (self.ac | 0xee) & self.x & pins.data;
                self.ac = z;
                self.nz(z);
            },
            OpKind::Las => {
                let z = pins.data & self.sp;
                self.ac = z;
                self.x = z;
                self.sp = z;
                self.nz(z);
            },
            OpKind::Asla => {
                let a = self.ac;
                let r = self.asl(a);
                self.ac = r;
            },
            OpKind::Lsra => {
                let a = self.ac;
                let r = self.lsr(a);
                self.ac = r;
            },
            OpKind::Rola => {
                let a = self.ac;
                let r = self.rol(a);
                self.ac = r;
            },
            OpKind::Rora => {
                let a = self.ac;
                let r = self.ror(a);
                self.ac = r;
            },
            OpKind::Bit => {
                self.bit(pins.data);
            },
            _ => {},
        }
    }

    /// The first read-modify-write cycle.
    fn rmw_first(&mut self, pins: &mut Pins)
        ensures
            (*final(self), *final(pins)) == spec_rmw_first(*old(self), *old(pins)),
    {
        self.adl_adh = pins.data as u16;
        wr(pins);
    }

    /// The second read-modify-write cycle.
    fn rmw_second(&mut self, pins: &mut Pins, kind: OpKind)
        ensures
            (*final(self), *final(pins)) == spec_rmw_second(*old(self), *old(pins), kind),
    {
        let v: u8 = (self.adl_adh % 256) as u8;
        match kind {
            OpKind::Dec => {
                let m = dec8(v);
                self.adl_adh = m as u16;
                self.nz(m);
                sd(pins, m);
                wr(pins);
            },
            OpKind::Inc => {
                let m = inc8(v);
                self.adl_adh = m as u16;
                self.nz(m);
                sd(pins, m);
                wr(pins);
            },
            OpKind::Dcp => {
                let m = dec8(v);
                self.adl_adh = m as u16;
                self.nz(m);
                sd(pins, m);
                let r = self.ac;
                self.cmp(r, m);
                wr(pins);
            },
            OpKind::Isb => {
                let m = inc8(v);
                self.adl_adh = m as u16;
                sd(pins, m);
                self.sbc(m);
                wr(pins);
            },
            OpKind::Asl => {
                let r = self.asl(v);
                sd(pins, r);
                wr(pins);
            },
            OpKind::Lsr => {
                let r = self.lsr(v);
                sd(pins, r);
                wr(pins);
            },
            OpKind::Rol => {
                let r = self.rol(v);
                sd(pins, r);
                wr(pins);
            },
            OpKind::Ror => {
                let r = self.ror(v);
                sd(pins, r);
                wr(pins);
            },
            OpKind::Slo => {
                let r = self.asl(v);
                self.adl_adh = r as u16;
                sd(pins, r);
                self.ac = self.ac | r;
                let a = self.ac;
                self.nz(a);
                wr(pins);
            },
            OpKind::Sre => {
                let r = self.lsr(v);
                self.adl_adh = r as u16;
                sd(pins, r);
                self.ac = self.ac ^ r;
                let a = self.ac;
                self.nz(a);
                wr(pins);
            },
            OpKind::Rla => {
                let r = self.rol(v);
                self.adl_adh = r as u16;
                sd(pins, r);
                self.ac = self.ac & r;
                let a = self.ac;
                self.nz(a);
                wr(pins);
            },
            OpKind::Rra => {
                let r = self.ror(v);
                self.adl_adh = r as u16;
                sd(pins, r);
                self.adc(r);
                wr(pins);
            },
            _ => {},
        }
    }
}


impl CPU {
    /// One cycle of the `BRK` and interrupt sequence.
    fn brk_step(&mut self, pins: &mut Pins)
        ensures
            (*final(self), *final(pins)) == spec_brk_step(
                *old(self),
                *old(pins),
                (old(self).ir % 8) as int,
            ),
    {
        let st = self.ir % 8;
        if st == 0 {
            sa(pins, self.pc);
        } else if st == 1 {
            if !self.brk_flags.contains(BreakFlags::NMI) && !self.brk_flags.contains(
                BreakFlags::IRQ,
            ) {
                self.pc = inc16(self.pc);
            }
            sad(pins, 0x100 + self.sp as u16, (self.pc / 256) as u8);
            self.sp = dec8(self.sp);
            if self.brk_flags.contains(BreakFlags::RESET) {
                rd(pins);
            } else {
                wr(pins);
            }
        } else if st == 2 {
            sad(pins, 0x100 + self.sp as u16, (self.pc % 256) as u8);
            self.sp = dec8(self.sp);
            if self.brk_flags.contains(BreakFlags::RESET) {
                rd(pins);
            } else {
                wr(pins);
            }
        } else if st == 3 {
            let serviced = self.brk_flags.contains(BreakFlags::IRQ) || self.brk_flags.contains(
                BreakFlags::NMI,
            );
            let pushed: u8 = if serviced {
                (self.sr.bits | 0x20) & 0xef
            } else {
                self.sr.bits | 0x30
            };
            sad(pins, 0x100 + self.sp as u16, pushed);
            self.sp = dec8(self.sp);
            if self.brk_flags.contains(BreakFlags::RESET) {
                self.adl_adh = 0xfffc;
                rd(pins);
            } else {
                wr(pins);
                if self.brk_flags.contains(BreakFlags::NMI) {
                    self.adl_adh = 0xfffa;
                } else {
                    self.adl_adh = 0xfffe;
                }
            }
        } else if st == 4 {
            sa(pins, self.adl_adh);
            self.adl_adh = ((self.adl_adh as u32 + 1) % 0x10000) as u16;
            self.sr.insert(StatusRegister::I);
            self.brk_flags = BreakFlags::empty();
        } else if st == 5 {
            sa(pins, self.adl_adh);
            self.adl_adh = pins.data as u16;
        } else {
            self.pc = (pins.data as u16) * 256 + (self.adl_adh % 256) as u16;
            fetch(pins, self.pc);
        }
    }

    /// One cycle of a conditional branch.
    fn branch_step(&mut self, pins: &mut Pins, mask: u8, want: bool)
        ensures
            (*final(self), *final(pins)) == spec_branch_step(
                *old(self),
                *old(pins),
                mask,
                want,
                (old(self).ir % 8) as int,
            ),
    {
        let st = self.ir % 8;
        if st == 0 {
            sa(pins, self.pc);
            self.pc = inc16(self.pc);
        } else if st == 1 {
            sa(pins, self.pc);
            let off: u16 = if pins.data >= 0x80 {
                pins.data as u16 + 0xff00
            } else {
                pins.data as u16
            };
            self.adl_adh = wadd16(self.pc, off);
            let taken = self.sr.contains(mask) == want;
            if !taken {
                fetch(pins, self.pc);
            }
        } else if st == 2 {
            sa(pins, (self.pc / 256) * 256 + (self.adl_adh % 256));
            if self.adl_adh / 256 == self.pc / 256 {
                self.pc = self.adl_adh;
                self.irq_pip = self.irq_pip / 2;
                self.nmi_pip = self.nmi_pip / 2;
                fetch(pins, self.pc);
            }
        } else {
            self.pc = self.adl_adh;
            fetch(pins, self.pc);
        }
    }

    /// One cycle of the hand-written stack, jump and jam sequences.
    #[verifier::rlimit(50)]
    fn custom_step(&mut self, pins: &mut Pins, kind: OpKind)
        ensures
            (*final(self), *final(pins)) == spec_custom_step(
                *old(self),
                *old(pins),
                kind,
                (old(self).ir % 8) as int,
            ),
    {
        let st = self.ir % 8;
        let stack: u16 = 0x100 + self.sp as u16;
        match kind {
            OpKind::Brk => {
                self.brk_step(pins);
            },
            OpKind::Branch(m, w) => {
                self.branch_step(pins, m, w);
            },
            OpKind::Php => {
                if st == 0 {
                    sa(pins, self.pc);
                } else if st == 1 {
                    sad(pins, stack, self.sr.bits | 0x30);
                    self.sp = dec8(self.sp);
                    wr(pins);
                } else {
                    fetch(pins, self.pc);
                }
            },
            OpKind::Pha => {
                if st == 0 {
                    sa(pins, self.pc);
                } else if st == 1 {
                    sad(pins, stack, self.ac);
                    self.sp = dec8(self.sp);
                    wr(pins);
                } else {
                    fetch(pins, self.pc);
                }
            },
            OpKind::Plp => {
                if st == 0 {
                    sa(pins, self.pc);
                } else if st == 1 {
                    sa(pins, stack);
                    self.sp = inc8(self.sp);
                } else if st == 2 {
                    sa(pins, stack);
                } else {
                    self.sr.bits = pins.data & 0xcf;
                    fetch(pins, self.pc);
                }
            },
            OpKind::Pla => {
                if st == 0 {
                    sa(pins, self.pc);
                } else if st == 1 {
                    sa(pins, stack);
                    self.sp = inc8(self.sp);
                } else if st == 2 {
                    sa(pins, stack);
                } else {
                    self.ac = pins.data;
                    let a = self.ac;
                    self.nz(a);
                    fetch(pins, self.pc);
                }
            },
            OpKind::Rts => {
                if st == 0 {
                    sa(pins, self.pc);
                } else if st == 1 || st == 2 {
                    sa(pins, stack);
                    self.sp = inc8(self.sp);
                } else if st == 3 {
                    sa(pins, stack);
                    self.adl_adh = pins.data as u16;
                } else if st == 4 {
                    let pc1: u16 = (pins.data as u16) * 256 + (self.adl_adh % 256);
                    self.pc = inc16(pc1);
                    sa(pins, pc1);
                } else {
                    fetch(pins, self.pc);
                }
            },
            OpKind::Rti => {
                if st == 0 {
                    sa(pins, self.pc);
                } else if st == 1 || st == 2 {
                    sa(pins, stack);
                    self.sp = inc8(self.sp);
                } else if st == 3 {
                    sa(pins, stack);
                    self.sp = inc8(self.sp);
                    self.sr.bits = pins.data & 0xcf;
                } else if st == 4 {
                    sa(pins, stack);
                    self.adl_adh = pins.data as u16;
                } else {
                    self.pc = (pins.data as u16) * 256 + (self.adl_adh % 256);
                    fetch(pins, self.pc);
                }
            },
            OpKind::Jsr => {
                if st == 0 {
                    sa(pins, self.pc);
                    self.pc = inc16(self.pc);
                } else if st == 1 {
                    sa(pins, stack);
                    self.adl_adh = pins.data as u16;
                } else if st == 2 {
                    sad(pins, stack, (self.pc / 256) as u8);
                    self.sp = dec8(self.sp);
                    wr(pins);
                } else if st == 3 {
                    sad(pins, stack, (self.pc % 256) as u8);
                    self.sp = dec8(self.sp);
                    wr(pins);
                } else if st == 4 {
                    sa(pins, self.pc);
                } else {
                    self.pc = (pins.data as u16) * 256 + (self.adl_adh % 256);
                    fetch(pins, self.pc);
                }
            },
            OpKind::Jmp => {
                if st == 0 {
                    sa(pins, self.pc);
                    self.pc = inc16(self.pc);
                } else if st == 1 {
                    sa(pins, self.pc);
                    self.pc = inc16(self.pc);
                    self.adl_adh = pins.data as u16;
                } else {
                    self.pc = (pins.data as u16) * 256 + (self.adl_adh % 256);
                    fetch(pins, self.pc);
                }
            },
            OpKind::Jmpi => {
                if st == 0 {
                    sa(pins, self.pc);
                    self.pc = inc16(self.pc);
                } else if st == 1 {
                    sa(pins, self.pc);
                    self.pc = inc16(self.pc);
                    self.adl_adh = pins.data as u16;
                } else if st == 2 {
                    let ptr: u16 = (self.adl_adh % 256) + (pins.data as u16) * 256;
                    self.adl_adh = ptr;
                    sa(pins, ptr);
                } else if st == 3 {
                    sa(
                        pins,
                        (self.adl_adh / 256) * 256 + ((self.adl_adh as u32 + 1) % 256) as u16,
                    );
                    self.adl_adh = pins.data as u16;
                } else {
                    self.pc = (pins.data as u16) * 256 + (self.adl_adh % 256);
                    fetch(pins, self.pc);
                }
            },
            OpKind::Jam => {
                if st == 0 {
                    sa(pins, self.pc);
                } else {
                    sad(pins, 0xffff, 0xff);
                    self.ir = ((self.ir as u32 + 0xffff) % 0x10000) as u16;
                }
            },
            _ => {},
        }
    }

    /// One micro-step of the in-flight opcode.
    fn exec_step(&mut self, pins: &mut Pins)
        ensures
            (*final(self), *final(pins)) == spec_step(*old(self), *old(pins)),
    {
        proof {
            reveal(spec_step);
            reveal(opcodes::op_kind);
            reveal(opcodes::bus_mode);
        }
        let op: u8 = (self.ir / 8) as u8;
        let st = self.ir % 8;
        let kind = decode_kind(op);
        let (class, access) = decode_bus(op);
        if kind_is_custom(kind) {
            self.custom_step(pins, kind);
        } else {
            let na = addr_step_count(class);
            if kind_is_store(kind) {
                if st < na - 1 {
                    self.addr_step(pins, class, access);
                } else if st == na - 1 {
                    self.addr_step(pins, class, access);
                    let hb: u8 = ((pins.address / 256 + 1) % 256) as u8;
                    let value: u8 = match kind {
                        OpKind::Sta => self.ac,
                        OpKind::Stx => self.x,
                        OpKind::Sty => self.y,
                        OpKind::Sax => self.ac & self.x,
                        OpKind::Sha => self.ac & self.x & hb,
                        OpKind::Shx => self.x & hb,
                        OpKind::Shy => self.y & hb,
                        OpKind::Shs => (self.ac & self.x) & hb,
                        _ => 0,
                    };
                    if kind == OpKind::Shs {
                        self.sp = self.ac & self.x;
                    }
                    sd(pins, value);
                    wr(pins);
                } else {
                    fetch(pins, self.pc);
                }
            } else if kind_is_rmw(kind) {
                if st < na {
                    self.addr_step(pins, class, access);
                } else if st == na {
                    self.rmw_first(pins);
                } else if st == na + 1 {
                    self.rmw_second(pins, kind);
                } else {
                    fetch(pins, self.pc);
                }
            } else {
                if st < na {
                    self.addr_step(pins, class, access);
                } else {
                    self.single_op(pins, kind);
                    fetch(pins, self.pc);
                }
            }
        }
    }
}


impl CPU {
    /// Advance one bus cycle.
    ///
    /// The caller hands in the pin record it received from the previous tick,
    /// after performing the memory transaction it described (filling `data`
    /// on a read), and with the interrupt lines set as the outside world
    /// drives them.  The returned record describes the next transaction.
    ///
    /// The whole effect is pinned down by [`spec_tick`]: the new processor
    /// state and the returned pins are a function of the previous state and
    /// the incoming pins alone, so two ticks from equal states on equal pins
    /// agree in every field.
    #[verifier::rlimit(80)]
    pub fn tick(&mut self, pins: Pins) -> (r: Pins)
        ensures
            (*final(self), r) == spec_tick(*old(self), pins),
    {
        proof {
            reveal(spec_tick);
        }
        let mut pins = pins;
        if !self.pins.nmi && pins.nmi {
            self.nmi_pip = self.nmi_pip | 1;
        }
        if pins.irq && !self.sr.contains(StatusRegister::I) {
            self.irq_pip = self.irq_pip | 1;
        }
        if pins.rw == ReadWrite::Read && pins.rdy {
            self.pins = pins;
            self.irq_pip = (self.irq_pip % 0x8000) * 2;
            return pins;
        }
        if pins.sync {
            self.ir = (pins.data as u16) * 8;
            off(&mut pins, PinFlags::Sync);
            if self.irq_pip & 4 == 4 && !self.sr.contains(StatusRegister::I) {
                self.brk_flags.insert(BreakFlags::IRQ);
            }
            if self.nmi_pip & 0xfffc != 0 {
                self.brk_flags.insert(BreakFlags::NMI);
            }
            if pins.res {
                self.brk_flags.insert(BreakFlags::RESET);
            }
            self.irq_pip = self.irq_pip & 3;
            self.nmi_pip = self.nmi_pip & 3;
            if self.brk_flags.is_empty() {
                self.pc = inc16(self.pc);
            } else {
                self.ir = 0;
                self.sr.bits = self.sr.bits & 0xef;
                pins.res = false;
            }
        }
        rd(&mut pins);
        self.exec_step(&mut pins);
        self.ir = wadd16(self.ir, 1);
        self.pins = pins;
        self.irq_pip = (self.irq_pip % 0x8000) * 2;
        self.nmi_pip = (self.nmi_pip % 0x8000) * 2;
        pins
    }
}

} // verus!
