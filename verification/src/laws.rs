//! Laws of the processor, stated once and proved against the same spec
//! functions that [`crate::cpu::CPU::tick`] is verified against.

use vstd::prelude::*;

use crate::cpu::opcodes::OpKind;
use crate::cpu::opcodes::op_kind;
use crate::cpu::opcodes::bus_mode;
use crate::cpu::spec_sync_latch;
use crate::cpu::steps_of;
use crate::cpu::ir_in_range;
use crate::cpu::is_custom_kind;
use crate::cpu::is_store_kind;
use crate::cpu::is_rmw_kind;
use crate::cpu::n_addr_steps;
use crate::cpu::spec_addr_step;
use crate::cpu::spec_fetch;
use crate::cpu::spec_store_value;
use crate::cpu::spec_rmw_first;
use crate::cpu::spec_rmw_second;
use crate::cpu::spec_single;
use crate::cpu::spec_adc_bin;
use crate::cpu::spec_brk_step;
use crate::cpu::spec_custom_step;
use crate::cpu::spec_sbc;
use crate::cpu::spec_tick;
use crate::cpu::spec_step;
use crate::cpu::pip_shl;
use crate::cpu::w16;
use crate::cpu::ReadWrite;
use crate::cpu::carry_bit;
use crate::cpu::flags_nz;
use crate::cpu::w8;
use crate::cpu::BreakFlags;
use crate::cpu::StatusRegister;
use crate::cpu::CPU;
use crate::cpu::Pins;

verus! {

/// How one `N`/`Z` recomputation moves each status bit: `Z` tracks a zero
/// result, `N` the result's sign, and every other flag is untouched.
pub proof fn lemma_flags_nz_bits(sr: u8, r: u8)
    ensures
        ({
            let b = flags_nz(sr, r);
            &&& (b & 0x02 == 0x02) == (r == 0)
            &&& (b & 0x80 == 0x80) == (r >= 0x80)
            &&& b & 0x01 == sr & 0x01
            &&& b & 0x40 == sr & 0x40
            &&& b & 0x04 == sr & 0x04
            &&& b & 0x08 == sr & 0x08
            &&& b & 0x10 == sr & 0x10
            &&& b & 0x20 == sr & 0x20
        }),
{
    if r == 0 {
        assert(({
            let b = (sr & 0x7d) | 0x02;
            &&& b & 0x02 == 0x02
            &&& !(b & 0x80 == 0x80)
            &&& b & 0x01 == sr & 0x01
            &&& b & 0x40 == sr & 0x40
            &&& b & 0x04 == sr & 0x04
            &&& b & 0x08 == sr & 0x08
            &&& b & 0x10 == sr & 0x10
            &&& b & 0x20 == sr & 0x20
        })) by (bit_vector);
    } else {
        assert(r != 0 ==> ({
            let b = (sr & 0x7d) | (r & 0x80);
            &&& (b & 0x02 == 0x02) == (r == 0)
            &&& (b & 0x80 == 0x80) == (r >= 0x80)
            &&& b & 0x01 == sr & 0x01
            &&& b & 0x40 == sr & 0x40
            &&& b & 0x04 == sr & 0x04
            &&& b & 0x08 == sr & 0x08
            &&& b & 0x10 == sr & 0x10
            &&& b & 0x20 == sr & 0x20
        })) by (bit_vector);
    }
}

/// Binary add-with-carry satisfies the textbook equations: the result is
/// `(AC + operand + C) mod 256`; carry out exactly when the nine-bit sum
/// exceeds 0xFF; overflow exactly when the operand signs match and differ
/// from the result sign; `N` and `Z` follow the result; no other register
/// moves.
pub proof fn lemma_adc_binary(c: CPU, v: u8)
    ensures
        ({
            let c2 = spec_adc_bin(c, v);
            let sum = c.ac + v + carry_bit(c.sr.bits);
            &&& c2.ac == sum % 256
            &&& (c2.sr.bits & 0x01 == 0x01) == (sum > 0xff)
            &&& (c2.sr.bits & 0x40 == 0x40) == (((c.ac >= 0x80) == (v >= 0x80)) && ((c.ac >= 0x80)
                != (c2.ac >= 0x80)))
            &&& (c2.sr.bits & 0x02 == 0x02) == (c2.ac == 0)
            &&& (c2.sr.bits & 0x80 == 0x80) == (c2.ac >= 0x80)
            &&& c2.pc == c.pc && c2.x == c.x && c2.y == c.y && c2.sp == c.sp
        }),
{
    let s = c.sr.bits;
    let sum = c.ac + v + carry_bit(s);
    let r = (sum % 256) as u8;
    let b0 = s & 0xbe;
    assert(({
        let b = s & 0xbe;
        b & 0x01 == 0 && b & 0x40 == 0
    })) by (bit_vector);
    lemma_flags_nz_bits(b0, r);
    let b1 = flags_nz(b0, r);
    assert(forall|t: u8|
        #![auto]
        (((t | 0x40) & 0x01) == (t & 0x01)) && (((t | 0x40) & 0x02) == (t & 0x02)) && (((t | 0x40)
            & 0x80) == (t & 0x80)) && ((t | 0x40) & 0x40 == 0x40)) by (bit_vector);
    assert(forall|t: u8| #![auto] (t | 0x01) & 0x01 == 0x01) by (bit_vector);
    assert(forall|t: u8|
        #![auto]
        ((t | 0x01) & 0x02 == t & 0x02) && ((t | 0x01) & 0x40 == t & 0x40) && ((t | 0x01) & 0x80
            == t & 0x80)) by (bit_vector);
}

/// Binary subtract-with-borrow is add-with-carry of the complement:
/// the result is `AC - v - (1 - C)` modulo 256, and carry is set exactly
/// when no borrow occurred.
pub proof fn lemma_sbc_binary(c: CPU, v: u8)
    requires
        !(c.bcd_enabled && c.sr.bits & 0x08 == 0x08),
    ensures
        ({
            let c2 = spec_sbc(c, v);
            let d = c.ac - v - (1 - carry_bit(c.sr.bits));
            &&& c2.ac == (d + 256) % 256
            &&& (c2.sr.bits & 0x01 == 0x01) == (d >= 0)
            &&& (c2.sr.bits & 0x02 == 0x02) == (c2.ac == 0)
            &&& (c2.sr.bits & 0x80 == 0x80) == (c2.ac >= 0x80)
            &&& c2.pc == c.pc && c2.x == c.x && c2.y == c.y && c2.sp == c.sp
        }),
{
    let w = (255 - v) as u8;
    lemma_adc_binary(c, w);
    let cin = carry_bit(c.sr.bits);
    let sum = c.ac + w + cin;
    let d = c.ac - v - (1 - cin);
    assert(sum == d + 256);
    assert(sum % 256 == (d + 256) % 256);
    assert((sum > 0xff) == (d >= 0));
}

/// `PHP` pushes the status byte with bits 4 (`B`) and 5 (the unused bit)
/// set; `PLP` stores the pulled byte with both cleared.  The `BRK`
/// micro-sequence pushes bit 5 set always, and bit 4 set exactly when no
/// interrupt hijacked the instruction.
pub proof fn lemma_status_push_pull(c: CPU, p: Pins)
    ensures
        ({
            let q = spec_custom_step(c, p, OpKind::Php, 1).1;
            &&& q.data == c.sr.bits | 0x30
            &&& q.data & 0x10 == 0x10
            &&& q.data & 0x20 == 0x20
        }),
        ({
            let c2 = spec_custom_step(c, p, OpKind::Plp, 3).0;
            &&& c2.sr.bits == p.data & 0xcf
            &&& c2.sr.bits & 0x10 == 0
            &&& c2.sr.bits & 0x20 == 0
        }),
        ({
            let q = spec_brk_step(c, p, 3).1;
            &&& q.data & 0x20 == 0x20
            &&& (c.brk_flags.bits & 0x03 == 0) ==> q.data & 0x10 == 0x10
            &&& (c.brk_flags.bits & 0x01 == 0x01 || c.brk_flags.bits & 0x02 == 0x02) ==> q.data
                & 0x10 == 0
        }),
{
    let s = c.sr.bits;
    assert((s | 0x30) & 0x10 == 0x10 && (s | 0x30) & 0x20 == 0x20) by (bit_vector);
    let d = p.data;
    assert((d & 0xcf) & 0x10 == 0 && (d & 0xcf) & 0x20 == 0) by (bit_vector);
    assert(((s | 0x20) & 0xef) & 0x10 == 0 && ((s | 0x20) & 0xef) & 0x20 == 0x20) by (bit_vector);
    let b = c.brk_flags.bits;
    assert((b & 0x03 == 0) ==> !(b & 0x01 == 0x01) && !(b & 0x02 == 0x02)) by (bit_vector);
}

/// A tick with no interrupt line, no stall and no sync reduces to one
/// micro-step plus the bookkeeping of the sub-cycle counter, the stored
/// pins and the pipeline shifts.
pub proof fn lemma_tick_quiet(c: CPU, p: Pins)
    requires
        !p.sync,
        !p.rdy,
        !p.irq,
        !p.nmi,
    ensures
        ({
            let s = spec_step(c, (Pins { rw: ReadWrite::Read, ..p }));
            spec_tick(c, p) == ((CPU {
                ir: w16(s.0.ir + 1),
                pins: s.1,
                irq_pip: pip_shl(s.0.irq_pip),
                nmi_pip: pip_shl(s.0.nmi_pip),
                ..s.0
            }), s.1)
        }),
{
    reveal(spec_tick);
}

/// After a reset entry completes its seven cycles, the program counter
/// holds the 16-bit little-endian word fetched from 0xFFFC/0xFFFD, the
/// stack pointer has moved down by three (the suppressed pushes), the
/// interrupt-disable flag is set, and no cycle was a write.
///
/// The processor starts the sequence just after the sync cycle that latched
/// the reset: the instruction register holds the `BRK` encoding at sub-cycle
/// zero and the reset flag is marked.  Each following tick is fed the pins
/// the previous one returned, with the host's read landing in `data`
/// (`j2` to `j5` are the bytes of the don't-care cycles, `lo` and `hi` the
/// two vector bytes).
/// Any sub-cycle of the opcode byte 0 dispatches to the `BRK` sequence.
#[verifier::rlimit(100)]
proof fn lemma_brk_dispatch(c: CPU, p: Pins)
    requires
        c.ir < 8,
    ensures
        spec_step(c, p) == spec_brk_step(c, p, (c.ir % 8) as int),
{
    reveal(spec_step);
    reveal(op_kind);
    reveal(bus_mode);
    assert((c.ir / 8) as u8 == 0);
}

/// One quiet tick of the reset entry at sub-cycle 0: a dummy read of the
/// program counter.
#[verifier::rlimit(100)]
#[verifier::spinoff_prover]
proof fn lemma_reset_cycle0(c: CPU, p: Pins)
    requires
        c.ir == 0,
        !p.sync,
        !p.rdy,
        !p.irq,
        !p.nmi,
    ensures
        ({
            let q = Pins { address: c.pc, rw: ReadWrite::Read, ..p };
            spec_tick(c, p) == ((CPU {
                ir: 1,
                pins: q,
                irq_pip: pip_shl(c.irq_pip),
                nmi_pip: pip_shl(c.nmi_pip),
                ..c
            }), q)
        }),
{
    lemma_tick_quiet(c, p);
    lemma_brk_dispatch(c, (Pins { rw: ReadWrite::Read, ..p }));
    let b = c.brk_flags.bits;
    assert(b == 4 ==> (b & 0x04 == 0x04) && !(b & 0x02 == 0x02) && !(b & 0x01 == 0x01)) by (
        bit_vector);
}

/// Sub-cycle 1 while a reset is serviced: the program counter advances past
/// the padding byte and the high-byte push is suppressed.
#[verifier::rlimit(100)]
#[verifier::spinoff_prover]
proof fn lemma_reset_cycle1(c: CPU, p: Pins)
    requires
        c.ir == 1,
        c.brk_flags.bits == 0x04,
        !p.sync,
        !p.rdy,
        !p.irq,
        !p.nmi,
    ensures
        ({
            let pc1 = w16(c.pc + 1);
            let q = Pins {
                address: (0x100 + c.sp) as u16,
                data: ((pc1 / 256) as u8),
                rw: ReadWrite::Read,
                ..p
            };
            spec_tick(c, p) == ((CPU {
                ir: 2,
                pc: pc1,
                sp: w8(c.sp + 255),
                pins: q,
                irq_pip: pip_shl(c.irq_pip),
                nmi_pip: pip_shl(c.nmi_pip),
                ..c
            }), q)
        }),
{
    lemma_tick_quiet(c, p);
    lemma_brk_dispatch(c, (Pins { rw: ReadWrite::Read, ..p }));
    let b = c.brk_flags.bits;
    assert(b == 4 ==> (b & 0x04 == 0x04) && !(b & 0x02 == 0x02) && !(b & 0x01 == 0x01)) by (
        bit_vector);
}

/// Sub-cycle 2 while a reset is serviced: the low-byte push is suppressed.
#[verifier::rlimit(100)]
#[verifier::spinoff_prover]
proof fn lemma_reset_cycle2(c: CPU, p: Pins)
    requires
        c.ir == 2,
        c.brk_flags.bits == 0x04,
        !p.sync,
        !p.rdy,
        !p.irq,
        !p.nmi,
    ensures
        ({
            let q = Pins {
                address: (0x100 + c.sp) as u16,
                data: ((c.pc % 256) as u8),
                rw: ReadWrite::Read,
                ..p
            };
            spec_tick(c, p) == ((CPU {
                ir: 3,
                sp: w8(c.sp + 255),
                pins: q,
                irq_pip: pip_shl(c.irq_pip),
                nmi_pip: pip_shl(c.nmi_pip),
                ..c
            }), q)
        }),
{
    lemma_tick_quiet(c, p);
    lemma_brk_dispatch(c, (Pins { rw: ReadWrite::Read, ..p }));
    let b = c.brk_flags.bits;
    assert(b == 4 ==> (b & 0x04 == 0x04) && !(b & 0x02 == 0x02) && !(b & 0x01 == 0x01)) by (
        bit_vector);
}

/// Sub-cycle 3 while a reset is serviced: the status push is suppressed and
/// the reset vector is selected.
#[verifier::rlimit(100)]
#[verifier::spinoff_prover]
proof fn lemma_reset_cycle3(c: CPU, p: Pins)
    requires
        c.ir == 3,
        c.brk_flags.bits == 0x04,
        !p.sync,
        !p.rdy,
        !p.irq,
        !p.nmi,
    ensures
        ({
            let q = Pins {
                address: (0x100 + c.sp) as u16,
                data: (c.sr.bits | 0x30),
                rw: ReadWrite::Read,
                ..p
            };
            spec_tick(c, p) == ((CPU {
                ir: 4,
                sp: w8(c.sp + 255),
                adl_adh: 0xfffc,
                pins: q,
                irq_pip: pip_shl(c.irq_pip),
                nmi_pip: pip_shl(c.nmi_pip),
                ..c
            }), q)
        }),
{
    lemma_tick_quiet(c, p);
    lemma_brk_dispatch(c, (Pins { rw: ReadWrite::Read, ..p }));
    let b = c.brk_flags.bits;
    assert(b == 4 ==> (b & 0x04 == 0x04) && !(b & 0x02 == 0x02) && !(b & 0x01 == 0x01)) by (
        bit_vector);
}

/// Sub-cycle 4: drive the vector-low address, set the interrupt-disable
/// flag and clear the interrupt bookkeeping.
#[verifier::rlimit(100)]
#[verifier::spinoff_prover]
proof fn lemma_reset_cycle4(c: CPU, p: Pins)
    requires
        c.ir == 4,
        !p.sync,
        !p.rdy,
        !p.irq,
        !p.nmi,
    ensures
        ({
            let q = Pins { address: c.adl_adh, rw: ReadWrite::Read, ..p };
            spec_tick(c, p) == ((CPU {
                ir: 5,
                adl_adh: w16(c.adl_adh + 1),
                sr: StatusRegister { bits: c.sr.bits | 0x04 },
                brk_flags: BreakFlags { bits: 0 },
                pins: q,
                irq_pip: pip_shl(c.irq_pip),
                nmi_pip: pip_shl(c.nmi_pip),
                ..c
            }), q)
        }),
{
    lemma_tick_quiet(c, p);
    lemma_brk_dispatch(c, (Pins { rw: ReadWrite::Read, ..p }));
    let b = c.brk_flags.bits;
    assert(b == 4 ==> (b & 0x04 == 0x04) && !(b & 0x02 == 0x02) && !(b & 0x01 == 0x01)) by (
        bit_vector);
}

/// Sub-cycle 5: drive the vector-high address and latch the low byte.
#[verifier::rlimit(100)]
#[verifier::spinoff_prover]
proof fn lemma_reset_cycle5(c: CPU, p: Pins)
    requires
        c.ir == 5,
        !p.sync,
        !p.rdy,
        !p.irq,
        !p.nmi,
    ensures
        ({
            let q = Pins { address: c.adl_adh, rw: ReadWrite::Read, ..p };
            spec_tick(c, p) == ((CPU {
                ir: 6,
                adl_adh: p.data as u16,
                pins: q,
                irq_pip: pip_shl(c.irq_pip),
                nmi_pip: pip_shl(c.nmi_pip),
                ..c
            }), q)
        }),
{
    lemma_tick_quiet(c, p);
    lemma_brk_dispatch(c, (Pins { rw: ReadWrite::Read, ..p }));
}

/// Sub-cycle 6: load the program counter from the vector and fetch.
#[verifier::rlimit(100)]
#[verifier::spinoff_prover]
proof fn lemma_reset_cycle6(c: CPU, p: Pins)
    requires
        c.ir == 6,
        !p.sync,
        !p.rdy,
        !p.irq,
        !p.nmi,
    ensures
        ({
            let pcr: u16 = ((p.data * 256 + (c.adl_adh % 256)) as u16);
            let q = Pins { address: pcr, sync: true, rw: ReadWrite::Read, ..p };
            spec_tick(c, p) == ((CPU {
                ir: 7,
                pc: pcr,
                pins: q,
                irq_pip: pip_shl(c.irq_pip),
                nmi_pip: pip_shl(c.nmi_pip),
                ..c
            }), q)
        }),
{
    lemma_tick_quiet(c, p);
    lemma_brk_dispatch(c, (Pins { rw: ReadWrite::Read, ..p }));
}

#[verifier::rlimit(100)]
pub proof fn lemma_reset_sequence(c: CPU, p: Pins, j2: u8, j3: u8, j4: u8, j5: u8, lo: u8, hi: u8)
    requires
        c.ir == 0,
        c.brk_flags.bits == 0x04,
        !p.sync,
        !p.rdy,
        !p.irq,
        !p.nmi,
        !p.res,
    ensures
        ({
            let t1 = spec_tick(c, p);
            let t2 = spec_tick(t1.0, (Pins { data: j2, ..t1.1 }));
            let t3 = spec_tick(t2.0, (Pins { data: j3, ..t2.1 }));
            let t4 = spec_tick(t3.0, (Pins { data: j4, ..t3.1 }));
            let t5 = spec_tick(t4.0, (Pins { data: j5, ..t4.1 }));
            let t6 = spec_tick(t5.0, (Pins { data: lo, ..t5.1 }));
            let t7 = spec_tick(t6.0, (Pins { data: hi, ..t6.1 }));
            &&& t5.1.address == 0xfffc
            &&& t6.1.address == 0xfffd
            &&& t7.0.pc == hi * 256 + lo
            &&& t7.0.sp == (c.sp + 253) % 256
            &&& t7.0.sr.bits & 0x04 == 0x04
            &&& t7.1.sync
            &&& t1.1.rw == ReadWrite::Read && t2.1.rw == ReadWrite::Read && t3.1.rw
                == ReadWrite::Read && t4.1.rw == ReadWrite::Read && t5.1.rw == ReadWrite::Read
                && t6.1.rw == ReadWrite::Read && t7.1.rw == ReadWrite::Read
        }),
{
    lemma_reset_cycle0(c, p);
    let t1 = spec_tick(c, p);
    let p2 = Pins { data: j2, ..t1.1 };
    lemma_reset_cycle1(t1.0, p2);
    let t2 = spec_tick(t1.0, p2);
    let p3 = Pins { data: j3, ..t2.1 };
    lemma_reset_cycle2(t2.0, p3);
    let t3 = spec_tick(t2.0, p3);
    let p4 = Pins { data: j4, ..t3.1 };
    lemma_reset_cycle3(t3.0, p4);
    let t4 = spec_tick(t3.0, p4);
    let p5 = Pins { data: j5, ..t4.1 };
    lemma_reset_cycle4(t4.0, p5);
    let t5 = spec_tick(t4.0, p5);
    let p6 = Pins { data: lo, ..t5.1 };
    lemma_reset_cycle5(t5.0, p6);
    let t6 = spec_tick(t5.0, p6);
    let p7 = Pins { data: hi, ..t6.1 };
    lemma_reset_cycle6(t6.0, p7);
    let t7 = spec_tick(t6.0, p7);
    assert(t7.0.sr.bits & 0x04 == 0x04) by {
        let b = c.sr.bits;
        assert((b | 0x04) & 0x04 == 0x04) by (bit_vector);
    }
    assert(t7.0.sp == (c.sp + 253) % 256) by {
        vstd::arithmetic::div_mod::lemma_add_mod_noop(c.sp + 255, 255, 256);
        vstd::arithmetic::div_mod::lemma_add_mod_noop(c.sp + 510, 255, 256);
    }
}

/// Every opcode reserves at least one micro-step.
proof fn lemma_steps_of_pos(op: u8)
    ensures
        steps_of(op) >= 1,
{
}

/// Advancing the sub-cycle counter inside an instruction keeps the opcode
/// part and increments the sub-cycle part.
proof fn lemma_succ_same_op(ir: u16)
    requires
        ir % 8 < 7,
    ensures
        w16(ir + 1) / 8 == ir / 8,
        w16(ir + 1) % 8 == ir % 8 + 1,
        (w16(ir + 1) / 8) as u8 == (ir / 8) as u8,
{
    assert(ir < 0xffff);
}

/// How one micro-step dispatches: the spelled-out branch structure of the
/// step function, for proofs that take it apart case by case.
#[verifier::rlimit(100)]
proof fn lemma_step_dispatch(c: CPU, p: Pins)
    ensures
        ({
            let op = (c.ir / 8) as u8;
            let st = (c.ir % 8) as int;
            let kind = op_kind(op);
            let class = bus_mode(op).0;
            let access = bus_mode(op).1;
            let na = n_addr_steps(class);
            spec_step(c, p) == (if is_custom_kind(kind) {
                spec_custom_step(c, p, kind, st)
            } else if is_store_kind(kind) {
                if st < na - 1 {
                    spec_addr_step(c, p, class, access, st)
                } else if st == na - 1 {
                    ({
                        let cp = spec_addr_step(c, p, class, access, st);
                        let value = spec_store_value(cp.0, cp.1.address, kind);
                        let c2 = if kind == OpKind::Shs {
                            CPU { sp: cp.0.ac & cp.0.x, ..cp.0 }
                        } else {
                            cp.0
                        };
                        (c2, Pins { data: value, rw: ReadWrite::Write, ..cp.1 })
                    })
                } else {
                    (c, spec_fetch(p, c.pc))
                }
            } else if is_rmw_kind(kind) {
                if st < na {
                    spec_addr_step(c, p, class, access, st)
                } else if st == na {
                    spec_rmw_first(c, p)
                } else if st == na + 1 {
                    spec_rmw_second(c, p, kind)
                } else {
                    (c, spec_fetch(p, c.pc))
                }
            } else {
                if st < na {
                    spec_addr_step(c, p, class, access, st)
                } else {
                    ({
                        let c1 = spec_single(c, p, kind);
                        (c1, spec_fetch(p, c1.pc))
                    })
                }
            })
        }),
{
    reveal(spec_step);
}

/// The window claim for the `BRK` sequence.
#[verifier::rlimit(100)]
proof fn lemma_step_window_brk(c: CPU, p: Pins)
    requires
        ir_in_range(c),
        op_kind(((c.ir / 8) as u8)) == OpKind::Brk,
    ensures
        ({
            let s = spec_step(c, p);
            s.1.sync || ir_in_range((CPU { ir: w16(s.0.ir + 1), ..s.0 }))
        }),
{
    lemma_step_dispatch(c, p);
    let s = spec_step(c, p);
    if c.ir % 8 < 6 {
        lemma_succ_same_op(c.ir);
    }
}

/// The window claim for the conditional branches.
#[verifier::rlimit(100)]
proof fn lemma_step_window_branch(c: CPU, p: Pins)
    requires
        ir_in_range(c),
        op_kind(((c.ir / 8) as u8)) is Branch,
    ensures
        ({
            let s = spec_step(c, p);
            s.1.sync || ir_in_range((CPU { ir: w16(s.0.ir + 1), ..s.0 }))
        }),
{
    lemma_step_dispatch(c, p);
    let s = spec_step(c, p);
    if c.ir % 8 < 3 {
        lemma_succ_same_op(c.ir);
    }
}

/// The window claim for the jam sequence, which pins the sub-cycle counter
/// in place.
#[verifier::rlimit(100)]
proof fn lemma_step_window_jam(c: CPU, p: Pins)
    requires
        ir_in_range(c),
        op_kind(((c.ir / 8) as u8)) == OpKind::Jam,
    ensures
        ({
            let s = spec_step(c, p);
            s.1.sync || ir_in_range((CPU { ir: w16(s.0.ir + 1), ..s.0 }))
        }),
{
    lemma_step_dispatch(c, p);
    let s = spec_step(c, p);
    if c.ir % 8 == 0 {
        lemma_succ_same_op(c.ir);
    } else {
        assert(c.ir >= 1);
        assert((c.ir + 0xffff) % 0x10000 == c.ir - 1) by {
            vstd::arithmetic::div_mod::lemma_mod_add_multiples_vanish(c.ir - 1, 0x10000);
            vstd::arithmetic::div_mod::lemma_small_mod((c.ir - 1) as nat, 0x10000);
        }
        assert(s.0.ir == c.ir - 1);
        assert(w16(s.0.ir + 1) == c.ir) by {
            vstd::arithmetic::div_mod::lemma_small_mod(c.ir as nat, 0x10000);
        }
        assert(ir_in_range((CPU { ir: w16(s.0.ir + 1), ..s.0 })));
    }
}

/// The window claim for the stack and jump sequences.
#[verifier::rlimit(100)]
proof fn lemma_step_window_stack_jump(c: CPU, p: Pins)
    requires
        ir_in_range(c),
        ({
            let kind = op_kind(((c.ir / 8) as u8));
            kind == OpKind::Php || kind == OpKind::Pha || kind == OpKind::Plp || kind
                == OpKind::Pla || kind == OpKind::Rts || kind == OpKind::Rti || kind == OpKind::Jsr
                || kind == OpKind::Jmp || kind == OpKind::Jmpi
        }),
    ensures
        ({
            let s = spec_step(c, p);
            s.1.sync || ir_in_range((CPU { ir: w16(s.0.ir + 1), ..s.0 }))
        }),
{
    lemma_step_dispatch(c, p);
    let s = spec_step(c, p);
    if c.ir % 8 < 5 {
        lemma_succ_same_op(c.ir);
    }
}

/// The window claim for the hand-written sequences.
proof fn lemma_step_window_custom(c: CPU, p: Pins)
    requires
        ir_in_range(c),
        is_custom_kind(op_kind(((c.ir / 8) as u8))),
    ensures
        ({
            let s = spec_step(c, p);
            s.1.sync || ir_in_range((CPU { ir: w16(s.0.ir + 1), ..s.0 }))
        }),
{
    let kind = op_kind(((c.ir / 8) as u8));
    match kind {
        OpKind::Brk => {
            lemma_step_window_brk(c, p);
        },
        OpKind::Jam => {
            lemma_step_window_jam(c, p);
        },
        OpKind::Branch(_, _) => {
            lemma_step_window_branch(c, p);
        },
        OpKind::Php | OpKind::Pha | OpKind::Plp | OpKind::Pla | OpKind::Rts | OpKind::Rti
            | OpKind::Jsr | OpKind::Jmp | OpKind::Jmpi => {
            lemma_step_window_stack_jump(c, p);
        },
        _ => {
            assert(false);
        },
    }
}

/// The window claim for the table-driven groups.
#[verifier::rlimit(100)]
proof fn lemma_step_window_group(c: CPU, p: Pins)
    requires
        ir_in_range(c),
        !is_custom_kind(op_kind(((c.ir / 8) as u8))),
    ensures
        ({
            let s = spec_step(c, p);
            s.1.sync || ir_in_range((CPU { ir: w16(s.0.ir + 1), ..s.0 }))
        }),
{
    lemma_step_dispatch(c, p);
    let s = spec_step(c, p);
    let goal = s.1.sync || ir_in_range((CPU { ir: w16(s.0.ir + 1), ..s.0 }));
    let op = (c.ir / 8) as u8;
    let st = (c.ir % 8) as int;
    let kind = op_kind(op);
    let class = bus_mode(op).0;
    let na = n_addr_steps(class);
    {
        if st < na && !(is_store_kind(kind) && st == na - 1) {
            if s.0.ir == c.ir {
                lemma_succ_same_op(c.ir);
            } else {
                assert(s.0.ir == w16(c.ir + 1) && st + 2 <= na);
                lemma_succ_same_op(c.ir);
                lemma_succ_same_op(w16(c.ir + 1));
            }
            assert(goal);
        } else if is_store_kind(kind) && st == na - 1 {
            if s.0.ir == c.ir {
                lemma_succ_same_op(c.ir);
            } else {
                assert(s.0.ir == w16(c.ir + 1) && st + 2 <= na);
                lemma_succ_same_op(c.ir);
                lemma_succ_same_op(w16(c.ir + 1));
            }
            assert(goal);
        } else if is_rmw_kind(kind) && (st == na || st == na + 1) {
            lemma_succ_same_op(c.ir);
            assert(goal);
        } else {
            assert(s.1.sync);
            assert(goal);
        }
    }
}

/// One micro-step from an in-window state either fetches the next opcode or
/// leaves the advanced sub-cycle counter inside its opcode's window.
proof fn lemma_step_window(c: CPU, p: Pins)
    requires
        ir_in_range(c),
    ensures
        ({
            let s = spec_step(c, p);
            s.1.sync || ir_in_range((CPU { ir: w16(s.0.ir + 1), ..s.0 }))
        }),
{
    if is_custom_kind(op_kind(((c.ir / 8) as u8))) {
        lemma_step_window_custom(c, p);
    } else {
        lemma_step_window_group(c, p);
    }
}

/// Between opcode fetches the sub-cycle counter never leaves its opcode's
/// defined window: a tick fed either a sync cycle or an in-window state
/// ends in an in-window state or issues the next opcode fetch.  Starting
/// from power-on this rules out ever reaching a sub-cycle the dispatch
/// does not define.
#[verifier::rlimit(100)]
pub proof fn lemma_tick_keeps_window(c: CPU, p: Pins)
    requires
        p.sync || ir_in_range(c),
    ensures
        ({
            let t = spec_tick(c, p);
            t.1.sync || ir_in_range(t.0)
        }),
{
    reveal(spec_tick);
    if p.rw == ReadWrite::Read && p.rdy {
    } else {
        let c1 = if !c.pins.nmi && p.nmi {
            CPU { nmi_pip: c.nmi_pip | 1, ..c }
        } else {
            c
        };
        let c2 = if p.irq && !(c1.sr.bits & 0x04 == 0x04) {
            CPU { irq_pip: c1.irq_pip | 1, ..c1 }
        } else {
            c1
        };
        let cs = if p.sync {
            spec_sync_latch(c2, p)
        } else {
            (c2, p)
        };
        assert(ir_in_range(cs.0)) by {
            if p.sync {
                lemma_steps_of_pos(p.data);
                lemma_steps_of_pos(0);
            }
        }
        lemma_step_window(cs.0, (Pins { rw: ReadWrite::Read, ..cs.1 }));
    }
}

} // verus!
