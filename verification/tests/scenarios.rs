//! Whole-machine scenarios: the processor run against RAM and ROM through
//! the pin interface, cycle by cycle.

use rust6502::cpu::{Pins, ReadWrite, CPU};
use rust6502::device::{DeviceMap, DeviceSlot, Ram, Rom};

/// One bus cycle: tick the processor, then perform the memory transaction
/// the returned pins describe.
fn bus_cycle(cpu: &mut CPU, pins: Pins, mem: &mut DeviceMap) -> Pins {
    let mut p = cpu.tick(pins);
    if p.rw == ReadWrite::Read {
        if let Some(v) = mem.read(p.address) {
            p.data = v;
        }
    } else {
        let _ = mem.write(p.address, p.data);
    }
    p
}

/// A machine with RAM covering the low 16 KiB and the interrupt vectors in
/// ROM; `program` is written at `org` and the reset vector points there.
fn machine(program: &[u8], org: u16, irq: u16) -> (CPU, Pins, DeviceMap) {
    let mut ram = Ram::new(0, 0x4000);
    for (i, b) in program.iter().enumerate() {
        let r = ram.write(org + i as u16, *b);
        assert!(r.is_ok());
    }
    let mut mem = DeviceMap::new();
    mem.add(DeviceSlot::Ram(ram));
    mem.add(DeviceSlot::Rom(Rom::interrupts(0, org, irq)));
    let cpu = CPU::new();
    let pins = cpu.pins;
    (cpu, pins, mem)
}

/// Run the seven-cycle reset entry; every cycle must be a read.
fn power_on(cpu: &mut CPU, mut pins: Pins, mem: &mut DeviceMap) -> Pins {
    for _ in 0..7 {
        pins = bus_cycle(cpu, pins, mem);
        assert_eq!(pins.rw, ReadWrite::Read);
    }
    assert!(pins.sync);
    pins
}

/// From an instruction boundary (`pins.sync` asserted), run until the next
/// boundary and return how many cycles the instruction took.
fn run_instruction(cpu: &mut CPU, pins: &mut Pins, mem: &mut DeviceMap) -> usize {
    let mut n: usize = 0;
    loop {
        *pins = bus_cycle(cpu, *pins, mem);
        n += 1;
        if pins.sync {
            return n;
        }
        assert!(n < 16, "instruction did not finish");
    }
}

#[test]
fn lda_immediate_sta_absolute() {
    let (mut cpu, mut pins, mut mem) = machine(&[0xa9, 0x42, 0x8d, 0x00, 0x10], 0x0000, 0);
    pins = power_on(&mut cpu, pins, &mut mem);
    assert_eq!(run_instruction(&mut cpu, &mut pins, &mut mem), 2);
    assert_eq!(cpu.ac, 0x42);
    assert_eq!(run_instruction(&mut cpu, &mut pins, &mut mem), 4);
    assert_eq!(mem.read(0x1000), Some(0x42));
    assert_eq!(cpu.ac, 0x42);
}

#[test]
fn branch_not_taken_stays_in_page() {
    let (mut cpu, mut pins, mut mem) = machine(&[0xd0, 0x7e], 0x0080, 0);
    pins = power_on(&mut cpu, pins, &mut mem);
    cpu.sr.insert(0x02);
    let mut addresses: Vec<u16> = Vec::new();
    let mut n: usize = 0;
    loop {
        pins = bus_cycle(&mut cpu, pins, &mut mem);
        addresses.push(pins.address);
        n += 1;
        if pins.sync {
            break;
        }
    }
    assert_eq!(n, 2);
    assert_eq!(cpu.pc, 0x0082);
    for a in addresses {
        assert_eq!(a / 256, 0, "address {:#06x} left page zero", a);
    }
}

#[test]
fn branch_taken_with_page_cross() {
    let (mut cpu, mut pins, mut mem) = machine(&[0xd0, 0x20], 0x00f0, 0);
    pins = power_on(&mut cpu, pins, &mut mem);
    cpu.sr.remove(0x02);
    assert_eq!(run_instruction(&mut cpu, &mut pins, &mut mem), 4);
    assert_eq!(cpu.pc, 0x0112);
}

#[test]
fn brk_pushes_status_with_b_set() {
    let (mut cpu, mut pins, mut mem) = machine(&[0x00], 0x0200, 0x0300);
    pins = power_on(&mut cpu, pins, &mut mem);
    assert_eq!(cpu.sp, 0xfd);
    assert_eq!(run_instruction(&mut cpu, &mut pins, &mut mem), 7);
    let pushed = mem.read(0x01fb).unwrap();
    assert_eq!(pushed & 0x10, 0x10, "B must be pushed set by BRK");
    assert_eq!(pushed & 0x20, 0x20, "bit 5 must be pushed set");
    assert_eq!(cpu.sr.bits & 0x04, 0x04, "I must be set before the vector fetch");
}

#[test]
fn irq_service_pushes_status_with_b_clear() {
    // A row of NOPs; the IRQ vector points at a JAM so the handler halts.
    let (mut cpu, mut pins, mut mem) = machine(&[0xea, 0xea, 0xea, 0xea, 0xea, 0xea], 0x0200, 0x0300);
    let r = mem.write(0x0300, 0x02);
    assert!(r.is_ok());
    pins = power_on(&mut cpu, pins, &mut mem);
    cpu.sr.remove(0x04);
    assert_eq!(cpu.sp, 0xfd);
    for _ in 0..24 {
        pins.irq = true;
        pins = bus_cycle(&mut cpu, pins, &mut mem);
    }
    let pushed = mem.read(0x01fb).unwrap();
    assert_eq!(pushed & 0x10, 0, "B must be pushed clear for an IRQ");
    assert_eq!(pushed & 0x20, 0x20, "bit 5 must be pushed set");
    assert_eq!(cpu.sr.bits & 0x04, 0x04, "I must be set by the service entry");
    assert_eq!(cpu.pc, 0x0301, "the handler at the IRQ vector must be running");
}

#[test]
fn reset_entry_from_power_on() {
    let mut mem = DeviceMap::new();
    mem.add(DeviceSlot::Ram(Ram::new(0, 0x4000)));
    mem.add(DeviceSlot::Rom(Rom::interrupts(0, 0x8000, 0)));
    let mut cpu = CPU::new();
    let mut pins = cpu.pins;
    let sp0 = cpu.sp;
    for _ in 0..7 {
        pins = bus_cycle(&mut cpu, pins, &mut mem);
        assert_eq!(pins.rw, ReadWrite::Read, "reset must never write");
    }
    assert_eq!(cpu.pc, 0x8000);
    assert_eq!(cpu.sr.bits & 0x04, 0x04);
    assert_eq!(cpu.sp, sp0.wrapping_sub(3));
    for a in 0x0100..0x0200u16 {
        assert_eq!(mem.read(a), Some(0), "no write may reach RAM during reset");
    }
}

#[test]
fn page_cross_shortcut_on_lda_absolute_x() {
    // LDA $10FE,X with X = 1 stays in page 0x10: four cycles.
    let (mut cpu, mut pins, mut mem) = machine(&[0xbd, 0xfe, 0x10], 0x0200, 0);
    let r1 = mem.write(0x10ff, 0x77);
    let r2 = mem.write(0x1100, 0x88);
    assert!(r1.is_ok() && r2.is_ok());
    pins = power_on(&mut cpu, pins, &mut mem);
    cpu.x = 0x01;
    assert_eq!(run_instruction(&mut cpu, &mut pins, &mut mem), 4);
    assert_eq!(cpu.ac, 0x77);

    // With X = 2 the access crosses into page 0x11: five cycles, and the
    // byte comes from the corrected address.
    let (mut cpu, mut pins, mut mem) = machine(&[0xbd, 0xfe, 0x10], 0x0200, 0);
    let r1 = mem.write(0x10ff, 0x77);
    let r2 = mem.write(0x1100, 0x88);
    assert!(r1.is_ok() && r2.is_ok());
    pins = power_on(&mut cpu, pins, &mut mem);
    cpu.x = 0x02;
    assert_eq!(run_instruction(&mut cpu, &mut pins, &mut mem), 5);
    assert_eq!(cpu.ac, 0x88);
}

#[test]
fn every_opcode_runs_from_a_clean_state() {
    for b in 0..=255u8 {
        let (mut cpu, mut pins, mut mem) = machine(&[b, 0x05, 0x03, 0x00, 0x00], 0x0200, 0x0300);
        pins = power_on(&mut cpu, pins, &mut mem);
        for _ in 0..12 {
            pins = bus_cycle(&mut cpu, pins, &mut mem);
        }
    }
}

#[test]
fn php_plp_round_trip_masks_b_and_x() {
    // PHP then PLP: the pushed byte carries bits 4 and 5 set, the pulled
    // status stores them as zero.
    let (mut cpu, mut pins, mut mem) = machine(&[0x08, 0x28], 0x0200, 0);
    pins = power_on(&mut cpu, pins, &mut mem);
    cpu.sr.bits = 0x81;
    assert_eq!(run_instruction(&mut cpu, &mut pins, &mut mem), 3);
    let pushed = mem.read(0x01fd).unwrap();
    assert_eq!(pushed, 0x81 | 0x30);
    assert_eq!(run_instruction(&mut cpu, &mut pins, &mut mem), 4);
    assert_eq!(cpu.sr.bits, 0x81);
}

#[test]
fn jam_freezes_the_processor() {
    let (mut cpu, mut pins, mut mem) = machine(&[0x02], 0x0200, 0);
    pins = power_on(&mut cpu, pins, &mut mem);
    for _ in 0..8 {
        pins = bus_cycle(&mut cpu, pins, &mut mem);
    }
    let out = cpu.tick(pins);
    assert_eq!(out.address, 0xffff);
    assert_eq!(out.data, 0xff);
    assert!(!out.sync, "a jammed processor never fetches again");
}
