//! The memory devices and their composition.

use rust6502::device::{DeviceMap, DeviceSlot, KeyUpdate, Keyboard, Ram, Rom, WriteError};

#[test]
fn ram_reads_and_writes_in_range() {
    let mut ram = Ram::new(0x0100, 0x0400);
    assert_eq!(ram.read(0x00ff), None);
    assert_eq!(ram.read(0x0100), Some(0));
    assert_eq!(ram.read(0x04ff), Some(0));
    assert_eq!(ram.read(0x0500), None);
    assert_eq!(ram.write(0x0123, 0xab), Ok(()));
    assert_eq!(ram.read(0x0123), Some(0xab));
    assert_eq!(ram.write(0x00ff, 1), Err(WriteError::InvalidAddress));
    assert_eq!(ram.write(0x0500, 1), Err(WriteError::InvalidAddress));
}

#[test]
fn rom_refuses_every_write() {
    let mut rom = Rom::from_vec(0x8000, vec![1, 2, 3]);
    assert_eq!(rom.read(0x8000), Some(1));
    assert_eq!(rom.read(0x8002), Some(3));
    assert_eq!(rom.read(0x8003), None);
    assert_eq!(rom.read(0x7fff), None);
    assert_eq!(rom.write(0x8000, 9), Err(WriteError::NotWritable));
    assert_eq!(rom.read(0x8000), Some(1));
}

#[test]
fn interrupt_vectors_are_little_endian() {
    let mut rom = Rom::interrupts(0x1234, 0x8000, 0xbeef);
    assert_eq!(rom.read(0xfffa), Some(0x34));
    assert_eq!(rom.read(0xfffb), Some(0x12));
    assert_eq!(rom.read(0xfffc), Some(0x00));
    assert_eq!(rom.read(0xfffd), Some(0x80));
    assert_eq!(rom.read(0xfffe), Some(0xef));
    assert_eq!(rom.read(0xffff), Some(0xbe));
}

#[test]
fn map_read_prefers_registration_order() {
    let mut first = Ram::new(0x0000, 0x0100);
    let _ = first.write(0x0010, 0x11);
    let mut second = Ram::new(0x0000, 0x0200);
    let _ = second.write(0x0010, 0x22);
    let _ = second.write(0x0150, 0x33);
    let mut map = DeviceMap::new();
    map.add(DeviceSlot::Ram(first));
    map.add(DeviceSlot::Ram(second));
    // Overlapping range: the device registered first answers.
    assert_eq!(map.read(0x0010), Some(0x11));
    // Beyond the first device's range the second answers.
    assert_eq!(map.read(0x0150), Some(0x33));
    // Nobody answers outside every range.
    assert_eq!(map.read(0x4000), None);
}

#[test]
fn map_write_is_broadcast() {
    let first = Ram::new(0x0000, 0x0100);
    let second = Ram::new(0x0000, 0x0200);
    let mut map = DeviceMap::new();
    map.add(DeviceSlot::Ram(first));
    map.add(DeviceSlot::Ram(second));
    map.add(DeviceSlot::Rom(Rom::from_vec(0x0000, vec![7])));
    // Both RAMs take the byte; the ROM's refusal is absorbed.
    assert_eq!(map.write(0x0020, 0x55), Ok(()));
    // The first RAM answers the read back; the ROM at the same address is
    // behind both.
    assert_eq!(map.read(0x0020), Some(0x55));
    // A write nobody accepts still reports success on the bus.
    assert_eq!(map.write(0x4000, 0x01), Ok(()));
}

#[test]
fn keyboard_queue_reports_presses_and_releases() {
    let mut kb = Keyboard::new(0x10);
    // Empty queue reads as zero.
    assert_eq!(kb.read(0x10), Some(0));
    // Another address is not answered.
    assert_eq!(kb.read(0x11), None);
    kb.push_key(KeyUpdate { scancode: 0x1c, released: false });
    kb.push_key(KeyUpdate { scancode: 0x1c, released: true });
    // The press is consumed...
    assert_eq!(kb.read(0x10), Some(0x1c));
    // ...the release is announced with the marker byte first...
    assert_eq!(kb.read(0x10), Some(0xe0));
    // ...then its scancode follows, and the queue is empty again.
    assert_eq!(kb.read(0x10), Some(0x1c));
    assert_eq!(kb.read(0x10), Some(0));
    // The register refuses writes.
    assert_eq!(kb.write(0x10, 1), Err(WriteError::NotWritable));
}

#[test]
fn keyboard_in_a_device_map_pops_on_read() {
    let mut kb = Keyboard::new(0x0010);
    kb.push_key(KeyUpdate { scancode: 0x44, released: false });
    let mut map = DeviceMap::new();
    map.add(DeviceSlot::Keyboard(kb));
    map.add(DeviceSlot::Ram(Ram::new(0x0000, 0x0100)));
    assert_eq!(map.read(0x0010), Some(0x44));
    // The queue is now empty: the keyboard answers zero, still shadowing
    // the RAM underneath.
    assert_eq!(map.read(0x0010), Some(0));
}
