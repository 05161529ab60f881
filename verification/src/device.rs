//! The memory side of the machine: devices that answer bus transactions.
//!
//! A device owns a range of the 16-bit address space and answers reads and
//! writes independently.  The [`device_map::DeviceMap`] composes devices in
//! registration order: a read returns the first answer, a write is broadcast
//! to every device.

use vstd::prelude::*;

pub mod device_map;
pub mod keyboard;
pub mod ram;
pub mod rom;

pub use device_map::DeviceMap;
pub use device_map::DeviceSlot;
pub use keyboard::KeyUpdate;
pub use keyboard::Keyboard;
pub use ram::Ram;
pub use rom::Rom;

verus! {

/// Why a device refused a write.
#[derive(Debug, Eq, PartialEq, Copy, Clone, Structural)]
pub enum WriteError {
    NotWritable,
    InvalidAddress,
}

/// The two operations every memory-mapped device answers.
///
/// The trait itself carries no contracts; each device in this crate states
/// the exact behaviour of its own `read` and `write` on its inherent
/// methods, which these trait methods forward to.
pub trait Device {
    /// The byte at `address`, or `None` when the address is outside the
    /// device's range.  A device may mutate itself on a read (a keyboard
    /// queue pops).
    fn read(&mut self, address: u16) -> Option<u8>;

    /// Store `data` at `address`, or say why not.
    fn write(&mut self, address: u16, data: u8) -> Result<(), WriteError>;
}

} // verus!
