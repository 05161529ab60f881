//! A cycle-accurate emulator of the MOS 6502 microprocessor.
//!
//! The processor talks to the outside world only through a [`cpu::Pins`]
//! record: each call to [`cpu::CPU::tick`] advances one bus cycle, drives the
//! address, data and control lines, and leaves the host to perform the memory
//! transaction the pins describe.  The `device` module supplies the memory
//! side: RAM, ROM, a keyboard queue and an ordered device map.

pub mod cpu;
pub mod device;
pub mod laws;
