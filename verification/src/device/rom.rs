//! Read-only memory, and the interrupt-vector block.

use vstd::prelude::*;

use super::Device;
use super::WriteError;

verus! {

/// A block of read-only memory starting at `start`.
pub struct Rom {
    pub start: u16,
    pub data: Vec<u8>,
}

impl Rom {
    /// True when `address` falls inside this block.
    pub open spec fn covers(self, address: u16) -> bool {
        self.start <= address && address - self.start < self.data@.len()
    }

    /// A block holding `data` starting at `start`.
    pub fn from_vec(start: u16, data: Vec<u8>) -> (r: Rom)
        ensures
            r.start == start,
            r.data@ == data@,
    {
        Rom { start, data }
    }

    /// The six-byte interrupt-vector block at 0xFFFA: the NMI, reset and
    /// IRQ handler addresses, each little-endian.
    pub fn interrupts(nmi: u16, reset: u16, irq: u16) -> (r: Rom)
        ensures
            r.start == 0xfffa,
            r.data@.len() == 6,
            r.data@[0] == nmi % 256,
            r.data@[1] == nmi / 256,
            r.data@[2] == reset % 256,
            r.data@[3] == reset / 256,
            r.data@[4] == irq % 256,
            r.data@[5] == irq / 256,
    {
        let mut data: Vec<u8> = Vec::new();
        data.push((nmi % 256) as u8);
        data.push((nmi / 256) as u8);
        data.push((reset % 256) as u8);
        data.push((reset / 256) as u8);
        data.push((irq % 256) as u8);
        data.push((irq / 256) as u8);
        Rom { start: 0xfffa, data }
    }

    /// The byte at `address` when it falls in range.
    pub fn read(&mut self, address: u16) -> (r: Option<u8>)
        ensures
            *final(self) == *old(self),
            r == (if old(self).covers(address) {
                Some(old(self).data@[address - old(self).start])
            } else {
                None::<u8>
            }),
    {
        if address < self.start {
            None
        } else {
            let off = (address - self.start) as usize;
            if off < self.data.len() {
                Some(self.data[off])
            } else {
                None
            }
        }
    }

    /// Every write is refused: the block is not writable.
    pub fn write(&mut self, address: u16, data: u8) -> (r: Result<(), WriteError>)
        ensures
            *final(self) == *old(self),
            r == Err::<(), WriteError>(WriteError::NotWritable),
    {
        let _ = address;
        let _ = data;
        Err(WriteError::NotWritable)
    }
}

impl Device for Rom {
    fn read(&mut self, address: u16) -> Option<u8> {
        Rom::read(self, address)
    }

    fn write(&mut self, address: u16, data: u8) -> Result<(), WriteError> {
        Rom::write(self, address, data)
    }
}

} // verus!
