//! Random-access memory over a fixed range.

use vstd::prelude::*;

use super::Device;
use super::WriteError;

verus! {

/// A block of writable memory starting at `start`.  Addresses from `start`
/// up to `start + data.len()` (clipped to the top of the address space)
/// belong to it.
pub struct Ram {
    pub start: u16,
    pub data: Vec<u8>,
}

impl Ram {
    /// True when `address` falls inside this block.
    pub open spec fn covers(self, address: u16) -> bool {
        self.start <= address && address - self.start < self.data@.len()
    }

    /// A zero-filled block of `size` bytes starting at `start`.
    pub fn new(start: u16, size: u16) -> (r: Ram)
        ensures
            r.start == start,
            r.data@.len() == size,
            forall|i: int| 0 <= i < size ==> r.data@[i] == 0,
    {
        let mut data: Vec<u8> = Vec::new();
        let mut i: u16 = 0;
        while i < size
            invariant
                i <= size,
                data@.len() == i,
                forall|j: int| 0 <= j < i ==> data@[j] == 0,
            decreases size - i,
        {
            data.push(0);
            i = i + 1;
        }
        Ram { start, data }
    }

    /// The byte at `address` when it falls in range.
    pub fn read(&mut self, address: u16) -> (r: Option<u8>)
        ensures
            *final(self) == *old(self),
            r == (if old(self).covers(address) {
                Some(old(self).data@[address - old(self).start])
            } else {
                None::<u8>
            }),
    {
        if address < self.start {
            None
        } else {
            let off = (address - self.start) as usize;
            if off < self.data.len() {
                Some(self.data[off])
            } else {
                None
            }
        }
    }

    /// Store `data` at `address` when it falls in range; out of range is
    /// refused as an invalid address.
    pub fn write(&mut self, address: u16, data: u8) -> (r: Result<(), WriteError>)
        ensures
            final(self).start == old(self).start,
            old(self).covers(address) ==> final(self).data@ == old(self).data@.update(
                address - old(self).start,
                data,
            ) && r == Ok::<(), WriteError>(()),
            !old(self).covers(address) ==> *final(self) == *old(self) && r == Err::<
                (),
                WriteError,
            >(WriteError::InvalidAddress),
    {
        if address < self.start {
            Err(WriteError::InvalidAddress)
        } else {
            let off = (address - self.start) as usize;
            if off < self.data.len() {
                self.data[off] = data;
                Ok(())
            } else {
                Err(WriteError::InvalidAddress)
            }
        }
    }
}

impl Device for Ram {
    fn read(&mut self, address: u16) -> Option<u8> {
        Ram::read(self, address)
    }

    fn write(&mut self, address: u16, data: u8) -> Result<(), WriteError> {
        Ram::write(self, address, data)
    }
}

} // verus!
