//! A memory-mapped keyboard queue.
//!
//! The host pushes key events at the back; the program reads them one at a
//! time from a single register address.  A key release is reported as the
//! marker byte 0xE0 followed, on the next read, by the key's scancode.

use std::collections::VecDeque;
use vstd::prelude::*;
use vstd::seq_lib::*;

use super::Device;
use super::WriteError;

verus! {

/// One key event: the key's scancode and whether this is a release.
#[derive(Debug, Copy, Clone, Eq, PartialEq, Structural)]
pub struct KeyUpdate {
    pub scancode: u8,
    pub released: bool,
}

/// The queue of pending key events, mapped at a single register address.
pub struct Keyboard {
    pub addr: u16,
    pub keys: VecDeque<KeyUpdate>,
}

impl Keyboard {
    /// An empty queue mapped at `addr`.
    pub fn new(addr: u16) -> (r: Keyboard)
        ensures
            r.addr == addr,
            r.keys@.len() == 0,
    {
        Keyboard { addr, keys: VecDeque::new() }
    }

    /// The host hands in one key event.
    pub fn push_key(&mut self, k: KeyUpdate)
        ensures
            final(self).addr == old(self).addr,
            final(self).keys@ == old(self).keys@.push(k),
    {
        self.keys.push_back(k);
    }

    /// Read the register: 0 when the queue is empty, the marker byte 0xE0
    /// for a release (whose scancode is left at the front for the next
    /// read), or the scancode of a press, which is consumed.  Any other
    /// address is not answered.
    pub fn read(&mut self, address: u16) -> (r: Option<u8>)
        ensures
            final(self).addr == old(self).addr,
            address != old(self).addr
                ==> r == None::<u8> && final(self).keys@ == old(self).keys@,
            address == old(self).addr && old(self).keys@.len() == 0
                ==> r == Some(0u8) && final(self).keys@ == old(self).keys@,
            address == old(self).addr && old(self).keys@.len() > 0
                && old(self).keys@[0].released
                ==> r == Some(0xe0u8)
                    && final(self).keys@ == old(self).keys@.update(0, (KeyUpdate { scancode: old(self).keys@[0].scancode, released: false })),
            address == old(self).addr && old(self).keys@.len() > 0
                && !old(self).keys@[0].released
                ==> r == Some(old(self).keys@[0].scancode)
                    && final(self).keys@ == old(self).keys@.drop_first(),
    {
        if address == self.addr {
            let ghost pre = self.keys@;
            match self.keys.pop_front() {
                None => Some(0),
                Some(kv) => {
                    if kv.released {
                        self.keys.push_front(KeyUpdate { scancode: kv.scancode, released: false });
                        proof {
                            assert_seqs_equal!(
                                self.keys@,
                                pre.update(0, (KeyUpdate { scancode: pre[0].scancode, released: false }))
                            );
                        }
                        Some(0xe0)
                    } else {
                        Some(kv.scancode)
                    }
                },
            }
        } else {
            None
        }
    }

    /// The register is read-only.
    pub fn write(&mut self, address: u16, data: u8) -> (r: Result<(), WriteError>)
        ensures
            *final(self) == *old(self),
            r == Err::<(), WriteError>(WriteError::NotWritable),
    {
        let _ = address;
        let _ = data;
        Err(WriteError::NotWritable)
    }
}

impl Device for Keyboard {
    fn read(&mut self, address: u16) -> Option<u8> {
        Keyboard::read(self, address)
    }

    fn write(&mut self, address: u16, data: u8) -> Result<(), WriteError> {
        Keyboard::write(self, address, data)
    }
}

} // verus!
