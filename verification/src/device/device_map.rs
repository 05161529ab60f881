//! An ordered collection of devices sharing the address space.
//!
//! Reads try each device in registration order and return the first answer.
//! Writes are broadcast to every device and per-device refusals are
//! absorbed, as on the real bus.

use vstd::prelude::*;

use super::Device;
use super::Keyboard;
use super::KeyUpdate;
use super::Ram;
use super::Rom;
use super::WriteError;

verus! {

/// One registered device.
pub enum DeviceSlot {
    Ram(Ram),
    Rom(Rom),
    Keyboard(Keyboard),
}

/// What a read of one slot returns, without the slot's own state change.
pub open spec fn slot_read_result(s: DeviceSlot, address: u16) -> Option<u8> {
    match s {
        DeviceSlot::Ram(r) => if r.covers(address) {
            Some(r.data@[address - r.start])
        } else {
            None
        },
        DeviceSlot::Rom(r) => if r.covers(address) {
            Some(r.data@[address - r.start])
        } else {
            None
        },
        DeviceSlot::Keyboard(k) => if address == k.addr {
            if k.keys@.len() == 0 {
                Some(0)
            } else if k.keys@[0].released {
                Some(0xe0)
            } else {
                Some(k.keys@[0].scancode)
            }
        } else {
            None
        },
    }
}

/// Two slots of the same kind with the same observable state.
pub open spec fn slot_unchanged(s0: DeviceSlot, s1: DeviceSlot) -> bool {
    match s0 {
        DeviceSlot::Ram(r0) => match s1 {
            DeviceSlot::Ram(r1) => r1.start == r0.start && r1.data@ == r0.data@,
            _ => false,
        },
        DeviceSlot::Rom(r0) => match s1 {
            DeviceSlot::Rom(r1) => r1.start == r0.start && r1.data@ == r0.data@,
            _ => false,
        },
        DeviceSlot::Keyboard(k0) => match s1 {
            DeviceSlot::Keyboard(k1) => k1.addr == k0.addr && k1.keys@ == k0.keys@,
            _ => false,
        },
    }
}

/// How a slot that answered a read relates to its state before it.  Only a
/// keyboard changes on a read.
pub open spec fn slot_read_after(s0: DeviceSlot, address: u16, s1: DeviceSlot) -> bool {
    match s0 {
        DeviceSlot::Keyboard(k0) => match s1 {
            DeviceSlot::Keyboard(k1) => k1.addr == k0.addr && (if k0.keys@.len() == 0 {
                k1.keys@ == k0.keys@
            } else if k0.keys@[0].released {
                k1.keys@ == k0.keys@.update(
                    0,
                    (KeyUpdate { scancode: k0.keys@[0].scancode, released: false }),
                )
            } else {
                k1.keys@ == k0.keys@.drop_first()
            }),
            _ => false,
        },
        _ => s1 == s0,
    }
}

/// How a slot relates to its state before a broadcast write.
pub open spec fn slot_write_after(s0: DeviceSlot, address: u16, data: u8, s1: DeviceSlot) -> bool {
    match s0 {
        DeviceSlot::Ram(r0) => match s1 {
            DeviceSlot::Ram(r1) => r1.start == r0.start && (if r0.covers(address) {
                r1.data@ == r0.data@.update(address - r0.start, data)
            } else {
                r1.data@ == r0.data@
            }),
            _ => false,
        },
        _ => s1 == s0,
    }
}

/// The index of the first device that answers a read at `address`, or the
/// length of the list when none does.
pub open spec fn first_hit(devs: Seq<DeviceSlot>, address: u16) -> int
    decreases devs.len(),
{
    if devs.len() == 0 {
        0
    } else if slot_read_result(devs[0], address) is Some {
        0
    } else {
        1 + first_hit(devs.drop_first(), address)
    }
}

/// `first_hit` is exactly the first index whose slot answers.
pub proof fn lemma_first_hit(devs: Seq<DeviceSlot>, address: u16, i: int)
    requires
        0 <= i <= devs.len(),
        forall|j: int| 0 <= j < i ==> slot_read_result(devs[j], address) is None,
        i < devs.len() ==> slot_read_result(devs[i], address) is Some,
    ensures
        first_hit(devs, address) == i,
    decreases i,
{
    if i == 0 {
        if devs.len() > 0 {
        }
    } else {
        assert(slot_read_result(devs[0], address) is None);
        assert forall|j: int| 0 <= j < i - 1 implies slot_read_result(
            devs.drop_first()[j],
            address,
        ) is None by {
            assert(devs.drop_first()[j] == devs[j + 1]);
        }
        if i - 1 < devs.drop_first().len() {
            assert(devs.drop_first()[i - 1] == devs[i]);
        }
        lemma_first_hit(devs.drop_first(), address, i - 1);
    }
}

/// The devices mapped into the address space, in registration order.
pub struct DeviceMap {
    pub devices: Vec<DeviceSlot>,
}

impl DeviceMap {
    /// An empty map.
    pub fn new() -> (r: DeviceMap)
        ensures
            r.devices@.len() == 0,
    {
        DeviceMap { devices: Vec::new() }
    }

    /// Register one device behind all earlier ones.
    pub fn add(&mut self, device: DeviceSlot)
        ensures
            final(self).devices@ == old(self).devices@.push(device),
    {
        self.devices.push(device);
    }

    /// Read at `address`: the first device in registration order that
    /// answers wins, and only that device may change state.  When none
    /// answers the read returns `None`.
    pub fn read(&mut self, address: u16) -> (r: Option<u8>)
        ensures
            ({
                let pre = old(self).devices@;
                let post = final(self).devices@;
                let h = first_hit(pre, address);
                &&& post.len() == pre.len()
                &&& forall|j: int|
                    0 <= j < pre.len() && j != h ==> slot_unchanged(pre[j], post[j])
                &&& h < pre.len() ==> r == slot_read_result(pre[h], address) && slot_read_after(
                    pre[h],
                    address,
                    post[h],
                )
                &&& h == pre.len() ==> r == None::<u8>
            }),
    {
        let ghost pre = self.devices@;
        let mut i: usize = 0;
        while i < self.devices.len()
            invariant
                pre == old(self).devices@,
                i <= self.devices@.len(),
                self.devices@.len() == pre.len(),
                forall|j: int| i <= j < pre.len() ==> self.devices@[j] == pre[j],
                forall|j: int| 0 <= j < i ==> slot_unchanged(pre[j], self.devices@[j]),
                forall|j: int| 0 <= j < i ==> slot_read_result(pre[j], address) is None,
            decreases self.devices@.len() - i,
        {
            let slot = &mut self.devices[i];
            let got: Option<u8> = match slot {
                DeviceSlot::Ram(r) => r.read(address),
                DeviceSlot::Rom(r) => r.read(address),
                DeviceSlot::Keyboard(k) => k.read(address),
            };
            match got {
                Some(value) => {
                    proof {
                        lemma_first_hit(pre, address, i as int);
                    }
                    return Some(value);
                },
                None => {
                    i = i + 1;
                },
            }
        }
        proof {
            lemma_first_hit(pre, address, pre.len() as int);
        }
        None
    }

    /// Broadcast a write at `address` to every device; refusals are
    /// absorbed and the write reports success.
    pub fn write(&mut self, address: u16, data: u8) -> (r: Result<(), WriteError>)
        ensures
            r == Ok::<(), WriteError>(()),
            final(self).devices@.len() == old(self).devices@.len(),
            forall|j: int|
                0 <= j < old(self).devices@.len() ==> slot_write_after(
                    old(self).devices@[j],
                    address,
                    data,
                    final(self).devices@[j],
                ),
    {
        let ghost pre = self.devices@;
        let mut i: usize = 0;
        while i < self.devices.len()
            invariant
                pre == old(self).devices@,
                i <= self.devices@.len(),
                self.devices@.len() == pre.len(),
                forall|j: int| i <= j < pre.len() ==> self.devices@[j] == pre[j],
                forall|j: int|
                    0 <= j < i ==> slot_write_after(pre[j], address, data, self.devices@[j]),
            decreases self.devices@.len() - i,
        {
            let slot = &mut self.devices[i];
            let _ = match slot {
                DeviceSlot::Ram(r) => r.write(address, data),
                DeviceSlot::Rom(r) => r.write(address, data),
                DeviceSlot::Keyboard(k) => k.write(address, data),
            };
            i = i + 1;
        }
        Ok(())
    }
}

impl Device for DeviceMap {
    fn read(&mut self, address: u16) -> Option<u8> {
        DeviceMap::read(self, address)
    }

    fn write(&mut self, address: u16, data: u8) -> Result<(), WriteError> {
        DeviceMap::write(self, address, data)
    }
}

} // verus!
