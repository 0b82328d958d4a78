//! The address-space router and the devices that can be attached to it.
use vstd::prelude::*;

pub mod range;
pub mod model;
pub mod device;

pub use range::AddrRange;
pub use model::{DeviceView, MemoryMap};
pub use device::{BusDevice, RamDevice, CpuRamDevice};

verus! {

/// Why the bus refused an operation.
#[derive(Clone, Copy, Debug, PartialEq, Eq, Structural)]
pub enum BusError {
    /// The range of a new device intersects the range of an attached one.
    Overlap { new_range: AddrRange, existing_range: AddrRange },
    /// No attached device claims the address.
    Unmapped { addr: u16 },
}

/// Abstraction of the NES system bus
pub struct Bus<D: BusDevice> {
    devices: Vec<D>,
}

impl<D: BusDevice> Bus<D> {
    /// The attached devices as the model sees them.
    pub closed spec fn view(&self) -> MemoryMap {
        MemoryMap { devices: Seq::new(self.devices@.len(), |i: int| self.devices@[i]@) }
    }

    /// Every attached device is consistent.
    pub closed spec fn devices_inv(&self) -> bool {
        forall|i: int| 0 <= i < self.devices@.len() ==> (#[trigger] self.devices@[i]).inv()
    }

    /// The devices are consistent and their ranges pairwise disjoint.
    pub open spec fn wf(&self) -> bool {
        self.devices_inv() && self@.wf()
    }

    /// Initialize an empty `Bus`
    pub fn new() -> (bus: Self)
        ensures
            bus.wf(),
            bus@.devices == Seq::<DeviceView>::empty(),
    {
        proof {
            reveal(MemoryMap::wf);
        }
        let bus = Bus { devices: Vec::new() };
        assert(bus@.devices =~= Seq::<DeviceView>::empty());
        bus
    }

    /// Add a `BusDevice` to this `Bus`
    ///
    /// The device is attached after the others unless its range intersects
    /// the range of an attached device; the error names the first such
    /// device's range, and the bus is then unchanged.
    pub fn add(&mut self, device: D) -> (r: Result<(), BusError>)
        requires
            old(self).wf(),
            device.inv(),
        ensures
            final(self).wf(),
            match r {
                Ok(()) => {
                    &&& old(self)@.free(device@.range)
                    &&& final(self)@ == old(self)@.attach(device@)
                },
                Err(e) => {
                    &&& *final(self) == *old(self)
                    &&& exists|k: int|
                        old(self)@.first_conflict(k, device@.range) && e == (BusError::Overlap {
                            new_range: device@.range,
                            existing_range: old(self)@.devices[k].range,
                        })
                },
            },
    {
        proof {
            reveal(MemoryMap::wf);
        }
        let new_range = *device.get_addr_range();
        let mut i: usize = 0;
        // make sure that no address ranges overlap
        while i < self.devices.len()
            invariant
                *self == *old(self),
                self.wf(),
                new_range == device@.range,
                i <= self.devices@.len(),
                forall|j: int| 0 <= j < i ==> !(#[trigger] self@.devices[j]).range.overlaps(new_range),
            decreases self.devices@.len() - i,
        {
            let existing = *self.devices[i].get_addr_range();
            if existing.intersects(&new_range) {
                proof {
                    assert(self@.devices[i as int].range == existing);
                    assert(self@.first_conflict(i as int, new_range));
                }
                return Err(BusError::Overlap { new_range, existing_range: existing });
            }
            i += 1;
        }
        proof {
            device.lemma_inv();
        }
        self.devices.push(device);
        proof {
            assert(self@.devices =~= old(self)@.attach(device@).devices);
            assert forall|a: int, b: int| 0 <= a < b < self@.devices.len() implies !(
            #[trigger] self@.devices[a]).range.overlaps((#[trigger] self@.devices[b]).range) by {
                if b < old(self)@.devices.len() {
                    assert(!old(self)@.devices[a].range.overlaps(old(self)@.devices[b].range));
                } else {
                    assert(!old(self)@.devices[a].range.overlaps(new_range));
                }
            }
            assert forall|a: int| 0 <= a < self@.devices.len() implies (
            #[trigger] self@.devices[a]).wf() by {
                if a < old(self)@.devices.len() {
                    assert(old(self)@.devices[a].wf());
                }
            }
        }
        Ok(())
    }

    /// Index of the device that claims `addr`, if there is one.
    fn locate(&self, addr: u16) -> (r: Option<usize>)
        requires
            self.wf(),
        ensures
            match r {
                Some(i) => self@.claims(i as int, addr) && self@.mapped(addr) && self@.owner(addr)
                    == i && i < self.devices@.len(),
                None => !self@.mapped(addr),
            },
    {
        proof {
            reveal(MemoryMap::mapped);
        }
        let mut i: usize = 0;
        while i < self.devices.len()
            invariant
                self.wf(),
                i <= self.devices@.len(),
                forall|j: int| 0 <= j < i ==> !self@.claims(j, addr),
            decreases self.devices@.len() - i,
        {
            if self.devices[i].get_addr_range().includes(addr) {
                proof {
                    assert(self@.claims(i as int, addr));
                    self@.lemma_owner(i as int, addr);
                }
                return Some(i);
            }
            i += 1;
        }
        None
    }

    /// Get a reference to `BusDevice` mapped to given address
    pub fn get_mapped_device(&self, addr: u16) -> (r: Result<&D, BusError>)
        requires
            self.wf(),
        ensures
            match r {
                Ok(device) => {
                    &&& self@.mapped(addr)
                    &&& device.inv()
                    &&& device@ == self@.devices[self@.owner(addr)]
                },
                Err(e) => !self@.mapped(addr) && e == (BusError::Unmapped { addr }),
            },
    {
        match self.locate(addr) {
            Some(i) => Ok(&self.devices[i]),
            None => Err(BusError::Unmapped { addr }),
        }
    }

    /// Whether some device claims `addr`.
    pub fn is_mapped(&self, addr: u16) -> (found: bool)
        requires
            self.wf(),
        ensures
            found == self@.mapped(addr),
    {
        self.locate(addr).is_some()
    }

    /// Read a single byte from bus address `addr`
    pub fn read(&self, addr: u16) -> (r: Result<u8, BusError>)
        requires
            self.wf(),
        ensures
            r == self@.fetch(addr),
    {
        proof {
            reveal(MemoryMap::mapped);
            reveal(MemoryMap::owner);
            reveal(MemoryMap::read);
        }
        let device = self.get_mapped_device(addr)?;
        Ok(device.read_from_bus(addr))
    }

    /// Read a slice of bytes from the address range [begin, end)
    ///
    /// The device that claims `begin` serves the whole request and cuts it
    /// where its range or its store ends.
    pub fn read_slice(&self, begin: u16, end: u16) -> (r: Result<&[u8], BusError>)
        requires
            self.wf(),
        ensures
            match r {
                Ok(bytes) => self@.mapped(begin) && bytes@ == self@.window(begin, end),
                Err(e) => !self@.mapped(begin) && e == (BusError::Unmapped { addr: begin }),
            },
    {
        proof {
            reveal(MemoryMap::mapped);
            reveal(MemoryMap::owner);
            reveal(MemoryMap::window);
        }
        let device = self.get_mapped_device(begin)?;
        Ok(device.read_slice_from_bus(begin, end))
    }

    /// Write a single byte to bus address `addr`
    ///
    /// Exactly one device's store changes; an unmapped address leaves the
    /// bus as it was.
    pub fn write(&mut self, addr: u16, data: u8) -> (r: Result<(), BusError>)
        requires
            old(self).wf(),
        ensures
            final(self).wf(),
            match old(self)@.store(addr, data) {
                Ok(memory) => r is Ok && final(self)@ == memory,
                Err(e) => r == Err::<(), BusError>(e) && *final(self) == *old(self),
            },
    {
        proof {
            reveal(MemoryMap::write);
        }
        match self.locate(addr) {
            Some(i) => {
                self.devices[i].write_from_bus(addr, data);
                proof {
                    assert(self@.devices =~= old(self)@.write(addr, data).devices);
                    old(self)@.lemma_write_keeps_layout(addr, data, addr);
                }
                Ok(())
            },
            None => Err(BusError::Unmapped { addr }),
        }
    }

    /// Copy `bytes` into mapped memory at consecutive addresses from `start`
    /// on, through `write`; a byte whose address no device claims is
    /// dropped.
    pub fn load(&mut self, start: u16, bytes: &[u8])
        requires
            old(self).wf(),
        ensures
            final(self).wf(),
            final(self)@ == old(self)@.load(start, bytes@),
    {
        let mut addr = start;
        let mut i: usize = 0;
        proof {
            assert(bytes@.skip(0) =~= bytes@);
        }
        while i < bytes.len()
            invariant
                self.wf(),
                i <= bytes@.len(),
                old(self)@.load(start, bytes@) == self@.load(addr, bytes@.skip(i as int)),
            decreases bytes@.len() - i,
        {
            proof {
                assert(bytes@.skip(i as int).drop_first() =~= bytes@.skip(i as int + 1));
            }
            let _ = self.write(addr, bytes[i]);
            addr = addr.wrapping_add(1);
            i += 1;
        }
    }
}

} // verus!
