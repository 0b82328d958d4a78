//! The interface between the bus and a device, and the two kinds of RAM.
use vstd::prelude::*;
use vstd::slice::slice_subrange;
use crate::bus::range::AddrRange;
use crate::bus::model::DeviceView;

verus! {

/// A device connected to the system bus `Bus`
pub trait BusDevice {
    /// The range the device claims and the bytes it stores.
    spec fn view(&self) -> DeviceView;

    /// The device's own consistency condition.
    spec fn inv(&self) -> bool;

    /// A consistent device has a well-formed view.
    proof fn lemma_inv(&self)
        requires
            self.inv(),
        ensures
            self@.wf(),
    ;

    /// Read a single byte from bus address `addr`
    /// `Bus` calls this function when it wants to read from a particular device
    fn read_from_bus(&self, addr: u16) -> (data: u8)
        requires
            self.inv(),
            self@.range.contains(addr),
        ensures
            data == self@.peek(addr),
    ;

    /// Read a slice of bytes from bus address range [begin, end)
    /// `Bus` calls this function when it wants to read from a particular device
    ///
    /// The slice is cut where the device's range or its store ends.
    fn read_slice_from_bus(&self, begin: u16, end: u16) -> (bytes: &[u8])
        requires
            self.inv(),
            self@.range.contains(begin),
        ensures
            bytes@ == self@.window(begin, end),
    ;

    /// Write a single byte `data` to bus address `addr`
    /// `Bus` calls this function when it wants to write to a particular device
    fn write_from_bus(&mut self, addr: u16, data: u8)
        requires
            old(self).inv(),
            old(self)@.range.contains(addr),
        ensures
            final(self).inv(),
            final(self)@ == old(self)@.poke(addr, data),
    ;

    /// Get address range associated with the device
    fn get_addr_range(&self) -> (range: &AddrRange)
        ensures
            *range == self@.range,
    ;
}

/// `BusDevice` representing a contiguous block of random access memory
pub struct RamDevice {
    addr_range: AddrRange,  // Bus address range mapped to this device
    memory: Vec<u8>,  // Bytes stored in the device
}

impl RamDevice {
    /// A block of `size` zero bytes mapped at `start`.
    pub fn new(start: usize, size: usize) -> (device: Self)
        requires
            1 <= size,
            start + size <= 0x1_0000,
        ensures
            device.inv(),
            device@.range == (AddrRange { start: start as u16, end: (start + size - 1) as u16 }),
            device@.store == Seq::new(size as nat, |i: int| 0u8),
    {
        let device = RamDevice {
            addr_range: AddrRange { start: start as u16, end: (start + size - 1) as u16 },
            memory: vec![0u8; size],
        };
        assert(device@.store =~= Seq::new(size as nat, |i: int| 0u8));
        device
    }

    /// Store at every index the index modulo 256.
    pub fn fill_with_test_data(&mut self)
        requires
            old(self).inv(),
        ensures
            final(self).inv(),
            final(self)@.range == old(self)@.range,
            final(self)@.store == Seq::new(old(self)@.store.len(), |i: int| (i % 256) as u8),
    {
        let n = self.memory.len();
        let mut i: usize = 0;
        while i < n
            invariant
                i <= n,
                n == self.memory.len(),
                self.addr_range == old(self).addr_range,
                n == old(self).memory.len(),
                forall|j: int| 0 <= j < i ==> self.memory@[j] == (j % 256) as u8,
            decreases n - i,
        {
            self.memory[i] = (i % 256) as u8;
            i += 1;
        }
        assert(self@.store =~= Seq::new(old(self)@.store.len(), |i: int| (i % 256) as u8));
    }

    /// The store is as long as the range, so an address selects the byte at
    /// its offset from the range's start.
    pub proof fn lemma_cell_is_offset(&self, addr: u16)
        requires
            self.inv(),
            self@.range.contains(addr),
        ensures
            self@.store.len() == self@.range.size(),
            self@.cell(addr) == addr - self@.range.start,
    {
        vstd::arithmetic::div_mod::lemma_small_mod(
            (addr - self.addr_range.start) as nat,
            self.memory@.len(),
        );
    }

    /// Every address of the range has a byte of its own: two addresses
    /// alias only if they are the same.
    pub proof fn lemma_no_aliases(&self, a: u16, b: u16)
        requires
            self.inv(),
            self@.range.contains(a),
            self@.range.contains(b),
        ensures
            self@.aliases(a, b) <==> a == b,
    {
        self.lemma_cell_is_offset(a);
        self.lemma_cell_is_offset(b);
    }
}

impl BusDevice for RamDevice {
    closed spec fn view(&self) -> DeviceView {
        DeviceView { range: self.addr_range, store: self.memory@ }
    }

    closed spec fn inv(&self) -> bool {
        self.addr_range.wf() && self.memory@.len() == self.addr_range.size()
    }

    proof fn lemma_inv(&self) {
    }

    fn read_from_bus(&self, addr: u16) -> (data: u8) {
        proof {
            self.lemma_cell_is_offset(addr);
        }
        self.memory[self.addr_range.address_to_index(addr)]
    }

    fn read_slice_from_bus(&self, begin: u16, end: u16) -> (bytes: &[u8]) {
        proof {
            self.lemma_cell_is_offset(begin);
        }
        let start_idx = self.addr_range.address_to_index(begin);
        let asked: usize = if begin <= end {
            (end - begin) as usize
        } else {
            0
        };
        let left: usize = self.memory.len() - start_idx;
        let count: usize = if asked <= left {
            asked
        } else {
            left
        };
        slice_subrange(self.memory.as_slice(), start_idx, start_idx + count)
    }

    fn write_from_bus(&mut self, addr: u16, data: u8) {
        proof {
            self.lemma_cell_is_offset(addr);
        }
        let index = self.addr_range.address_to_index(addr);
        self.memory[index] = data;
    }

    fn get_addr_range(&self) -> (range: &AddrRange) {
        &self.addr_range
    }
}

/// Size in bytes of the processor's internal RAM.
pub const CPU_RAM_SIZE: usize = 2048;

/// Last address of the window across which the internal RAM repeats.
pub const CPU_RAM_END: u16 = 0x1fff;

/// `BusDevice` representing 2KB of CPU RAM with mirroring until address $1FFF
pub struct CpuRamDevice {
    addr_range: AddrRange,  // Bus address range mapped to this device
    memory: Vec<u8>,  // Bytes stored in the device
}

impl CpuRamDevice {
    /// 2048 zero bytes, repeated four times across `$0000..=$1FFF`.
    pub fn new() -> (device: Self)
        ensures
            device.inv(),
            device@.range == (AddrRange { start: 0, end: CPU_RAM_END }),
            device@.store == Seq::new(CPU_RAM_SIZE as nat, |i: int| 0u8),
    {
        let device = CpuRamDevice {
            addr_range: AddrRange { start: 0x0000, end: CPU_RAM_END },
            memory: vec![0u8; CPU_RAM_SIZE],
        };
        assert(device@.store =~= Seq::new(CPU_RAM_SIZE as nat, |i: int| 0u8));
        device
    }

    /// The store holds 2048 bytes and the range is `$0000..=$1FFF`, so
    /// every byte is seen at four addresses, 2048 apart.
    pub proof fn lemma_mirrors(&self, a: u16, b: u16)
        requires
            self.inv(),
            self@.range.contains(a),
            self@.range.contains(b),
        ensures
            self@.range == (AddrRange { start: 0, end: CPU_RAM_END }),
            self@.store.len() == CPU_RAM_SIZE,
            self@.aliases(a, b) <==> a % 2048 == b % 2048,
    {
    }

    /// Masking an address with the store's size less one gives its cell.
    pub proof fn lemma_mask_is_cell(addr: u16)
        ensures
            (addr & 0x7ff) as int == addr as int % 2048,
            addr & 0x7ff <= addr,
    {
        assert(addr & 0x7ff == addr % 2048) by (bit_vector);
        assert(addr & 0x7ff <= addr) by (bit_vector);
    }
}

impl BusDevice for CpuRamDevice {
    closed spec fn view(&self) -> DeviceView {
        DeviceView { range: self.addr_range, store: self.memory@ }
    }

    closed spec fn inv(&self) -> bool {
        self.addr_range == (AddrRange { start: 0, end: CPU_RAM_END }) && self.memory@.len()
            == CPU_RAM_SIZE
    }

    proof fn lemma_inv(&self) {
    }

    fn read_from_bus(&self, addr: u16) -> (data: u8) {
        proof {
            Self::lemma_mask_is_cell(addr);
        }
        self.memory[self.addr_range.address_to_index(addr & 0x7ff)]
    }

    fn read_slice_from_bus(&self, begin: u16, end: u16) -> (bytes: &[u8]) {
        proof {
            Self::lemma_mask_is_cell(begin);
        }
        let start_idx = self.addr_range.address_to_index(begin & 0x7ff);
        let asked: usize = if begin <= end {
            (end - begin) as usize
        } else {
            0
        };
        let left: usize = self.memory.len() - start_idx;
        let count: usize = if asked <= left {
            asked
        } else {
            left
        };
        slice_subrange(self.memory.as_slice(), start_idx, start_idx + count)
    }

    fn write_from_bus(&mut self, addr: u16, data: u8) {
        proof {
            Self::lemma_mask_is_cell(addr);
        }
        let index = self.addr_range.address_to_index(addr & 0x7ff);
        self.memory[index] = data;
    }

    fn get_addr_range(&self) -> (range: &AddrRange) {
        &self.addr_range
    }
}

} // verus!
