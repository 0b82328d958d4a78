//! The mathematical model of the bus: what a device stores, which address
//! selects which byte, and how reads and writes act on a list of devices.
use vstd::prelude::*;
use crate::bus::range::AddrRange;
use crate::bus::BusError;

verus! {

/// What a memory-backed device is to the bus: the address range it claims and
/// the bytes it stores. An address of the range selects the byte at its
/// offset from the range's start, taken modulo the size of the store, so a
/// store smaller than the range repeats across it.
pub struct DeviceView {
    pub range: AddrRange,
    pub store: Seq<u8>,
}

impl DeviceView {
    pub open spec fn wf(self) -> bool {
        self.range.wf() && self.store.len() > 0
    }

    /// Index in the store of the byte that `addr` selects.
    pub open spec fn cell(self, addr: u16) -> int {
        (addr - self.range.start) % (self.store.len() as int)
    }

    /// The byte read at `addr`.
    pub open spec fn peek(self, addr: u16) -> u8 {
        self.store[self.cell(addr)]
    }

    /// The device after `data` is written at `addr`.
    pub open spec fn poke(self, addr: u16, data: u8) -> DeviceView {
        DeviceView { range: self.range, store: self.store.update(self.cell(addr), data) }
    }

    /// Two addresses alias when they select the same byte of the store.
    pub open spec fn aliases(self, a: u16, b: u16) -> bool {
        self.cell(a) == self.cell(b)
    }

    /// Length of the window that starts at `begin` and would end before `end`:
    /// it is cut at the end of the range and at the end of the store.
    pub open spec fn run(self, begin: u16, end: u16) -> int {
        let asked = if begin <= end { end - begin } else { 0 };
        let in_range = self.range.end + 1 - begin;
        let in_store = self.store.len() - self.cell(begin);
        if asked <= in_range && asked <= in_store {
            asked
        } else if in_range <= in_store {
            in_range
        } else {
            in_store
        }
    }

    /// The bytes of the window `[begin, end)`, cut as `run` says.
    pub open spec fn window(self, begin: u16, end: u16) -> Seq<u8> {
        self.store.subrange(self.cell(begin), self.cell(begin) + self.run(begin, end))
    }

    /// The cell of an address of the range lies in the store.
    pub proof fn lemma_cell_in_store(self, addr: u16)
        requires
            self.wf(),
            self.range.contains(addr),
        ensures
            0 <= self.cell(addr) < self.store.len(),
    {
    }

    /// Inside a window, consecutive addresses select consecutive cells: the
    /// byte at position `i` of the window is the byte read at `begin + i`.
    pub proof fn lemma_window_bytes(self, begin: u16, end: u16, i: int)
        requires
            self.wf(),
            self.range.contains(begin),
            0 <= i < self.run(begin, end),
        ensures
            self.window(begin, end).len() == self.run(begin, end),
            begin + i <= self.range.end,
            begin + i < end,
            self.window(begin, end)[i] == self.peek((begin + i) as u16),
    {
        let n = self.store.len() as int;
        let x = begin - self.range.start;
        assert((x + i) % n == x % n + i) by (nonlinear_arith)
            requires
                0 <= x,
                0 <= i,
                0 < n,
                x % n + i < n,
        ;
    }

    /// A write is seen at every address that aliases the written one, and at
    /// no other.
    pub proof fn lemma_poke_peek(self, addr: u16, data: u8, other: u16)
        requires
            self.wf(),
            self.range.contains(addr),
            self.range.contains(other),
        ensures
            self.poke(addr, data).wf(),
            self.poke(addr, data).range == self.range,
            self.poke(addr, data).cell(other) == self.cell(other),
            self.poke(addr, data).peek(other) == if self.aliases(addr, other) {
                data
            } else {
                self.peek(other)
            },
    {
    }

    /// Addresses of the range that differ by a multiple of the store's size
    /// alias each other.
    pub proof fn lemma_mirrors_alias(self, addr: u16, other: u16, k: int)
        requires
            self.wf(),
            other == addr + k * self.store.len(),
        ensures
            self.aliases(addr, other),
    {
        let n = self.store.len() as int;
        let x = addr - self.range.start;
        vstd::arithmetic::div_mod::lemma_mod_multiples_vanish(k, x, n);
        assert(n * k + x == other - self.range.start) by (nonlinear_arith)
            requires
                other == addr + k * n,
                x == addr - self.range.start,
        ;
    }
}

/// The devices attached to a bus, in the order in which they were attached.
pub struct MemoryMap {
    pub devices: Seq<DeviceView>,
}

impl MemoryMap {
    /// Every device is well formed and no two claimed ranges intersect.
    #[verifier::opaque]
    pub open spec fn wf(self) -> bool {
        &&& forall|i: int| 0 <= i < self.devices.len() ==> (#[trigger] self.devices[i]).wf()
        &&& forall|i: int, j: int|
            0 <= i < j < self.devices.len() ==> !(#[trigger] self.devices[i]).range.overlaps(
                (#[trigger] self.devices[j]).range,
            )
    }

    /// Device `i` claims `addr`.
    pub open spec fn claims(self, i: int, addr: u16) -> bool {
        0 <= i < self.devices.len() && self.devices[i].range.contains(addr)
    }

    /// Some device claims `addr`.
    #[verifier::opaque]
    pub open spec fn mapped(self, addr: u16) -> bool {
        exists|i: int| self.claims(i, addr)
    }

    /// The device that claims `addr`; it is unique in a well-formed map.
    #[verifier::opaque]
    pub open spec fn owner(self, addr: u16) -> int {
        choose|i: int| self.claims(i, addr)
    }

    /// The byte read at a mapped address.
    #[verifier::opaque]
    pub open spec fn read(self, addr: u16) -> u8 {
        self.devices[self.owner(addr)].peek(addr)
    }

    /// The map after `data` is written at a mapped address: only the store of
    /// the owning device changes.
    #[verifier::opaque]
    pub open spec fn write(self, addr: u16, data: u8) -> MemoryMap {
        MemoryMap {
            devices: self.devices.update(
                self.owner(addr),
                self.devices[self.owner(addr)].poke(addr, data),
            ),
        }
    }

    /// What a read at `addr` returns.
    pub open spec fn fetch(self, addr: u16) -> Result<u8, BusError> {
        if self.mapped(addr) {
            Ok(self.read(addr))
        } else {
            Err(BusError::Unmapped { addr })
        }
    }

    /// What a write at `addr` leaves behind.
    pub open spec fn store(self, addr: u16, data: u8) -> Result<MemoryMap, BusError> {
        if self.mapped(addr) {
            Ok(self.write(addr, data))
        } else {
            Err(BusError::Unmapped { addr })
        }
    }

    /// The map after a write that is dropped where no device claims `addr`.
    pub open spec fn write_if_mapped(self, addr: u16, data: u8) -> MemoryMap {
        if self.mapped(addr) {
            self.write(addr, data)
        } else {
            self
        }
    }

    /// The map after `bytes` are written, in order, at consecutive addresses
    /// from `start` on. The address after `$FFFF` is `$0000`; a byte whose
    /// address no device claims is dropped.
    pub open spec fn load(self, start: u16, bytes: Seq<u8>) -> MemoryMap
        decreases bytes.len(),
    {
        if bytes.len() == 0 {
            self
        } else {
            self.write_if_mapped(start, bytes[0]).load(start.wrapping_add(1), bytes.drop_first())
        }
    }

    /// The window `[begin, end)` as the device that claims `begin` cuts it.
    #[verifier::opaque]
    pub open spec fn window(self, begin: u16, end: u16) -> Seq<u8> {
        self.devices[self.owner(begin)].window(begin, end)
    }

    /// Two mapped addresses alias when the same device claims both and they
    /// select the same byte of its store.
    pub open spec fn aliases(self, a: u16, b: u16) -> bool {
        self.owner(a) == self.owner(b) && self.devices[self.owner(a)].aliases(a, b)
    }

    /// Device `k` is the first whose range intersects `range`.
    pub open spec fn first_conflict(self, k: int, range: AddrRange) -> bool {
        &&& 0 <= k < self.devices.len()
        &&& self.devices[k].range.overlaps(range)
        &&& forall|j: int| 0 <= j < k ==> !(#[trigger] self.devices[j]).range.overlaps(range)
    }

    /// No attached device intersects `range`.
    pub open spec fn free(self, range: AddrRange) -> bool {
        forall|j: int|
            0 <= j < self.devices.len() ==> !(#[trigger] self.devices[j]).range.overlaps(range)
    }

    /// The map with one more device attached at the end.
    pub open spec fn attach(self, device: DeviceView) -> MemoryMap {
        MemoryMap { devices: self.devices.push(device) }
    }

    /// In a well-formed map the device that claims an address is unique.
    pub proof fn lemma_owner(self, i: int, addr: u16)
        requires
            self.wf(),
            self.claims(i, addr),
        ensures
            self.mapped(addr),
            self.owner(addr) == i,
    {
        reveal(MemoryMap::wf);
        reveal(MemoryMap::mapped);
        reveal(MemoryMap::owner);
        let o = self.owner(addr);
        assert(self.claims(o, addr));
        if o != i {
            assert(self.devices[o].range.overlaps(self.devices[i].range));
        }
    }

    /// No address resolves to more than one device.
    pub proof fn lemma_unique_claim(self, i: int, j: int, addr: u16)
        requires
            self.wf(),
            self.claims(i, addr),
            self.claims(j, addr),
        ensures
            i == j,
    {
        self.lemma_owner(i, addr);
        self.lemma_owner(j, addr);
    }

    /// A write keeps the map well formed and changes neither which addresses
    /// are mapped nor which device claims them.
    pub proof fn lemma_write_keeps_layout(self, addr: u16, data: u8, other: u16)
        requires
            self.wf(),
            self.mapped(addr),
        ensures
            self.write(addr, data).wf(),
            self.write(addr, data).mapped(other) == self.mapped(other),
            self.mapped(other) ==> self.write(addr, data).owner(other) == self.owner(other),
    {
        reveal(MemoryMap::wf);
        reveal(MemoryMap::mapped);
        reveal(MemoryMap::owner);
        reveal(MemoryMap::write);
        let after = self.write(addr, data);
        let o = self.owner(addr);
        assert(self.claims(o, addr));
        assert(after.devices.len() == self.devices.len());
        assert forall|i: int| 0 <= i < after.devices.len() implies (#[trigger] after.devices[i]).range
            == self.devices[i].range && after.devices[i].wf() by {
            assert(self.devices[i].wf());
        }
        assert(after.wf()) by {
            assert forall|i: int, j: int| 0 <= i < j < after.devices.len() implies !(
            #[trigger] after.devices[i]).range.overlaps((#[trigger] after.devices[j]).range) by {
                assert(!self.devices[i].range.overlaps(self.devices[j].range));
            }
        }
        if self.mapped(other) {
            let p = self.owner(other);
            assert(self.claims(p, other));
            assert(after.claims(p, other));
            after.lemma_owner(p, other);
        }
        if after.mapped(other) {
            let p = after.owner(other);
            assert(after.claims(p, other));
            assert(self.claims(p, other));
        }
    }

    /// A write does not change which addresses alias each other.
    pub proof fn lemma_write_keeps_aliases(self, addr: u16, data: u8, a: u16, b: u16)
        requires
            self.wf(),
            self.mapped(addr),
            self.mapped(a),
            self.mapped(b),
        ensures
            self.write(addr, data).aliases(a, b) == self.aliases(a, b),
    {
        reveal(MemoryMap::wf);
        reveal(MemoryMap::mapped);
        reveal(MemoryMap::owner);
        reveal(MemoryMap::write);
        self.lemma_write_keeps_layout(addr, data, a);
        self.lemma_write_keeps_layout(addr, data, b);
        let o = self.owner(addr);
        assert(self.claims(self.owner(a), a));
        assert(self.claims(o, addr));
        assert(self.devices[o].wf());
        self.devices[o].lemma_cell_in_store(addr);
    }

    /// Read after write: the written value is read back at the written
    /// address and at every address that aliases it; every other mapped
    /// address keeps its byte.
    pub proof fn lemma_read_after_write(self, addr: u16, data: u8, other: u16)
        requires
            self.wf(),
            self.mapped(addr),
            self.mapped(other),
        ensures
            self.write(addr, data).read(addr) == data,
            self.write(addr, data).read(other) == if self.aliases(addr, other) {
                data
            } else {
                self.read(other)
            },
    {
        reveal(MemoryMap::wf);
        reveal(MemoryMap::mapped);
        reveal(MemoryMap::owner);
        reveal(MemoryMap::read);
        reveal(MemoryMap::write);
        let after = self.write(addr, data);
        let o = self.owner(addr);
        let p = self.owner(other);
        assert(self.claims(o, addr));
        assert(self.claims(p, other));
        self.lemma_write_keeps_layout(addr, data, addr);
        self.lemma_write_keeps_layout(addr, data, other);
        assert(self.devices[o].wf());
        self.devices[o].lemma_poke_peek(addr, data, addr);
        if p == o {
            self.devices[o].lemma_poke_peek(addr, data, other);
        }
    }

    /// Write and read round trip: a write to a mapped address succeeds, and
    /// a read of that address then returns the written value.
    pub proof fn lemma_store_then_fetch(self, addr: u16, data: u8)
        requires
            self.wf(),
            self.mapped(addr),
        ensures
            self.store(addr, data) is Ok,
            self.store(addr, data)->Ok_0.wf(),
            self.store(addr, data)->Ok_0.fetch(addr) == Ok::<u8, BusError>(data),
    {
        self.lemma_write_keeps_layout(addr, data, addr);
        self.lemma_read_after_write(addr, data, addr);
    }

    /// Round trip through a mirror: after a write at `addr`, the written
    /// value is read at every address of the same device that lies a
    /// multiple of the size of the device's store away.
    pub proof fn lemma_store_then_fetch_mirror(self, i: int, addr: u16, data: u8, k: int)
        requires
            self.wf(),
            self.claims(i, addr),
            self.claims(i, (addr + k * self.devices[i].store.len()) as u16),
            0 <= addr + k * self.devices[i].store.len() <= 0xffff,
        ensures
            self.store(addr, data) is Ok,
            self.store(addr, data)->Ok_0.fetch((addr + k * self.devices[i].store.len()) as u16)
                == Ok::<u8, BusError>(data),
    {
        reveal(MemoryMap::wf);
        let mirror = (addr + k * self.devices[i].store.len()) as u16;
        self.lemma_owner(i, addr);
        self.lemma_owner(i, mirror);
        self.devices[i].lemma_mirrors_alias(addr, mirror, k);
        self.lemma_write_keeps_layout(addr, data, mirror);
        self.lemma_read_after_write(addr, data, mirror);
    }

    /// Inside a window, position `i` holds the byte read at `begin + i`, an
    /// address that the device claiming `begin` claims too.
    pub proof fn lemma_window_bytes(self, begin: u16, end: u16, i: int)
        requires
            self.wf(),
            self.mapped(begin),
            0 <= i < self.window(begin, end).len(),
        ensures
            begin + i < end,
            self.mapped((begin + i) as u16),
            self.owner((begin + i) as u16) == self.owner(begin),
            self.window(begin, end)[i] == self.read((begin + i) as u16),
    {
        reveal(MemoryMap::wf);
        reveal(MemoryMap::mapped);
        reveal(MemoryMap::owner);
        reveal(MemoryMap::read);
        reveal(MemoryMap::window);
        let o = self.owner(begin);
        assert(self.claims(o, begin));
        let d = self.devices[o];
        assert(d.wf());
        d.lemma_cell_in_store(begin);
        d.lemma_window_bytes(begin, end, i);
        assert(self.claims(o, (begin + i) as u16));
        self.lemma_owner(o, (begin + i) as u16);
    }
}

} // verus!
