//! Inclusive ranges of 16-bit bus addresses.
use vstd::prelude::*;

verus! {

/// Bus address range (inclusive on both ends) assigned to a device.
#[derive(Clone, Copy, Debug, PartialEq, Eq, Structural)]
pub struct AddrRange {
    pub start: u16,
    pub end: u16,
}

impl AddrRange {
    /// A range is well formed when it holds at least one address.
    pub open spec fn wf(self) -> bool {
        self.start <= self.end
    }

    /// Whether `addr` lies in the range.
    pub open spec fn contains(self, addr: u16) -> bool {
        self.start <= addr <= self.end
    }

    /// Whether the two ranges intersect.
    pub open spec fn overlaps(self, other: AddrRange) -> bool {
        self.start <= other.end && other.start <= self.end
    }

    /// Number of addresses in a well-formed range.
    pub open spec fn size(self) -> int {
        self.end - self.start + 1
    }

    pub fn new(start: u16, end: u16) -> (range: Self)
        ensures
            range.start == start,
            range.end == end,
    {
        AddrRange { start, end }
    }

    /// Map given address to collection index starting from 0
    pub fn address_to_index(&self, addr: u16) -> (index: usize)
        requires
            self.start <= addr,
        ensures
            index == addr - self.start,
    {
        (addr - self.start) as usize
    }

    /// Runtime test for `contains`.
    pub fn includes(&self, addr: u16) -> (found: bool)
        ensures
            found == self.contains(addr),
    {
        self.start <= addr && addr <= self.end
    }

    /// Runtime test for `overlaps`.
    pub fn intersects(&self, other: &AddrRange) -> (found: bool)
        ensures
            found == self.overlaps(*other),
    {
        self.start <= other.end && other.start <= self.end
    }

    /// Two well-formed ranges overlap exactly when some address lies in both.
    pub proof fn lemma_overlap_shares_address(self, other: AddrRange)
        requires
            self.wf(),
            other.wf(),
        ensures
            self.overlaps(other) <==> exists|addr: u16|
                self.contains(addr) && other.contains(addr),
    {
        if self.overlaps(other) {
            let addr: u16 = if self.start <= other.start {
                other.start
            } else {
                self.start
            };
            assert(self.contains(addr) && other.contains(addr));
        }
    }
}

} // verus!
