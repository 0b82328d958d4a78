//! Loading programs into the memory behind the bus: text dumps and raw
//! cartridge images.
use vstd::prelude::*;
use vstd::slice::slice_subrange;
use vstd::string::StringSliceAdditionalSpecFns;
use crate::bus::{BusDevice, MemoryMap};
use crate::cpu::hexdump::{parse_hexdump, records_of, records_view, LoadError};
use crate::cpu::semantics::CpuState;
use crate::cpu::Cpu;

verus! {

/// Size of the header at the start of a cartridge image.
pub const INES_HEADER_SIZE: usize = 0x10;

/// Size of one bank of program memory.
pub const PRG_BANK_SIZE: usize = 0x4000;

/// Address at which the first bank of program memory is mapped.
pub const PRG_START: u16 = 0xc000;

/// The bank of program memory that follows the header of an image.
pub open spec fn program_bank(image: Seq<u8>) -> Seq<u8> {
    image.subrange(INES_HEADER_SIZE as int, INES_HEADER_SIZE + PRG_BANK_SIZE)
}

/// The memory after the records of a dump are loaded one after the other,
/// each at its own address.
pub open spec fn load_records(memory: MemoryMap, records: Seq<(u16, Seq<u8>)>) -> MemoryMap
    decreases records.len(),
{
    if records.len() == 0 {
        memory
    } else {
        load_records(memory.load(records[0].0, records[0].1), records.drop_first())
    }
}

impl<D: BusDevice> Cpu<D> {
    /// Read hexdump generated by easy6502 assembler and load bytes to memory
    ///
    /// Nothing is written unless every line of the dump is a record. The
    /// registers are left alone.
    pub fn load_hexdump(&mut self, dump: &str) -> (r: Result<(), LoadError>)
        requires
            old(self).wf(),
        ensures
            final(self).wf(),
            match records_of(dump.spec_bytes()) {
                Ok(records) => r is Ok && final(self)@ == (CpuState {
                    mem: load_records(old(self)@.mem, records),
                    ..old(self)@
                }),
                Err(line) => r == Err::<(), LoadError>(
                    LoadError::MalformedLine { line: line as usize },
                ) && final(self)@ == old(self)@,
            },
    {
        // parse target address and bytes from each line
        let records = parse_hexdump(dump.as_bytes())?;

        // copy bytes to memory
        let mut i: usize = 0;
        proof {
            assert(records_view(records@).skip(0) =~= records_view(records@));
        }
        while i < records.len()
            invariant
                self.wf(),
                i <= records@.len(),
                self@ == (CpuState { mem: self@.mem, ..old(self)@ }),
                load_records(old(self)@.mem, records_view(records@)) == load_records(
                    self@.mem,
                    records_view(records@).skip(i as int),
                ),
            decreases records@.len() - i,
        {
            proof {
                assert(records_view(records@).skip(i as int).drop_first() =~= records_view(
                    records@,
                ).skip(i as int + 1));
            }
            self.bus.load(records[i].addr, records[i].bytes.as_slice());
            i += 1;
        }
        Ok(())
    }

    /// Load the first bank of program memory of a raw cartridge image: the
    /// `$4000` bytes after the header go to `$C000..=$FFFF`.
    ///
    /// An image too short to hold them is refused and nothing is written.
    /// The registers are left alone.
    pub fn load_ines(&mut self, image: &[u8]) -> (r: Result<(), LoadError>)
        requires
            old(self).wf(),
        ensures
            final(self).wf(),
            image@.len() >= INES_HEADER_SIZE + PRG_BANK_SIZE ==> r is Ok && final(self)@ == (
            CpuState { mem: old(self)@.mem.load(PRG_START, program_bank(image@)), ..old(self)@ }),
            image@.len() < INES_HEADER_SIZE + PRG_BANK_SIZE ==> r == Err::<(), LoadError>(
                LoadError::TruncatedImage,
            ) && final(self)@ == old(self)@,
    {
        if image.len() < INES_HEADER_SIZE + PRG_BANK_SIZE {
            return Err(LoadError::TruncatedImage);
        }
        let bank = slice_subrange(image, INES_HEADER_SIZE, INES_HEADER_SIZE + PRG_BANK_SIZE);
        self.bus.load(PRG_START, bank);
        Ok(())
    }
}

} // verus!
