//! Operand resolution: from an addressing mode to an effective address and
//! to the byte it stands for.
use vstd::prelude::*;
use crate::bus::{BusDevice, BusError};
use crate::cpu::alu::from_signed;
use crate::cpu::isa::{make_word, AddrKind, AddrMode, Instruction};
use crate::cpu::Cpu;

verus! {

impl<D: BusDevice> Cpu<D> {
    /// The 16-bit pointer stored in the zero page at `at`.
    pub(crate) fn read_pointer(&self, at: u8) -> (r: Result<u16, BusError>)
        requires
            self.wf(),
        ensures
            r == self@.pointer(at),
    {
        let indirect_low = self.bus.read(at as u16)?;
        let indirect_high = self.bus.read(at.wrapping_add(1) as u16)?;
        Ok(make_word(indirect_low, indirect_high))
    }

    /// The effective address of a mode that names a byte in memory.
    pub fn get_address(&self, mode: &AddrMode) -> (r: Result<u16, BusError>)
        requires
            self.wf(),
            mode.kind().addressable(),
        ensures
            r == self@.address(*mode),
    {
        match mode {
            AddrMode::Abs(addr) => Ok(*addr),
            AddrMode::AbsX(addr) => Ok(addr.wrapping_add(self.x as u16)),
            AddrMode::AbsY(addr) => Ok(addr.wrapping_add(self.y as u16)),
            AddrMode::XInd(addr) => self.read_pointer(addr.wrapping_add(self.x)),
            AddrMode::IndY(addr) => {
                let indirect = self.read_pointer(*addr)?;
                Ok(indirect.wrapping_add(self.y as u16))
            },
            AddrMode::Zpg(addr) => Ok(*addr as u16),
            AddrMode::ZpgX(addr) => Ok(addr.wrapping_add(self.x) as u16),
            AddrMode::ZpgY(addr) => Ok(addr.wrapping_add(self.y) as u16),
            _ => Ok(0),
        }
    }

    /// Get instruction operand according to the associated addressing mode
    /// operand of relative addressing is also returned as u8
    pub fn get_operand(&self, instruction: &Instruction) -> (r: Result<u8, BusError>)
        requires
            self.wf(),
            instruction.addr_mode.kind().resolvable(),
        ensures
            r == self@.operand(instruction.addr_mode),
    {
        match &instruction.addr_mode {
            AddrMode::A => Ok(self.a),
            AddrMode::Imm(value) => Ok(*value),
            AddrMode::Rel(value) => Ok(from_signed(*value)),
            AddrMode::Impl => Ok(0),
            AddrMode::Ind(_addr) => Ok(0),
            mode => {
                let addr = self.get_address(mode)?;
                self.bus.read(addr)
            },
        }
    }

    /// Write `value` to the accumulator in accumulator mode, else to the
    /// effective address of `mode`.
    pub(crate) fn write_back(&mut self, mode: &AddrMode, value: u8) -> (r: Result<(), BusError>)
        requires
            old(self).wf(),
            mode.kind() == AddrKind::A || mode.kind().addressable(),
        ensures
            final(self).wf(),
            match old(self)@.put(*mode, value) {
                Ok(state) => r is Ok && final(self)@ == state,
                Err(e) => r == Err::<(), BusError>(e) && final(self)@ == old(self)@,
            },
    {
        match mode {
            AddrMode::A => {
                self.a = value;
                Ok(())
            },
            _ => {
                let addr = self.get_address(mode)?;
                self.bus.write(addr, value)
            },
        }
    }
}

} // verus!
