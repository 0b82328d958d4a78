//! The stack in page one: pushes and pulls of bytes and of 16-bit values.
use vstd::prelude::*;
use crate::bus::{BusDevice, BusError};
use crate::cpu::alu::lemma_bytes_of_word;
use crate::cpu::isa::make_word;
use crate::cpu::semantics::high_byte;
use crate::cpu::Cpu;

verus! {

impl<D: BusDevice> Cpu<D> {
    /// Push a byte on the stack.
    pub fn stack_push_byte(&mut self, byte: u8) -> (r: Result<(), BusError>)
        requires
            old(self).wf(),
        ensures
            final(self).wf(),
            match old(self)@.push(byte) {
                Ok(state) => r is Ok && final(self)@ == state,
                Err(e) => r == Err::<(), BusError>(e) && final(self)@ == old(self)@,
            },
    {
        self.bus.write(0x0100_u16 + self.sp as u16, byte)?;
        self.sp = self.sp.wrapping_sub(1);
        Ok(())
    }

    /// Pop byte from stack
    pub fn stack_pop_byte(&mut self) -> (r: Result<u8, BusError>)
        requires
            old(self).wf(),
        ensures
            final(self).wf(),
            match old(self)@.pull() {
                Ok((state, byte)) => r == Ok::<u8, BusError>(byte) && final(self)@ == state,
                Err(e) => r == Err::<u8, BusError>(e) && final(self)@ == old(self)@,
            },
    {
        let sp = self.sp.wrapping_add(1);
        let byte = self.bus.read(0x0100_u16 + sp as u16)?;
        self.sp = sp;
        Ok(byte)
    }

    /// Push u16 to stack (high byte first)
    pub fn stack_push(&mut self, value: u16) -> (r: Result<(), BusError>)
        requires
            old(self).wf(),
        ensures
            final(self).wf(),
            match old(self)@.push_word(value) {
                Ok(state) => r is Ok && final(self)@ == state,
                Err(e) => r == Err::<(), BusError>(e) && final(self)@ == old(self)@,
            },
    {
        let first = 0x0100_u16 + self.sp as u16;
        let second = 0x0100_u16 + self.sp.wrapping_sub(1) as u16;
        if !self.bus.is_mapped(first) {
            return Err(BusError::Unmapped { addr: first });
        }
        proof {
            self.bus@.lemma_write_keeps_layout(first, high_byte(value), second);
            lemma_bytes_of_word(value);
        }
        if !self.bus.is_mapped(second) {
            return Err(BusError::Unmapped { addr: second });
        }
        self.stack_push_byte((value >> 8) as u8)?;
        self.stack_push_byte((value & 0xff) as u8)?;
        Ok(())
    }

    /// Pop u16 from stack
    pub fn stack_pop(&mut self) -> (r: Result<u16, BusError>)
        requires
            old(self).wf(),
        ensures
            final(self).wf(),
            match old(self)@.pull_word() {
                Ok((state, value)) => r == Ok::<u16, BusError>(value) && final(self)@ == state,
                Err(e) => r == Err::<u16, BusError>(e) && final(self)@ == old(self)@,
            },
    {
        let saved_sp = self.sp;
        let low_byte = self.stack_pop_byte()?;
        match self.stack_pop_byte() {
            Ok(high_byte) => Ok(make_word(low_byte, high_byte)),
            Err(e) => {
                self.sp = saved_sp;
                Err(e)
            },
        }
    }
}

} // verus!
