//! The processor: registers, status flags and the execution of instructions.
use vstd::prelude::*;

pub mod isa;
pub mod flags;
pub mod semantics;
pub mod alu;
pub mod operand;
pub mod stack;
pub mod execute;
pub mod hexdump;
pub mod loader;
pub mod theorems;

pub use flags::{
    BitOps, CARRY_BIT, DECIMAL_BIT, INT_DISABLE_BIT, NEGATIVE_BIT, OVERFLOW_BIT, ZERO_BIT,
};
pub use semantics::CpuState;

use crate::bus::{Bus, BusDevice, BusError};
use flags::with_bit;
use isa::{decode, DecodeError, Instruction, InstructionType};

verus! {

/// Why a step of the processor failed.
#[derive(Clone, Copy, Debug, PartialEq, Eq, Structural)]
pub enum CpuError {
    /// A fetch, a read or a write met an address that no device claims.
    Bus(BusError),
    /// The bytes at the program counter are not an instruction.
    Decode(DecodeError),
    /// The instruction is `BRK`; interrupts are not emulated.
    Unsupported { opcode: u8 },
}

/// Last address from which a window of three bytes can be asked for.
pub const LAST_FULL_FETCH: u16 = 0xfffc;

/*** CPU structure ***/
pub struct Cpu<D: BusDevice> {
    // the system bus, which the processor owns
    pub bus: Bus<D>,
    // registers
    pub a: u8,
    pub x: u8,
    pub y: u8,
    pub sp: u8,
    pub pc: u16,
    pub sr: u8,
}

/// The exclusive end of the window fetched at `pc`: three bytes on, but not
/// past the last address.
pub open spec fn fetch_end(pc: u16) -> u16 {
    if pc <= LAST_FULL_FETCH {
        (pc + 3) as u16
    } else {
        0xffff
    }
}

impl CpuState {
    /// One step of the processor: fetch the window at the program counter,
    /// decode it, execute the instruction. A step fails, and changes
    /// nothing, when the program counter is unmapped, when the window does
    /// not decode, when the instruction is `BRK`, or when the instruction
    /// meets an unmapped address.
    pub open spec fn step(self) -> Result<CpuState, CpuError> {
        match self.mem.fetch(self.pc) {
            Err(e) => Err(CpuError::Bus(e)),
            Ok(_) => match decode(self.mem.window(self.pc, fetch_end(self.pc))) {
                Err(e) => Err(CpuError::Decode(e)),
                Ok(ins) => if ins.ins_type == InstructionType::BRK {
                    Err(CpuError::Unsupported { opcode: ins.machine_code[0] })
                } else {
                    match self.effect(ins) {
                        Err(e) => Err(CpuError::Bus(e)),
                        Ok(state) => Ok(state),
                    }
                },
            },
        }
    }
}

impl<D: BusDevice> Cpu<D> {
    /// The registers and the memory behind the bus.
    pub open spec fn view(&self) -> CpuState {
        CpuState {
            a: self.a,
            x: self.x,
            y: self.y,
            sp: self.sp,
            pc: self.pc,
            sr: self.sr,
            mem: self.bus@,
        }
    }

    /// The processor is consistent when its bus is.
    pub open spec fn wf(&self) -> bool {
        self.bus.wf()
    }

    /// A processor in its reset state, wired to `bus`: registers zero, stack
    /// pointer `$FD`, and of the flags only interrupt-disable set.
    pub fn init(bus: Bus<D>) -> (cpu: Self)
        requires
            bus.wf(),
        ensures
            cpu.wf(),
            cpu.bus == bus,
            cpu@ == (CpuState {
                a: 0,
                x: 0,
                y: 0,
                sp: 0xfd,
                pc: 0,
                sr: with_bit(0, INT_DISABLE_BIT, true),
                mem: bus@,
            }),
    {
        // enable interrupt_disable bit on startup
        let mut init_sr: u8 = 0;
        init_sr.set_bit(INT_DISABLE_BIT);

        Cpu { bus, a: 0, x: 0, y: 0, sp: 0xfd, pc: 0u16, sr: init_sr }
    }

    /// Forward emulation by one instruction
    pub fn tick(&mut self) -> (r: Result<(), CpuError>)
        requires
            old(self).wf(),
        ensures
            final(self).wf(),
            match old(self)@.step() {
                Ok(state) => r is Ok && final(self)@ == state,
                Err(e) => r == Err::<(), CpuError>(e) && final(self)@ == old(self)@,
            },
    {
        // Fetch
        let end: u16 = if self.pc <= LAST_FULL_FETCH {
            self.pc + 3
        } else {
            0xffff
        };
        let instruction_bytes = match self.bus.read_slice(self.pc, end) {
            Ok(bytes) => bytes,
            Err(e) => {
                return Err(CpuError::Bus(e));
            },
        };

        // Decode
        let instruction = match Instruction::from(instruction_bytes) {
            Ok(instruction) => instruction,
            Err(e) => {
                return Err(CpuError::Decode(e));
            },
        };
        if instruction.ins_type == InstructionType::BRK {
            return Err(CpuError::Unsupported { opcode: instruction.machine_code[0] });
        }

        // Execute
        proof {
            isa::lemma_decoded_is_legal(instruction_bytes@);
        }
        match self.execute(&instruction) {
            Ok(()) => Ok(()),
            Err(e) => Err(CpuError::Bus(e)),
        }
    }
}

} // verus!
