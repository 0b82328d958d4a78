//! The execution of one decoded instruction.
use vstd::prelude::*;
use crate::bus::{BusDevice, BusError};
use crate::cpu::alu::{lemma_complement, lemma_shifts};
use crate::cpu::flags::{
    lemma_sign_bit, BitOps, CARRY_BIT, DECIMAL_BIT, INT_DISABLE_BIT, NEGATIVE_BIT, OVERFLOW_BIT,
    ZERO_BIT,
};
use crate::cpu::isa::{
    make_word, AddrKind, AddrMode, Category, Instruction, InstructionType,
};
use crate::cpu::semantics::{
    is_branch, is_flow, is_implied, is_memory_step, is_shift, is_store, takes_operand, wrap16,
    CpuState,
};
use crate::cpu::Cpu;

verus! {

/// What every part of `execute` leaves behind, seen before the program
/// counter is advanced past the instruction, `length` bytes long: where the
/// instruction calls for a state, that state once the counter has moved on;
/// where it fails, the state as it was.
pub open spec fn carried_out(
    before: CpuState,
    after: CpuState,
    length: nat,
    expected: Result<CpuState, BusError>,
    r: Result<(), BusError>,
) -> bool {
    match expected {
        Ok(state) => r is Ok && after.with_pc(wrap16(after.pc + length)) == state,
        Err(e) => r == Err::<(), BusError>(e) && after == before,
    }
}

impl Instruction {
    /// Whether `execute` can take the instruction: its encoding is as long
    /// as its addressing mode says, the mode is legal for it, and it is not
    /// `BRK`.
    pub fn is_executable(&self) -> (yes: bool)
        ensures
            yes == self@.executable(),
    {
        let kind = self.addr_mode.get_kind();
        let addressable = match kind {
            AddrKind::Zpg
            | AddrKind::ZpgX
            | AddrKind::ZpgY
            | AddrKind::Abs
            | AddrKind::AbsX
            | AddrKind::AbsY
            | AddrKind::XInd
            | AddrKind::IndY => true,
            _ => false,
        };
        let legal = match self.ins_type.category() {
            Category::Arithmetic | Category::Logical | Category::Compare | Category::Branch => {
                kind != AddrKind::Impl && kind != AddrKind::Ind
            },
            Category::LoadStore => match self.ins_type {
                InstructionType::STA | InstructionType::STX | InstructionType::STY => addressable,
                _ => kind != AddrKind::Impl && kind != AddrKind::Ind,
            },
            Category::ShiftRotate => kind == AddrKind::A || addressable,
            Category::IncDec => match self.ins_type {
                InstructionType::INC | InstructionType::DEC => addressable,
                _ => true,
            },
            Category::Jump => match self.ins_type {
                InstructionType::JMP => kind == AddrKind::Abs || kind == AddrKind::Ind,
                InstructionType::JSR => kind == AddrKind::Abs,
                InstructionType::BRK => false,
                _ => true,
            },
            _ => true,
        };
        legal && self.machine_code.len() == 1 + kind.operand_len()
    }
}

impl<D: BusDevice> Cpu<D> {
    /// Execute single machine instruction
    ///
    /// On success the program counter holds the address of the next
    /// instruction to fetch. On failure nothing has changed.
    pub fn execute(&mut self, instruction: &Instruction) -> (r: Result<(), BusError>)
        requires
            old(self).wf(),
            instruction@.executable(),
        ensures
            final(self).wf(),
            match old(self)@.effect(instruction@) {
                Ok(state) => r is Ok && final(self)@ == state,
                Err(e) => r == Err::<(), BusError>(e) && final(self)@ == old(self)@,
            },
    {
        match instruction.ins_type {
            InstructionType::LDA
            | InstructionType::LDX
            | InstructionType::LDY
            | InstructionType::ADC
            | InstructionType::SBC
            | InstructionType::AND
            | InstructionType::ORA
            | InstructionType::EOR
            | InstructionType::CMP
            | InstructionType::CPX
            | InstructionType::CPY
            | InstructionType::BIT => self.execute_operand(instruction)?,
            InstructionType::BCC
            | InstructionType::BCS
            | InstructionType::BEQ
            | InstructionType::BNE
            | InstructionType::BMI
            | InstructionType::BPL
            | InstructionType::BVC
            | InstructionType::BVS => self.execute_branch(instruction)?,
            InstructionType::ASL
            | InstructionType::LSR
            | InstructionType::ROL
            | InstructionType::ROR
            | InstructionType::INC
            | InstructionType::DEC => self.execute_modify(instruction)?,
            InstructionType::STA
            | InstructionType::STX
            | InstructionType::STY => self.execute_store(instruction)?,
            InstructionType::JMP
            | InstructionType::JSR
            | InstructionType::RTS
            | InstructionType::RTI
            | InstructionType::PHA
            | InstructionType::PHP
            | InstructionType::PLA
            | InstructionType::PLP => self.execute_flow(instruction)?,
            _ => self.execute_implied(instruction),
        }

        // addition is wrapping since some branch instructions rely on this behavior
        self.pc = self.pc.wrapping_add(instruction.machine_code.len() as u16);
        Ok(())
    }

    /// Instructions that take an operand and change registers and flags only.
    fn execute_operand(&mut self, instruction: &Instruction) -> (r: Result<(), BusError>)
        requires
            old(self).wf(),
            instruction@.executable(),
            takes_operand(instruction.ins_type),
        ensures
            final(self).wf(),
            carried_out(
                old(self)@,
                final(self)@,
                instruction@.machine_code.len(),
                old(self)@.effect_operand(instruction@),
                r,
            ),
    {
        match instruction.ins_type {
            // Load Accumulator with Memory
            InstructionType::LDA => {
                let operand = self.get_operand(instruction)?;
                self.a = operand;
                self.set_sr_nz(operand);
            },
            // Load Index X with Memory
            InstructionType::LDX => {
                let operand = self.get_operand(instruction)?;
                self.x = operand;
                self.set_sr_nz(operand);
            },
            // Load Index Y with Memory
            InstructionType::LDY => {
                let operand = self.get_operand(instruction)?;
                self.y = operand;
                self.set_sr_nz(operand);
            },
            // Add Memory to Accumulator with Carry
            InstructionType::ADC => {
                let operand = self.get_operand(instruction)?;
                self.add_with_carry(operand);
            },
            // Subtract Memory from Accumulator with Borrow
            InstructionType::SBC => {
                let operand = self.get_operand(instruction)?;
                proof {
                    lemma_complement(operand);
                }
                self.add_with_carry(!operand);
            },
            // AND Memory with Accumulator
            InstructionType::AND => {
                let operand = self.get_operand(instruction)?;
                self.a &= operand;
                self.set_sr_nz(self.a);
            },
            // OR Memory with Accumulator
            InstructionType::ORA => {
                let operand = self.get_operand(instruction)?;
                self.a |= operand;
                self.set_sr_nz(self.a);
            },
            // Exclusive-OR Memory with Accumulator
            InstructionType::EOR => {
                let operand = self.get_operand(instruction)?;
                self.a ^= operand;
                self.set_sr_nz(self.a);
            },
            // Compare Memory with Accumulator
            InstructionType::CMP => {
                let operand = self.get_operand(instruction)?;
                self.compare(self.a, operand);
            },
            // Compare Memory and Index X
            InstructionType::CPX => {
                let operand = self.get_operand(instruction)?;
                self.compare(self.x, operand);
            },
            // Compare Memory and Index Y
            InstructionType::CPY => {
                let operand = self.get_operand(instruction)?;
                self.compare(self.y, operand);
            },
            // BIT  Test Bits in Memory with Accumulator
            InstructionType::BIT => {
                let operand = self.get_operand(instruction)?;
                self.sr.assign_bit(NEGATIVE_BIT, operand.get_bit(NEGATIVE_BIT));
                self.sr.assign_bit(OVERFLOW_BIT, operand.get_bit(OVERFLOW_BIT));
                if self.a & operand == 0 {
                    self.sr.set_bit(ZERO_BIT);
                } else {
                    self.sr.clear_bit(ZERO_BIT);
                }
            },
            _ => {},
        }
        Ok(())
    }

    /// The conditional branches.
    fn execute_branch(&mut self, instruction: &Instruction) -> (r: Result<(), BusError>)
        requires
            old(self).wf(),
            instruction@.executable(),
            is_branch(instruction.ins_type),
        ensures
            final(self).wf(),
            carried_out(
                old(self)@,
                final(self)@,
                instruction@.machine_code.len(),
                old(self)@.effect_branch(instruction@),
                r,
            ),
    {
        match instruction.ins_type {
            // Branch on Carry Clear
            InstructionType::BCC => {
                let operand = self.get_operand(instruction)?;
                if self.sr.get_bit(CARRY_BIT) == 0 {
                    self.branch(operand);
                }
            },
            // Branch on Carry Set
            InstructionType::BCS => {
                let operand = self.get_operand(instruction)?;
                if self.sr.get_bit(CARRY_BIT) == 1 {
                    self.branch(operand);
                }
            },
            // Branch on Result Zero
            InstructionType::BEQ => {
                let operand = self.get_operand(instruction)?;
                if self.sr.get_bit(ZERO_BIT) == 1 {
                    self.branch(operand);
                }
            },
            // Branch on Result not Zero
            InstructionType::BNE => {
                let operand = self.get_operand(instruction)?;
                if self.sr.get_bit(ZERO_BIT) == 0 {
                    self.branch(operand);
                }
            },
            // Branch on Result Minus
            InstructionType::BMI => {
                let operand = self.get_operand(instruction)?;
                if self.sr.get_bit(NEGATIVE_BIT) == 1 {
                    self.branch(operand);
                }
            },
            // Branch on Result Plus
            InstructionType::BPL => {
                let operand = self.get_operand(instruction)?;
                if self.sr.get_bit(NEGATIVE_BIT) == 0 {
                    self.branch(operand);
                }
            },
            // Branch on Overflow Clear
            InstructionType::BVC => {
                let operand = self.get_operand(instruction)?;
                if self.sr.get_bit(OVERFLOW_BIT) == 0 {
                    self.branch(operand);
                }
            },
            // Branch on Overflow Set
            InstructionType::BVS => {
                let operand = self.get_operand(instruction)?;
                if self.sr.get_bit(OVERFLOW_BIT) == 1 {
                    self.branch(operand);
                }
            },
            _ => {},
        }
        Ok(())
    }

    /// Shifts, rotates and memory steps.
    fn execute_modify(&mut self, instruction: &Instruction) -> (r: Result<(), BusError>)
        requires
            old(self).wf(),
            instruction@.executable(),
            is_shift(instruction.ins_type) || is_memory_step(
                instruction.ins_type,
            ),
        ensures
            final(self).wf(),
            carried_out(
                old(self)@,
                final(self)@,
                instruction@.machine_code.len(),
                old(self)@.effect_modify(instruction@),
                r,
            ),
    {
        match instruction.ins_type {
            // ASL  Shift Left One Bit (Memory or Accumulator)
            InstructionType::ASL => {
                let operand = self.get_operand(instruction)?;
                let result = operand << 1;
                proof {
                    lemma_shifts(operand);
                    lemma_sign_bit(operand);
                }
                self.write_back(&instruction.addr_mode, result)?;
                // leftmost bit gets assigned to carry
                self.sr.assign_bit(CARRY_BIT, operand.get_bit(7));
                self.set_sr_nz(result);
            },
            // Shift One Bit Right (Memory or Accumulator)
            InstructionType::LSR => {
                let operand = self.get_operand(instruction)?;
                let result = operand >> 1;
                proof {
                    lemma_shifts(operand);
                    lemma_sign_bit(operand);
                }
                self.write_back(&instruction.addr_mode, result)?;
                // rightmost bit gets assigned to carry
                self.sr.assign_bit(CARRY_BIT, operand.get_bit(0));
                self.set_sr_nz(result);
            },
            // Rotate One Bit Left (Memory or Accumulator)
            InstructionType::ROL => {
                let operand = self.get_operand(instruction)?;
                let mut result = operand << 1;
                result.assign_bit(0, self.sr.get_bit(CARRY_BIT));
                proof {
                    lemma_shifts(operand);
                    lemma_sign_bit(operand);
                }
                self.write_back(&instruction.addr_mode, result)?;
                // leftmost bit gets assigned to carry
                self.sr.assign_bit(CARRY_BIT, operand.get_bit(7));
                self.set_sr_nz(result);
            },
            // Rotate One Bit Right (Memory or Accumulator)
            InstructionType::ROR => {
                let operand = self.get_operand(instruction)?;
                let mut result = operand >> 1;
                result.assign_bit(7, self.sr.get_bit(CARRY_BIT));
                proof {
                    lemma_shifts(operand);
                    lemma_sign_bit(operand);
                }
                self.write_back(&instruction.addr_mode, result)?;
                // rightmost bit gets assigned to carry
                self.sr.assign_bit(CARRY_BIT, operand.get_bit(0));
                self.set_sr_nz(result);
            },
            // Increment Memory by One
            InstructionType::INC => {
                let operand = self.get_operand(instruction)?;
                let result = operand.wrapping_add(1);
                self.write_back(&instruction.addr_mode, result)?;
                self.set_sr_nz(result);
            },
            // Decrement Memory by One
            InstructionType::DEC => {
                let operand = self.get_operand(instruction)?;
                let result = operand.wrapping_sub(1);
                self.write_back(&instruction.addr_mode, result)?;
                self.set_sr_nz(result);
            },
            _ => {},
        }
        Ok(())
    }

    /// Stores of a register.
    fn execute_store(&mut self, instruction: &Instruction) -> (r: Result<(), BusError>)
        requires
            old(self).wf(),
            instruction@.executable(),
            is_store(instruction.ins_type),
        ensures
            final(self).wf(),
            carried_out(
                old(self)@,
                final(self)@,
                instruction@.machine_code.len(),
                old(self)@.effect_store(instruction@),
                r,
            ),
    {
        match instruction.ins_type {
            // Store Accumulator in Memory
            InstructionType::STA => {
                self.write_back(&instruction.addr_mode, self.a)?;
            },
            // Store Index X in Memory
            InstructionType::STX => {
                self.write_back(&instruction.addr_mode, self.x)?;
            },
            // Store Index Y in Memory
            InstructionType::STY => {
                self.write_back(&instruction.addr_mode, self.y)?;
            },
            _ => {},
        }
        Ok(())
    }

    /// Jumps, calls, returns and the stack instructions.
    fn execute_flow(&mut self, instruction: &Instruction) -> (r: Result<(), BusError>)
        requires
            old(self).wf(),
            instruction@.executable(),
            is_flow(instruction.ins_type),
        ensures
            final(self).wf(),
            carried_out(
                old(self)@,
                final(self)@,
                instruction@.machine_code.len(),
                old(self)@.effect_flow(instruction@),
                r,
            ),
    {
        let length = instruction.machine_code.len() as u16;
        match instruction.ins_type {
            // Jump to New Location
            InstructionType::JMP => {
                let jump_addr = match &instruction.addr_mode {
                    AddrMode::Ind(addr) => {
                        let low_byte = self.bus.read(*addr)?;
                        let high_byte = self.bus.read(addr.wrapping_add(1))?;
                        make_word(low_byte, high_byte)
                    },
                    AddrMode::Abs(addr) => *addr,
                    _ => self.pc,
                };
                self.redirect_pc(jump_addr, length);
            },
            // Jump to New Location Saving Return Address
            InstructionType::JSR => {
                if let AddrMode::Abs(addr) = &instruction.addr_mode {
                    self.stack_push(self.pc.wrapping_add(2))?;
                    self.redirect_pc(*addr, length);
                }
            },
            // Return from Subroutine
            InstructionType::RTS => {
                let target = self.stack_pop()?.wrapping_add(1);
                self.redirect_pc(target, length);
            },
            // Return from Interrupt
            InstructionType::RTI => {
                let saved_sp = self.sp;
                let status = self.stack_pop_byte()?;
                let target = match self.stack_pop() {
                    Ok(target) => target,
                    Err(e) => {
                        self.sp = saved_sp;
                        return Err(e);
                    },
                };
                self.sr = status;
                self.redirect_pc(target, length);
            },
            // Push Accumulator on Stack
            InstructionType::PHA => {
                self.stack_push_byte(self.a)?;
            },
            // Push Processor Status on Stack
            InstructionType::PHP => {
                self.stack_push_byte(self.sr)?;
            },
            // Pull Accumulator from Stack
            InstructionType::PLA => {
                self.a = self.stack_pop_byte()?;
                self.set_sr_nz(self.a);
            },
            // Pull Processor Status from Stack
            InstructionType::PLP => {
                self.sr = self.stack_pop_byte()?;
            },
            _ => {},
        }
        Ok(())
    }

    /// Instructions on registers and flags that take no operand.
    fn execute_implied(&mut self, instruction: &Instruction)
        requires
            old(self).wf(),
            instruction@.executable(),
            is_implied(instruction.ins_type),
        ensures
            final(self).wf(),
            carried_out(
                old(self)@,
                final(self)@,
                instruction@.machine_code.len(),
                Ok(old(self)@.effect_implied(instruction@)),
                Ok(()),
            ),
    {
        match instruction.ins_type {
            // Clear Carry Flag
            InstructionType::CLC => {
                self.sr.clear_bit(CARRY_BIT);
            },
            // Clear Decimal Mode
            InstructionType::CLD => {
                self.sr.clear_bit(DECIMAL_BIT);
            },
            // Clear Interrupt Disable Bit
            InstructionType::CLI => {
                self.sr.clear_bit(INT_DISABLE_BIT);
            },
            // Clear Overflow Flag
            InstructionType::CLV => {
                self.sr.clear_bit(OVERFLOW_BIT);
            },
            // Set Carry Flag
            InstructionType::SEC => {
                self.sr.set_bit(CARRY_BIT);
            },
            // Set Decimal Flag
            InstructionType::SED => {
                self.sr.set_bit(DECIMAL_BIT);
            },
            // Set Interrupt Disable Status
            InstructionType::SEI => {
                self.sr.set_bit(INT_DISABLE_BIT);
            },
            // Decrement Index X by One
            InstructionType::DEX => {
                self.x = self.x.wrapping_sub(1);
                self.set_sr_nz(self.x);
            },
            // Decrement Index Y by One
            InstructionType::DEY => {
                self.y = self.y.wrapping_sub(1);
                self.set_sr_nz(self.y);
            },
            // Increment Index X by One
            InstructionType::INX => {
                self.x = self.x.wrapping_add(1);
                self.set_sr_nz(self.x);
            },
            // Increment Index Y by One
            InstructionType::INY => {
                self.y = self.y.wrapping_add(1);
                self.set_sr_nz(self.y);
            },
            // Transfer Accumulator to Index X
            InstructionType::TAX => {
                self.x = self.a;
                self.set_sr_nz(self.x);
            },
            // Transfer Accumulator to Index Y
            InstructionType::TAY => {
                self.y = self.a;
                self.set_sr_nz(self.y);
            },
            // Transfer Stack Pointer to Index X
            InstructionType::TSX => {
                self.x = self.sp;
                self.set_sr_nz(self.x);
            },
            // Transfer Index X to Accumulator
            InstructionType::TXA => {
                self.a = self.x;
                self.set_sr_nz(self.a);
            },
            // Transfer Index X to Stack Register
            InstructionType::TXS => {
                self.sp = self.x;
            },
            // Transfer Index Y to Accumulator
            InstructionType::TYA => {
                self.a = self.y;
                self.set_sr_nz(self.a);
            },
            // No Operation
            InstructionType::NOP => {},
            _ => {},
        }
    }
}

} // verus!
