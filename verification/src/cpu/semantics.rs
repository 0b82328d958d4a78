//! What executing an instruction means: a function from the processor's
//! state and an instruction to the state that follows.
use vstd::prelude::*;
use crate::bus::{BusError, MemoryMap};
use crate::cpu::flags::{
    bit_of, with_bit, with_nz, CARRY_BIT, DECIMAL_BIT, INT_DISABLE_BIT, NEGATIVE_BIT,
    OVERFLOW_BIT, ZERO_BIT,
};
use crate::cpu::isa::{signed, word, AddrKind, AddrMode, InstructionType, InstructionView};

verus! {

/// `value` reduced to a byte, modulo 256, for a value that lies less than
/// 256 outside the range of a byte.
pub open spec fn wrap8(value: int) -> u8
    recommends
        -0x100 <= value < 0x200,
{
    if value < 0 {
        (value + 0x100) as u8
    } else if value >= 0x100 {
        (value - 0x100) as u8
    } else {
        value as u8
    }
}

/// `value` reduced to 16 bits, modulo 65536, for a value that lies less than
/// 65536 outside the range of 16 bits.
pub open spec fn wrap16(value: int) -> u16
    recommends
        -0x1_0000 <= value < 0x2_0000,
{
    if value < 0 {
        (value + 0x1_0000) as u16
    } else if value >= 0x1_0000 {
        (value - 0x1_0000) as u16
    } else {
        value as u16
    }
}

/// Within their ranges `wrap8` and `wrap16` are the remainders modulo 256
/// and modulo 65536.
pub proof fn lemma_wrap_is_modulo(value: int)
    ensures
        -0x100 <= value < 0x200 ==> wrap8(value) == value % 0x100,
        -0x1_0000 <= value < 0x2_0000 ==> wrap16(value) == value % 0x1_0000,
{
}

/// The low byte of a 16-bit value.
pub open spec fn low_byte(value: u16) -> u8 {
    (value % 0x100) as u8
}

/// The high byte of a 16-bit value.
pub open spec fn high_byte(value: u16) -> u8 {
    (value / 0x100) as u8
}

/// The byte whose two's complement reading is `value`.
pub open spec fn unsigned(value: i8) -> u8 {
    if value >= 0 {
        value as u8
    } else {
        (value + 0x100) as u8
    }
}

/// The bitwise complement of a byte.
pub open spec fn complement(value: u8) -> u8 {
    (0xff - value) as u8
}

/// The address in page one that the stack pointer selects.
pub open spec fn stack_address(sp: u8) -> u16 {
    (0x0100 + sp) as u16
}

/// 0 or 1.
pub open spec fn carry_value(carry: bool) -> int {
    if carry {
        1
    } else {
        0
    }
}

/// The accumulator after an addition with carry.
pub open spec fn adc_value(a: u8, operand: u8, carry: bool) -> u8 {
    wrap8(a + operand + carry_value(carry))
}

/// The carry out of an addition with carry: the unsigned sum does not fit a
/// byte.
pub open spec fn adc_carry(a: u8, operand: u8, carry: bool) -> bool {
    a + operand + carry_value(carry) > 0xff
}

/// The overflow flag after an addition with carry. The carry is added to the
/// accumulator and the operand to what that gives, both as signed bytes; the
/// flag is set when either addition leaves the signed range.
pub open spec fn adc_overflow(a: u8, operand: u8, carry: bool) -> bool {
    let first = signed(a) + carry_value(carry);
    let kept = if first > 127 {
        first - 0x100
    } else {
        first
    };
    let second = kept + signed(operand);
    first > 127 || second > 127 || second < -128
}

/// Instructions that take the byte their addressing mode resolves to and
/// change registers or flags only.
pub open spec fn takes_operand(ins_type: InstructionType) -> bool {
    match ins_type {
        InstructionType::LDA
        | InstructionType::LDX
        | InstructionType::LDY
        | InstructionType::ADC
        | InstructionType::SBC
        | InstructionType::AND
        | InstructionType::ORA
        | InstructionType::EOR
        | InstructionType::CMP
        | InstructionType::CPX
        | InstructionType::CPY
        | InstructionType::BIT => true,
        _ => false,
    }
}

/// The conditional branches.
pub open spec fn is_branch(ins_type: InstructionType) -> bool {
    match ins_type {
        InstructionType::BCC
        | InstructionType::BCS
        | InstructionType::BEQ
        | InstructionType::BNE
        | InstructionType::BMI
        | InstructionType::BPL
        | InstructionType::BVC
        | InstructionType::BVS => true,
        _ => false,
    }
}

/// Instructions that write a register to memory.
pub open spec fn is_store(ins_type: InstructionType) -> bool {
    match ins_type {
        InstructionType::STA | InstructionType::STX | InstructionType::STY => true,
        _ => false,
    }
}

/// Shifts and rotates, which work on the accumulator or on memory.
pub open spec fn is_shift(ins_type: InstructionType) -> bool {
    match ins_type {
        InstructionType::ASL
        | InstructionType::LSR
        | InstructionType::ROL
        | InstructionType::ROR => true,
        _ => false,
    }
}

/// Increment and decrement of a byte in memory.
pub open spec fn is_memory_step(ins_type: InstructionType) -> bool {
    match ins_type {
        InstructionType::INC | InstructionType::DEC => true,
        _ => false,
    }
}

/// Jumps, calls, returns and the instructions that push or pull a register.
pub open spec fn is_flow(ins_type: InstructionType) -> bool {
    match ins_type {
        InstructionType::JMP
        | InstructionType::JSR
        | InstructionType::RTS
        | InstructionType::RTI
        | InstructionType::PHA
        | InstructionType::PHP
        | InstructionType::PLA
        | InstructionType::PLP => true,
        _ => false,
    }
}

/// Instructions on registers and flags that take no operand.
pub open spec fn is_implied(ins_type: InstructionType) -> bool {
    !takes_operand(ins_type) && !is_branch(ins_type) && !is_store(ins_type) && !is_shift(ins_type)
        && !is_memory_step(ins_type) && !is_flow(ins_type) && ins_type != InstructionType::BRK
}

impl AddrKind {
    /// The mode resolves to a byte: every mode but implied and indirect.
    pub open spec fn resolvable(self) -> bool {
        self != AddrKind::Impl && self != AddrKind::Ind
    }

    /// The mode names a byte in memory, which has an effective address.
    pub open spec fn addressable(self) -> bool {
        match self {
            AddrKind::Zpg
            | AddrKind::ZpgX
            | AddrKind::ZpgY
            | AddrKind::Abs
            | AddrKind::AbsX
            | AddrKind::AbsY
            | AddrKind::XInd
            | AddrKind::IndY => true,
            _ => false,
        }
    }
}

/// Whether the addressing mode makes sense for the instruction. Executing an
/// instruction for which it does not is a fault of whoever built it, not a
/// condition of the running program.
pub open spec fn legal(ins_type: InstructionType, kind: AddrKind) -> bool {
    if takes_operand(ins_type) || is_branch(ins_type) {
        kind.resolvable()
    } else if is_store(ins_type) || is_memory_step(ins_type) {
        kind.addressable()
    } else if is_shift(ins_type) {
        kind == AddrKind::A || kind.addressable()
    } else if ins_type == InstructionType::JMP {
        kind == AddrKind::Abs || kind == AddrKind::Ind
    } else if ins_type == InstructionType::JSR {
        kind == AddrKind::Abs
    } else {
        true
    }
}

impl InstructionView {
    /// The instruction can be executed: it is well formed, its addressing
    /// mode is legal for it, and it is not the unsupported `BRK`.
    pub open spec fn executable(self) -> bool {
        &&& self.wf()
        &&& self.ins_type != InstructionType::BRK
        &&& legal(self.ins_type, self.addr_mode.kind())
    }
}

/// The processor and the memory it is wired to, as values.
pub struct CpuState {
    pub a: u8,
    pub x: u8,
    pub y: u8,
    pub sp: u8,
    pub pc: u16,
    pub sr: u8,
    pub mem: MemoryMap,
}

impl CpuState {
    /// The state with a new status byte.
    pub open spec fn with_sr(self, sr: u8) -> CpuState {
        CpuState { sr, ..self }
    }

    /// The state with a new program counter.
    pub open spec fn with_pc(self, pc: u16) -> CpuState {
        CpuState { pc, ..self }
    }

    /// Whether the carry flag is set.
    pub open spec fn carry(self) -> bool {
        bit_of(self.sr, CARRY_BIT)
    }

    /// The 16-bit pointer stored in the zero page at `at`: low byte at `at`,
    /// high byte at the next zero-page address, which wraps from `$FF` to
    /// `$00`.
    pub open spec fn pointer(self, at: u8) -> Result<u16, BusError> {
        match self.mem.fetch(at as u16) {
            Err(e) => Err(e),
            Ok(low) => match self.mem.fetch(wrap8(at + 1) as u16) {
                Err(e) => Err(e),
                Ok(high) => Ok(word(low, high)),
            },
        }
    }

    /// The effective address of an addressable mode. Zero-page indexing
    /// wraps within the zero page; absolute indexing wraps at 16 bits.
    pub open spec fn address(self, mode: AddrMode) -> Result<u16, BusError> {
        match mode {
            AddrMode::Zpg(base) => Ok(base as u16),
            AddrMode::ZpgX(base) => Ok(wrap8(base + self.x) as u16),
            AddrMode::ZpgY(base) => Ok(wrap8(base + self.y) as u16),
            AddrMode::Abs(base) => Ok(base),
            AddrMode::AbsX(base) => Ok(wrap16(base + self.x)),
            AddrMode::AbsY(base) => Ok(wrap16(base + self.y)),
            AddrMode::XInd(base) => self.pointer(wrap8(base + self.x)),
            AddrMode::IndY(base) => match self.pointer(base) {
                Err(e) => Err(e),
                Ok(pointer) => Ok(wrap16(pointer + self.y)),
            },
            _ => Ok(0),
        }
    }

    /// The byte a resolvable mode stands for: the accumulator, the literal,
    /// the displacement as an unsigned byte, or the byte at the effective
    /// address.
    pub open spec fn operand(self, mode: AddrMode) -> Result<u8, BusError> {
        match mode {
            AddrMode::A => Ok(self.a),
            AddrMode::Imm(value) => Ok(value),
            AddrMode::Rel(value) => Ok(unsigned(value)),
            AddrMode::Impl | AddrMode::Ind(_) => Ok(0),
            _ => match self.address(mode) {
                Err(e) => Err(e),
                Ok(addr) => self.mem.fetch(addr),
            },
        }
    }

    /// The state after `value` is written at the effective address of
    /// `mode`, or to the accumulator in accumulator mode.
    pub open spec fn put(self, mode: AddrMode, value: u8) -> Result<CpuState, BusError> {
        match mode {
            AddrMode::A => Ok(CpuState { a: value, ..self }),
            _ => match self.address(mode) {
                Err(e) => Err(e),
                Ok(addr) => match self.mem.store(addr, value) {
                    Err(e) => Err(e),
                    Ok(mem) => Ok(CpuState { mem, ..self }),
                },
            },
        }
    }

    /// Push a byte: it is written at `$0100 + SP`, then the stack pointer is
    /// decremented and wraps from `$00` to `$FF`.
    pub open spec fn push(self, byte: u8) -> Result<CpuState, BusError> {
        match self.mem.store(stack_address(self.sp), byte) {
            Err(e) => Err(e),
            Ok(mem) => Ok(CpuState { mem, sp: wrap8(self.sp - 1), ..self }),
        }
    }

    /// Pull a byte: the stack pointer is incremented and wraps from `$FF` to
    /// `$00`, then the byte at `$0100 + SP` is read.
    pub open spec fn pull(self) -> Result<(CpuState, u8), BusError> {
        let sp = wrap8(self.sp + 1);
        match self.mem.fetch(stack_address(sp)) {
            Err(e) => Err(e),
            Ok(byte) => Ok((CpuState { sp, ..self }, byte)),
        }
    }

    /// Push a 16-bit value, high byte first.
    pub open spec fn push_word(self, value: u16) -> Result<CpuState, BusError> {
        match self.push(high_byte(value)) {
            Err(e) => Err(e),
            Ok(pushed) => pushed.push(low_byte(value)),
        }
    }

    /// Pull a 16-bit value, low byte first.
    pub open spec fn pull_word(self) -> Result<(CpuState, u16), BusError> {
        match self.pull() {
            Err(e) => Err(e),
            Ok((first, low)) => match first.pull() {
                Err(e) => Err(e),
                Ok((second, high)) => Ok((second, word(low, high))),
            },
        }
    }

    /// The state after an instruction that takes an operand and changes
    /// registers and flags only.
    pub open spec fn compute(self, ins_type: InstructionType, operand: u8) -> CpuState {
        match ins_type {
            InstructionType::LDA => CpuState {
                a: operand,
                sr: with_nz(self.sr, operand),
                ..self
            },
            InstructionType::LDX => CpuState {
                x: operand,
                sr: with_nz(self.sr, operand),
                ..self
            },
            InstructionType::LDY => CpuState {
                y: operand,
                sr: with_nz(self.sr, operand),
                ..self
            },
            InstructionType::ADC => self.add_with_carry(operand),
            InstructionType::SBC => self.add_with_carry(complement(operand)),
            InstructionType::AND => CpuState {
                a: self.a & operand,
                sr: with_nz(self.sr, self.a & operand),
                ..self
            },
            InstructionType::ORA => CpuState {
                a: self.a | operand,
                sr: with_nz(self.sr, self.a | operand),
                ..self
            },
            InstructionType::EOR => CpuState {
                a: self.a ^ operand,
                sr: with_nz(self.sr, self.a ^ operand),
                ..self
            },
            InstructionType::CMP => self.compare(self.a, operand),
            InstructionType::CPX => self.compare(self.x, operand),
            InstructionType::CPY => self.compare(self.y, operand),
            InstructionType::BIT => self.with_sr(
                with_bit(
                    with_bit(
                        with_bit(self.sr, NEGATIVE_BIT, bit_of(operand, NEGATIVE_BIT)),
                        OVERFLOW_BIT,
                        bit_of(operand, OVERFLOW_BIT),
                    ),
                    ZERO_BIT,
                    self.a & operand == 0,
                ),
            ),
            _ => self,
        }
    }

    /// Addition with carry: the accumulator takes the sum modulo 256, and
    /// the overflow, carry, negative and zero flags follow from it.
    pub open spec fn add_with_carry(self, operand: u8) -> CpuState {
        let value = adc_value(self.a, operand, self.carry());
        CpuState {
            a: value,
            sr: with_nz(
                with_bit(
                    with_bit(self.sr, OVERFLOW_BIT, adc_overflow(self.a, operand, self.carry())),
                    CARRY_BIT,
                    adc_carry(self.a, operand, self.carry()),
                ),
                value,
            ),
            ..self
        }
    }

    /// Comparison: the flags of `register - operand`; carry is set exactly
    /// when the register is at least the operand.
    pub open spec fn compare(self, register: u8, operand: u8) -> CpuState {
        self.with_sr(
            with_nz(with_bit(self.sr, CARRY_BIT, register >= operand), wrap8(register - operand)),
        )
    }

    /// The byte that a shift, a rotate or a memory step makes of `input`.
    pub open spec fn modified(self, ins_type: InstructionType, input: u8) -> u8 {
        match ins_type {
            InstructionType::ASL => wrap8(input * 2),
            InstructionType::LSR => (input / 2) as u8,
            InstructionType::ROL => wrap8(input * 2 + carry_value(self.carry())),
            InstructionType::ROR => (input / 2 + 0x80 * carry_value(self.carry())) as u8,
            InstructionType::INC => wrap8(input + 1),
            InstructionType::DEC => wrap8(input - 1),
            _ => input,
        }
    }

    /// The status byte after a shift, a rotate or a memory step of `input`:
    /// shifts to the left move bit 7 into the carry, shifts to the right bit
    /// 0; memory steps leave the carry alone.
    pub open spec fn modify_status(self, ins_type: InstructionType, input: u8) -> u8 {
        let result = self.modified(ins_type, input);
        match ins_type {
            InstructionType::ASL | InstructionType::ROL => with_nz(
                with_bit(self.sr, CARRY_BIT, input >= 0x80),
                result,
            ),
            InstructionType::LSR | InstructionType::ROR => with_nz(
                with_bit(self.sr, CARRY_BIT, input % 2 == 1),
                result,
            ),
            _ => with_nz(self.sr, result),
        }
    }

    /// Whether a branch is taken.
    pub open spec fn branch_taken(self, ins_type: InstructionType) -> bool {
        match ins_type {
            InstructionType::BCC => !bit_of(self.sr, CARRY_BIT),
            InstructionType::BCS => bit_of(self.sr, CARRY_BIT),
            InstructionType::BEQ => bit_of(self.sr, ZERO_BIT),
            InstructionType::BNE => !bit_of(self.sr, ZERO_BIT),
            InstructionType::BMI => bit_of(self.sr, NEGATIVE_BIT),
            InstructionType::BPL => !bit_of(self.sr, NEGATIVE_BIT),
            InstructionType::BVC => !bit_of(self.sr, OVERFLOW_BIT),
            InstructionType::BVS => bit_of(self.sr, OVERFLOW_BIT),
            _ => false,
        }
    }

    /// The byte a store instruction writes.
    pub open spec fn stored(self, ins_type: InstructionType) -> u8 {
        match ins_type {
            InstructionType::STX => self.x,
            InstructionType::STY => self.y,
            _ => self.a,
        }
    }

    /// The state after an instruction that touches registers and flags only
    /// and takes no operand.
    pub open spec fn implied(self, ins_type: InstructionType) -> CpuState {
        match ins_type {
            InstructionType::CLC => self.with_sr(with_bit(self.sr, CARRY_BIT, false)),
            InstructionType::CLD => self.with_sr(with_bit(self.sr, DECIMAL_BIT, false)),
            InstructionType::CLI => self.with_sr(with_bit(self.sr, INT_DISABLE_BIT, false)),
            InstructionType::CLV => self.with_sr(with_bit(self.sr, OVERFLOW_BIT, false)),
            InstructionType::SEC => self.with_sr(with_bit(self.sr, CARRY_BIT, true)),
            InstructionType::SED => self.with_sr(with_bit(self.sr, DECIMAL_BIT, true)),
            InstructionType::SEI => self.with_sr(with_bit(self.sr, INT_DISABLE_BIT, true)),
            InstructionType::DEX => CpuState {
                x: wrap8(self.x - 1),
                sr: with_nz(self.sr, wrap8(self.x - 1)),
                ..self
            },
            InstructionType::DEY => CpuState {
                y: wrap8(self.y - 1),
                sr: with_nz(self.sr, wrap8(self.y - 1)),
                ..self
            },
            InstructionType::INX => CpuState {
                x: wrap8(self.x + 1),
                sr: with_nz(self.sr, wrap8(self.x + 1)),
                ..self
            },
            InstructionType::INY => CpuState {
                y: wrap8(self.y + 1),
                sr: with_nz(self.sr, wrap8(self.y + 1)),
                ..self
            },
            InstructionType::TAX => CpuState { x: self.a, sr: with_nz(self.sr, self.a), ..self },
            InstructionType::TAY => CpuState { y: self.a, sr: with_nz(self.sr, self.a), ..self },
            InstructionType::TSX => CpuState { x: self.sp, sr: with_nz(self.sr, self.sp), ..self },
            InstructionType::TXA => CpuState { a: self.x, sr: with_nz(self.sr, self.x), ..self },
            InstructionType::TYA => CpuState { a: self.y, sr: with_nz(self.sr, self.y), ..self },
            InstructionType::TXS => CpuState { sp: self.x, ..self },
            _ => self,
        }
    }

    /// The address of the instruction that follows `ins` in memory.
    pub open spec fn next_pc(self, ins: InstructionView) -> u16 {
        wrap16(self.pc + ins.machine_code.len())
    }

    /// An instruction that takes an operand and changes registers and flags.
    pub open spec fn effect_operand(self, ins: InstructionView) -> Result<CpuState, BusError> {
        match self.operand(ins.addr_mode) {
            Err(e) => Err(e),
            Ok(operand) => Ok(self.compute(ins.ins_type, operand).with_pc(self.next_pc(ins))),
        }
    }

    /// A conditional branch. When it is taken, the displacement is added, as
    /// a signed byte, to the address of the instruction that follows.
    pub open spec fn effect_branch(self, ins: InstructionView) -> Result<CpuState, BusError> {
        match self.operand(ins.addr_mode) {
            Err(e) => Err(e),
            Ok(operand) => Ok(
                if self.branch_taken(ins.ins_type) {
                    self.with_pc(wrap16(self.next_pc(ins) + signed(operand)))
                } else {
                    self.with_pc(self.next_pc(ins))
                },
            ),
        }
    }

    /// A store of a register at the effective address.
    pub open spec fn effect_store(self, ins: InstructionView) -> Result<CpuState, BusError> {
        self.with_pc(self.next_pc(ins)).put(ins.addr_mode, self.stored(ins.ins_type))
    }

    /// A shift, a rotate or a memory step: the operand is read, changed and
    /// written back where it came from, and the flags follow.
    pub open spec fn effect_modify(self, ins: InstructionView) -> Result<CpuState, BusError> {
        match self.operand(ins.addr_mode) {
            Err(e) => Err(e),
            Ok(input) => self.with_sr(self.modify_status(ins.ins_type, input)).with_pc(
                self.next_pc(ins),
            ).put(ins.addr_mode, self.modified(ins.ins_type, input)),
        }
    }

    /// A jump, a call, a return, or a push or pull of a register.
    ///
    /// A call pushes the address of its own last byte, high byte first; a
    /// return from subroutine continues one past the address it pulls. A
    /// return from interrupt pulls the status byte, then the address at
    /// which it continues.
    pub open spec fn effect_flow(self, ins: InstructionView) -> Result<CpuState, BusError> {
        let next = self.next_pc(ins);
        match ins.ins_type {
            InstructionType::JMP => match ins.addr_mode {
                AddrMode::Ind(at) => match self.mem.fetch(at) {
                    Err(e) => Err(e),
                    Ok(low) => match self.mem.fetch(wrap16(at + 1)) {
                        Err(e) => Err(e),
                        Ok(high) => Ok(self.with_pc(word(low, high))),
                    },
                },
                AddrMode::Abs(target) => Ok(self.with_pc(target)),
                _ => Ok(self),
            },
            InstructionType::JSR => match ins.addr_mode {
                AddrMode::Abs(target) => match self.push_word(wrap16(self.pc + 2)) {
                    Err(e) => Err(e),
                    Ok(pushed) => Ok(pushed.with_pc(target)),
                },
                _ => Ok(self),
            },
            InstructionType::RTS => match self.pull_word() {
                Err(e) => Err(e),
                Ok((pulled, address)) => Ok(pulled.with_pc(wrap16(address + 1))),
            },
            InstructionType::RTI => match self.pull() {
                Err(e) => Err(e),
                Ok((first, status)) => match first.pull_word() {
                    Err(e) => Err(e),
                    Ok((pulled, address)) => Ok(pulled.with_sr(status).with_pc(address)),
                },
            },
            InstructionType::PHA => match self.push(self.a) {
                Err(e) => Err(e),
                Ok(pushed) => Ok(pushed.with_pc(next)),
            },
            InstructionType::PHP => match self.push(self.sr) {
                Err(e) => Err(e),
                Ok(pushed) => Ok(pushed.with_pc(next)),
            },
            InstructionType::PLA => match self.pull() {
                Err(e) => Err(e),
                Ok((pulled, byte)) => Ok(
                    CpuState { a: byte, sr: with_nz(self.sr, byte), pc: next, ..pulled },
                ),
            },
            InstructionType::PLP => match self.pull() {
                Err(e) => Err(e),
                Ok((pulled, byte)) => Ok(pulled.with_sr(byte).with_pc(next)),
            },
            _ => Ok(self),
        }
    }

    /// An instruction on registers and flags that takes no operand.
    pub open spec fn effect_implied(self, ins: InstructionView) -> CpuState {
        self.implied(ins.ins_type).with_pc(self.next_pc(ins))
    }

    /// The state after an executable instruction, or the bus error that
    /// stopped it. The program counter of the result is the address of the
    /// next instruction to fetch: the address after this instruction, or
    /// the destination of a jump, a call, a return or a taken branch.
    pub open spec fn effect(self, ins: InstructionView) -> Result<CpuState, BusError> {
        if takes_operand(ins.ins_type) {
            self.effect_operand(ins)
        } else if is_branch(ins.ins_type) {
            self.effect_branch(ins)
        } else if is_store(ins.ins_type) {
            self.effect_store(ins)
        } else if is_shift(ins.ins_type) || is_memory_step(ins.ins_type) {
            self.effect_modify(ins)
        } else if is_flow(ins.ins_type) {
            self.effect_flow(ins)
        } else {
            Ok(self.effect_implied(ins))
        }
    }
}

} // verus!
