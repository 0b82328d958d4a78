//! What follows from the meaning of the instructions: facts about the
//! stack, calls and returns, branches, the arithmetic flags and the layout
//! of memory.
use vstd::prelude::*;
use crate::bus::BusError;
use crate::cpu::fetch_end;
use crate::cpu::flags::{bit_of, lemma_with_bit};
use crate::cpu::isa::{decode, signed, word, AddrMode, InstructionType, InstructionView};
use crate::cpu::semantics::{
    adc_carry, adc_overflow, adc_value, carry_value, complement, high_byte, is_branch,
    is_memory_step, is_shift, is_store, low_byte, stack_address, wrap16, wrap8, CpuState,
};

verus! {

/// A 16-bit value is the word made of its low and its high byte.
pub proof fn lemma_word_of_bytes(value: u16)
    ensures
        word(low_byte(value), high_byte(value)) == value,
{
}

/// The window that a step decodes holds the bytes that reads at the program
/// counter and at the addresses after it return, at most three of them and
/// none from beyond the last address but one.
pub proof fn lemma_fetched_bytes(s: CpuState, i: int)
    requires
        s.mem.wf(),
        s.mem.mapped(s.pc),
        0 <= i < s.mem.window(s.pc, fetch_end(s.pc)).len(),
    ensures
        i < 3,
        s.pc + i < 0xffff,
        s.mem.fetch((s.pc + i) as u16) == Ok::<u8, BusError>(
            s.mem.window(s.pc, fetch_end(s.pc))[i],
        ),
{
    s.mem.lemma_window_bytes(s.pc, fetch_end(s.pc), i);
}

/// A pull undoes a push: it returns the byte that was pushed and leaves the
/// stack pointer where it was before the push.
pub proof fn lemma_push_then_pull(s: CpuState, byte: u8)
    requires
        s.mem.wf(),
        s.push(byte) is Ok,
    ensures
        s.push(byte)->Ok_0.pull() is Ok,
        s.push(byte)->Ok_0.pull()->Ok_0.1 == byte,
        s.push(byte)->Ok_0.pull()->Ok_0.0.sp == s.sp,
        s.push(byte)->Ok_0.pull()->Ok_0.0.mem == s.push(byte)->Ok_0.mem,
{
    s.mem.lemma_store_then_fetch(stack_address(s.sp), byte);
}

/// Call and return: after a call, a return from subroutine continues at the
/// instruction that follows the call, with the stack pointer and the other
/// registers as they were before the call. The two bytes of the return
/// address must not share a byte of memory.
pub proof fn lemma_call_then_return(s: CpuState, call: InstructionView, back: InstructionView)
    requires
        s.mem.wf(),
        call.ins_type == InstructionType::JSR,
        call.addr_mode is Abs,
        call.wf(),
        back.ins_type == InstructionType::RTS,
        s.effect(call) is Ok,
        !s.mem.aliases(stack_address(s.sp), stack_address(wrap8(s.sp - 1))),
    ensures
        s.effect(call)->Ok_0.pc == call.addr_mode->Abs_0,
        s.effect(call)->Ok_0.effect(back) is Ok,
        s.effect(call)->Ok_0.effect(back)->Ok_0 == (CpuState {
            pc: wrap16(s.pc + 3),
            mem: s.effect(call)->Ok_0.mem,
            ..s
        }),
{
    let high = high_byte(wrap16(s.pc + 2));
    let low = low_byte(wrap16(s.pc + 2));
    let first = stack_address(s.sp);
    let second = stack_address(wrap8(s.sp - 1));
    let pushed = s.push(high)->Ok_0;
    let called = s.effect(call)->Ok_0;
    assert(s.push(high) is Ok);
    assert(pushed.push(low) is Ok);
    assert(called.mem == pushed.mem.write(second, low));
    s.mem.lemma_write_keeps_layout(first, high, first);
    s.mem.lemma_write_keeps_layout(first, high, second);
    s.mem.lemma_read_after_write(first, high, first);
    s.mem.lemma_write_keeps_aliases(first, high, second, first);
    pushed.mem.lemma_write_keeps_layout(second, low, first);
    pushed.mem.lemma_write_keeps_layout(second, low, second);
    pushed.mem.lemma_read_after_write(second, low, first);
    assert(s.mem.aliases(first, second) == s.mem.aliases(second, first));
    lemma_word_of_bytes(wrap16(s.pc + 2));
}

/// A taken branch continues at the address of the next instruction plus the
/// displacement; with a displacement of minus its own length it continues
/// at itself.
pub proof fn lemma_taken_branch(s: CpuState, ins: InstructionView)
    requires
        ins.wf(),
        ins.addr_mode is Rel,
        is_branch(ins.ins_type),
        s.branch_taken(ins.ins_type),
    ensures
        s.effect(ins) == Ok::<CpuState, BusError>(
            s.with_pc(wrap16(wrap16(s.pc + 2) + ins.addr_mode->Rel_0)),
        ),
        ins.addr_mode->Rel_0 == -2 ==> s.effect(ins) == Ok::<CpuState, BusError>(s),
{
}

/// A branch that is not taken continues at the next instruction.
pub proof fn lemma_skipped_branch(s: CpuState, ins: InstructionView)
    requires
        ins.wf(),
        ins.addr_mode is Rel,
        is_branch(ins.ins_type),
        !s.branch_taken(ins.ins_type),
    ensures
        s.effect(ins) == Ok::<CpuState, BusError>(s.with_pc(wrap16(s.pc + 2))),
{
}

/// The overflow flag of an addition is set when the sum of the accumulator,
/// the operand and the carry, all taken as signed, leaves the signed range
/// of a byte, and in one more case: the carry is added to 127 first and the
/// flag is then set though a negative operand brings the sum back into the
/// range.
pub proof fn lemma_adc_overflow(a: u8, operand: u8, carry: bool)
    ensures
        adc_overflow(a, operand, carry) <==> {
            let sum = signed(a) + signed(operand) + carry_value(carry);
            sum < -128 || sum > 127 || (a == 0x7f && carry && operand >= 0x80)
        },
{
}

/// Subtraction is addition of the complement: the accumulator takes the
/// difference less the borrow, modulo 256, where a clear carry means a
/// borrow; and the carry comes out set exactly when nothing had to be
/// borrowed.
pub proof fn lemma_subtraction(a: u8, operand: u8, carry: bool)
    ensures
        adc_value(a, complement(operand), carry) == wrap8(a - operand - (1 - carry_value(carry))),
        adc_carry(a, complement(operand), carry) <==> a - operand - (1 - carry_value(carry)) >= 0,
{
}

/// An instruction that sets or clears a flag changes that bit of the status
/// byte and no other.
pub proof fn lemma_flag_instruction(s: CpuState, ins_type: InstructionType, other: u8)
    requires
        other <= 7,
    ensures
        ins_type == InstructionType::SEC ==> bit_of(s.implied(ins_type).sr, other) == (other == 0
            || bit_of(s.sr, other)),
        ins_type == InstructionType::CLC ==> bit_of(s.implied(ins_type).sr, other) == (other != 0
            && bit_of(s.sr, other)),
        ins_type == InstructionType::SEI ==> bit_of(s.implied(ins_type).sr, other) == (other == 2
            || bit_of(s.sr, other)),
        ins_type == InstructionType::CLI ==> bit_of(s.implied(ins_type).sr, other) == (other != 2
            && bit_of(s.sr, other)),
        ins_type == InstructionType::SED ==> bit_of(s.implied(ins_type).sr, other) == (other == 3
            || bit_of(s.sr, other)),
        ins_type == InstructionType::CLD ==> bit_of(s.implied(ins_type).sr, other) == (other != 3
            && bit_of(s.sr, other)),
        ins_type == InstructionType::CLV ==> bit_of(s.implied(ins_type).sr, other) == (other != 6
            && bit_of(s.sr, other)),
{
    lemma_with_bit(s.sr, 0, true, other);
    lemma_with_bit(s.sr, 0, false, other);
    lemma_with_bit(s.sr, 2, true, other);
    lemma_with_bit(s.sr, 2, false, other);
    lemma_with_bit(s.sr, 3, true, other);
    lemma_with_bit(s.sr, 3, false, other);
    lemma_with_bit(s.sr, 6, false, other);
}

/// A push or a write-back keeps the memory map well formed and maps the
/// addresses that were mapped before, no more and no fewer.
pub proof fn lemma_put_keeps_layout(s: CpuState, mode: AddrMode, value: u8, addr: u16)
    requires
        s.mem.wf(),
        s.put(mode, value) is Ok,
    ensures
        s.put(mode, value)->Ok_0.mem.wf(),
        s.put(mode, value)->Ok_0.mem.mapped(addr) == s.mem.mapped(addr),
{
    if !(mode is A) {
        let target = s.address(mode)->Ok_0;
        s.mem.lemma_write_keeps_layout(target, value, addr);
    }
}

/// Executing an instruction keeps the memory map well formed and maps the
/// addresses that were mapped before, no more and no fewer: instructions
/// change bytes, never the layout.
pub proof fn lemma_effect_keeps_layout(s: CpuState, ins: InstructionView, addr: u16)
    requires
        s.mem.wf(),
        s.effect(ins) is Ok,
    ensures
        s.effect(ins)->Ok_0.mem.wf(),
        s.effect(ins)->Ok_0.mem.mapped(addr) == s.mem.mapped(addr),
{
    let next = s.next_pc(ins);
    if is_store(ins.ins_type) {
        lemma_put_keeps_layout(s.with_pc(next), ins.addr_mode, s.stored(ins.ins_type), addr);
    } else if is_shift(ins.ins_type)
        || is_memory_step(ins.ins_type) {
        let input = s.operand(ins.addr_mode)->Ok_0;
        lemma_put_keeps_layout(
            s.with_sr(s.modify_status(ins.ins_type, input)).with_pc(next),
            ins.addr_mode,
            s.modified(ins.ins_type, input),
            addr,
        );
    } else if ins.ins_type == InstructionType::JSR && ins.addr_mode is Abs {
        let value = wrap16(s.pc + 2);
        let first = stack_address(s.sp);
        let second = stack_address(wrap8(s.sp - 1));
        s.mem.lemma_write_keeps_layout(first, high_byte(value), addr);
        s.mem.lemma_write_keeps_layout(first, high_byte(value), second);
        s.push(high_byte(value))->Ok_0.mem.lemma_write_keeps_layout(second, low_byte(value), addr);
    } else if ins.ins_type == InstructionType::PHA {
        s.mem.lemma_write_keeps_layout(stack_address(s.sp), s.a, addr);
    } else if ins.ins_type == InstructionType::PHP {
        s.mem.lemma_write_keeps_layout(stack_address(s.sp), s.sr, addr);
    }
}

/// A step of the processor keeps the memory map well formed and maps the
/// addresses that were mapped before, no more and no fewer.
pub proof fn lemma_step_keeps_layout(s: CpuState, addr: u16)
    requires
        s.mem.wf(),
        s.step() is Ok,
    ensures
        s.step()->Ok_0.mem.wf(),
        s.step()->Ok_0.mem.mapped(addr) == s.mem.mapped(addr),
{
    let ins = decode(s.mem.window(s.pc, fetch_end(s.pc)))->Ok_0;
    lemma_effect_keeps_layout(s, ins, addr);
}

} // verus!
