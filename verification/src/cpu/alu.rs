//! Arithmetic on registers and flags: addition with carry, comparison,
//! and the moves of the program counter.
use vstd::prelude::*;
use crate::bus::BusDevice;
use crate::cpu::flags::{
    lemma_sign_bit, with_bit, with_nz, BitOps, CARRY_BIT, NEGATIVE_BIT, OVERFLOW_BIT, ZERO_BIT,
};
use crate::cpu::isa::{signed, to_signed};
use crate::cpu::semantics::{complement, high_byte, low_byte, unsigned, wrap16, wrap8};
use crate::cpu::Cpu;

verus! {

/// 1 for a set flag, 0 for a cleared one.
pub(crate) fn flag_value(on: bool) -> (value: u8)
    ensures
        value <= 1,
        (value == 1) == on,
{
    if on {
        1
    } else {
        0
    }
}

/// The byte whose two's complement reading is `value`.
pub(crate) fn from_signed(value: i8) -> (byte: u8)
    ensures
        byte == unsigned(value),
        signed(byte) == value,
{
    if value >= 0 {
        value as u8
    } else {
        (value as i16 + 0x100) as u8
    }
}

/// Shifting a byte by one bit is doubling or halving it; the bit that a
/// rotate brings in lands in the place the shift vacated.
pub proof fn lemma_shifts(value: u8)
    ensures
        value << 1u8 == wrap8(value * 2),
        value >> 1u8 == value / 2,
        with_bit(value << 1u8, 0, false) == wrap8(value * 2),
        with_bit(value << 1u8, 0, true) == wrap8(value * 2 + 1),
        with_bit(value >> 1u8, 7, false) == value / 2,
        with_bit(value >> 1u8, 7, true) == value / 2 + 0x80,
{
    assert((value << 1u8) as u16 == ((value as u16) * 2) % 0x100) by (bit_vector);
    assert(value >> 1u8 == value / 2) by (bit_vector);
    assert((value << 1u8) & !(1u8 << 0u8) == value << 1u8) by (bit_vector);
    assert(((value << 1u8) | (1u8 << 0u8)) as u16 == ((value as u16) * 2 + 1) % 0x100)
        by (bit_vector);
    assert((value >> 1u8) & !(1u8 << 7u8) == value >> 1u8) by (bit_vector);
    assert(((value >> 1u8) | (1u8 << 7u8)) as u16 == (value >> 1u8) as u16 + 0x80)
        by (bit_vector);
}

/// Flipping every bit of a byte subtracts it from 255.
pub proof fn lemma_complement(value: u8)
    ensures
        !value == complement(value),
{
    assert(!value == 0xffu8 - value) by (bit_vector);
}

/// Shifting and masking a 16-bit value give its high and low bytes.
pub proof fn lemma_bytes_of_word(value: u16)
    ensures
        (value >> 8) as u8 == high_byte(value),
        (value & 0xff) as u8 == low_byte(value),
        value >> 8 <= 0xff,
        value & 0xff <= 0xff,
{
    assert(value >> 8 == value / 0x100) by (bit_vector);
    assert(value & 0xff == value % 0x100) by (bit_vector);
}

impl<D: BusDevice> Cpu<D> {
    /// Point the program counter so far before `target` that the advance
    /// past the current instruction, `length` bytes long, lands on `target`.
    pub fn redirect_pc(&mut self, target: u16, length: u16)
        ensures
            final(self).bus == old(self).bus,
            final(self)@ == old(self)@.with_pc(wrap16(target - length)),
            wrap16(final(self).pc + length) == target,
    {
        self.pc = target.wrapping_sub(length);  // compensate for normal pc adjustment
    }

    /// Move the program counter by the displacement that `operand` encodes
    /// as a signed byte.
    pub(crate) fn branch(&mut self, operand: u8)
        ensures
            final(self).bus == old(self).bus,
            final(self)@ == old(self)@.with_pc(final(self).pc),
            final(self).pc == wrap16(old(self).pc + signed(operand)),
    {
        self.pc = self.pc.wrapping_add_signed(to_signed(operand) as i16);
    }

    /// Addition with carry into the accumulator.
    pub(crate) fn add_with_carry(&mut self, operand: u8)
        ensures
            final(self).bus == old(self).bus,
            final(self)@ == old(self)@.add_with_carry(operand),
    {
        let carry_in = self.sr.get_bit(CARRY_BIT);

        // set overflow flag if appropriate
        let signed_a = to_signed(self.a);
        let carry_in_added_i8 = signed_a.wrapping_add(carry_in as i8);
        let overflow = signed_a.checked_add(carry_in as i8).is_none()
            || carry_in_added_i8.checked_add(to_signed(operand)).is_none();

        // compute sum and carry out flag
        let carry_in_added = self.a.wrapping_add(carry_in);
        let carry_out = self.a.checked_add(carry_in).is_none() || carry_in_added.checked_add(
            operand,
        ).is_none();

        self.a = carry_in_added.wrapping_add(operand);
        self.sr.assign_bit(OVERFLOW_BIT, flag_value(overflow));
        self.sr.assign_bit(CARRY_BIT, flag_value(carry_out));
        self.set_sr_nz(self.a);
    }

    /// Set the flags of `register - operand`.
    pub(crate) fn compare(&mut self, register: u8, operand: u8)
        ensures
            final(self).bus == old(self).bus,
            final(self)@ == old(self)@.compare(register, operand),
    {
        let result = register.wrapping_sub(operand);
        self.sr.assign_bit(CARRY_BIT, flag_value(register >= operand));
        self.set_sr_nz(result)
    }

    /// Set zero and negative flags based on value
    pub fn set_sr_nz(&mut self, value: u8)
        ensures
            final(self).bus == old(self).bus,
            final(self)@ == old(self)@.with_sr(with_nz(old(self).sr, value)),
    {
        proof {
            lemma_sign_bit(value);
        }
        self.sr.assign_bit(NEGATIVE_BIT, value.get_bit(7));
        match value {
            0 => self.sr.set_bit(ZERO_BIT),
            _ => self.sr.clear_bit(ZERO_BIT),
        }
    }
}

} // verus!
