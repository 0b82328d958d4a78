//! Single-bit operations on a byte, and the bits of the status register.
//!
//! ```text
//!   7  bit  0
//!   ---- ----
//!   NVss DIZC
//!   |||| ||||
//!   |||| |||+- Carry
//!   |||| ||+-- Zero
//!   |||| |+--- Interrupt Disable
//!   |||| +---- Decimal
//!   ||++------ No CPU effect
//!   |+-------- Overflow
//!   +--------- Negative
//! ```
use vstd::prelude::*;

verus! {

/// Unsigned carry or borrow out.
pub const CARRY_BIT: u8 = 0;

/// The result was zero.
pub const ZERO_BIT: u8 = 1;

/// Maskable interrupts are suppressed.
pub const INT_DISABLE_BIT: u8 = 2;

/// Decimal mode; it can be set and cleared and changes no arithmetic.
pub const DECIMAL_BIT: u8 = 3;

/// Signed overflow.
pub const OVERFLOW_BIT: u8 = 6;

/// The sign bit of the result.
pub const NEGATIVE_BIT: u8 = 7;

/// Whether bit `index` of `value` is set.
pub open spec fn bit_of(value: u8, index: u8) -> bool {
    (value >> index) & 1u8 == 1u8
}

/// `value` with bit `index` set (`on`) or cleared, the other bits kept.
pub open spec fn with_bit(value: u8, index: u8, on: bool) -> u8 {
    if on {
        value | (1u8 << index)
    } else {
        value & !(1u8 << index)
    }
}

/// The status byte after a result was produced: the negative flag takes the
/// result's bit 7 and the zero flag says whether the result is zero.
pub open spec fn with_nz(status: u8, result: u8) -> u8 {
    with_bit(with_bit(status, NEGATIVE_BIT, result >= 128), ZERO_BIT, result == 0)
}

/// `with_bit` changes the bit it names, to the value given, and no other.
pub proof fn lemma_with_bit(value: u8, index: u8, on: bool, other: u8)
    requires
        index <= 7,
        other <= 7,
    ensures
        bit_of(with_bit(value, index, on), other) == if other == index {
            on
        } else {
            bit_of(value, other)
        },
{
    assert(index <= 7 && other <= 7 ==> (((value | (1u8 << index)) >> other) & 1u8 == 1u8) == (
    if other == index {
        true
    } else {
        (value >> other) & 1u8 == 1u8
    })) by (bit_vector);
    assert(index <= 7 && other <= 7 ==> (((value & !(1u8 << index)) >> other) & 1u8 == 1u8) == (
    if other == index {
        false
    } else {
        (value >> other) & 1u8 == 1u8
    })) by (bit_vector);
}

/// Bit 7 of a byte is set exactly when the byte is at least 128.
pub proof fn lemma_sign_bit(value: u8)
    ensures
        bit_of(value, 7) == (value >= 128),
        bit_of(value, 0) == (value % 2 == 1),
{
    assert(((value >> 7u8) & 1u8 == 1u8) == (value >= 128)) by (bit_vector);
    assert(((value >> 0u8) & 1u8 == 1u8) == (value % 2 == 1)) by (bit_vector);
}

/// Common bit operations
pub trait BitOps {
    fn set_bit(&mut self, index: u8)
        requires
            index <= 7,
    ;

    fn clear_bit(&mut self, index: u8)
        requires
            index <= 7,
    ;

    fn get_bit(&self, index: u8) -> (bit: u8)
        requires
            index <= 7,
    ;

    fn assign_bit(&mut self, index: u8, value: u8)
        requires
            index <= 7,
            value <= 1,
    ;
}

impl BitOps for u8 {
    fn set_bit(&mut self, index: u8)
        ensures
            *final(self) == with_bit(*old(self), index, true),
    {
        *self |= 1 << index;
    }

    fn clear_bit(&mut self, index: u8)
        ensures
            *final(self) == with_bit(*old(self), index, false),
    {
        *self &= !(1 << index);
    }

    fn get_bit(&self, index: u8) -> (bit: u8)
        ensures
            bit <= 1,
            (bit == 1) == bit_of(*self, index),
    {
        let value = *self;
        assert(index <= 7 ==> (value >> index) & 1u8 <= 1) by (bit_vector);
        (*self >> index) & 1u8
    }

    fn assign_bit(&mut self, index: u8, value: u8)
        ensures
            *final(self) == with_bit(*old(self), index, value == 1),
    {
        let before = *self;
        assert(index <= 7 ==> (before & !(1u8 << index)) | (1u8 << index) == before | (1u8
            << index)) by (bit_vector);
        assert(index <= 7 ==> (before & !(1u8 << index)) | (0u8 << index) == before & !(1u8
            << index)) by (bit_vector);
        *self = *self & !(1u8 << index);  // clear bit at index
        *self |= value << index;  // assign value to bit at index
    }
}

} // verus!
