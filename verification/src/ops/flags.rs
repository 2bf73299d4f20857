//! How the machine's flags register follows values and comparisons.

use vstd::prelude::*;
use crate::constants::registers::offset::FLAGS;
use crate::flags::{
    below_byte, below_word, compare_flags, for_byte, for_comparison, for_math, for_word,
    math_flags, value_flags,
};
use crate::model::Machine;
use crate::types::{is_first_bit_set_byte, is_first_bit_set_word};
use crate::vm::VM;

verus! {

impl Machine {
    /// The machine after a plain byte was produced.
    pub open spec fn set_flags_byte(self, value: u8) -> Machine {
        self.with_flags(value_flags(self.flags(), value == 0, value >= 128))
    }

    /// The machine after a plain word was produced.
    pub open spec fn set_flags_word(self, value: u16) -> Machine {
        self.with_flags(value_flags(self.flags(), value == 0, value >= 32768))
    }

    /// The machine after arithmetic gave a byte.
    pub open spec fn set_math_flags_byte(self, value: u8, carry: bool, overflow: bool) -> Machine {
        self.with_flags(math_flags(self.flags(), value == 0, value >= 128, carry, overflow))
    }

    /// The machine after arithmetic gave a word.
    pub open spec fn set_math_flags_word(self, value: u16, carry: bool, overflow: bool) -> Machine {
        self.with_flags(math_flags(self.flags(), value == 0, value >= 32768, carry, overflow))
    }

    /// The machine after two bytes were compared.
    pub open spec fn set_order_flags_byte(self, lhs: u8, rhs: u8, signed: bool) -> Machine {
        self.with_flags(
            compare_flags(
                self.flags(),
                below_byte(lhs, rhs, signed),
                below_byte(rhs, lhs, signed),
                lhs == 0,
                lhs >= 128,
            ),
        )
    }

    /// The machine after two words were compared.
    pub open spec fn set_order_flags_word(self, lhs: u16, rhs: u16, signed: bool) -> Machine {
        self.with_flags(
            compare_flags(
                self.flags(),
                below_word(lhs, rhs, signed),
                below_word(rhs, lhs, signed),
                lhs == 0,
                lhs >= 32768,
            ),
        )
    }
}

/// Whether `lhs` is below `rhs`, in the signed or the unsigned order.
pub fn is_below_byte(lhs: u8, rhs: u8, signed: bool) -> (r: bool)
    ensures
        r == below_byte(lhs, rhs, signed),
{
    if signed {
        let l: i16 = if lhs >= 128 { lhs as i16 - 256 } else { lhs as i16 };
        let r: i16 = if rhs >= 128 { rhs as i16 - 256 } else { rhs as i16 };
        l < r
    } else {
        lhs < rhs
    }
}

/// Whether `lhs` is below `rhs`, in the signed or the unsigned order.
pub fn is_below_word(lhs: u16, rhs: u16, signed: bool) -> (r: bool)
    ensures
        r == below_word(lhs, rhs, signed),
{
    if signed {
        let l: i32 = if lhs >= 32768 { lhs as i32 - 65536 } else { lhs as i32 };
        let r: i32 = if rhs >= 32768 { rhs as i32 - 65536 } else { rhs as i32 };
        l < r
    } else {
        lhs < rhs
    }
}

impl VM {
    /// Sets the flags for a byte that was produced: ZERO and SIGNED describe
    /// it, and LESS_THAN, GREATER_THAN, OVERFLOW and CARRY are cleared.
    pub fn set_flags_byte(&mut self, value: u8)
        ensures
            final(self)@ == old(self)@.set_flags_byte(value),
    {
        let next: u8 = for_byte(self.registers[FLAGS], value);
        self.set_flags_register(next);
    }

    /// Sets the flags for a word that was produced: ZERO and SIGNED describe
    /// it, and LESS_THAN, GREATER_THAN, OVERFLOW and CARRY are cleared.
    pub fn set_flags_word(&mut self, value: u16)
        ensures
            final(self)@ == old(self)@.set_flags_word(value),
    {
        let next: u8 = for_word(self.registers[FLAGS], value);
        self.set_flags_register(next);
    }

    /// Sets the flags for the result of arithmetic on bytes: ZERO and SIGNED
    /// describe the result, CARRY and OVERFLOW are as given, LESS_THAN and
    /// GREATER_THAN are cleared.
    pub fn set_math_flags_byte(&mut self, value: u8, set_carry: bool, set_overflow: bool)
        ensures
            final(self)@ == old(self)@.set_math_flags_byte(value, set_carry, set_overflow),
    {
        let next: u8 = for_math(
            self.registers[FLAGS],
            value == 0,
            is_first_bit_set_byte(value),
            set_carry,
            set_overflow,
        );
        self.set_flags_register(next);
    }

    /// Sets the flags for the result of arithmetic on words: ZERO and SIGNED
    /// describe the result, CARRY and OVERFLOW are as given, LESS_THAN and
    /// GREATER_THAN are cleared.
    pub fn set_math_flags_word(&mut self, value: u16, set_carry: bool, set_overflow: bool)
        ensures
            final(self)@ == old(self)@.set_math_flags_word(value, set_carry, set_overflow),
    {
        let next: u8 = for_math(
            self.registers[FLAGS],
            value == 0,
            is_first_bit_set_word(value),
            set_carry,
            set_overflow,
        );
        self.set_flags_register(next);
    }

    /// Sets the flags for a comparison of bytes: LESS_THAN and GREATER_THAN
    /// by the signed or the unsigned order, ZERO and SIGNED from the left
    /// side, CARRY and OVERFLOW cleared.
    pub fn set_cmp_flags_byte(&mut self, lhs: u8, rhs: u8, signed: bool)
        ensures
            final(self)@ == old(self)@.set_order_flags_byte(lhs, rhs, signed),
    {
        let next: u8 = for_comparison(
            self.registers[FLAGS],
            is_below_byte(lhs, rhs, signed),
            is_below_byte(rhs, lhs, signed),
            lhs == 0,
            is_first_bit_set_byte(lhs),
        );
        self.set_flags_register(next);
    }

    /// Sets the flags for a comparison of words: LESS_THAN and GREATER_THAN
    /// by the signed or the unsigned order, ZERO and SIGNED from the left
    /// side, CARRY and OVERFLOW cleared.
    pub fn set_cmp_flags_word(&mut self, lhs: u16, rhs: u16, signed: bool)
        ensures
            final(self)@ == old(self)@.set_order_flags_word(lhs, rhs, signed),
    {
        let next: u8 = for_comparison(
            self.registers[FLAGS],
            is_below_word(lhs, rhs, signed),
            is_below_word(rhs, lhs, signed),
            lhs == 0,
            is_first_bit_set_word(lhs),
        );
        self.set_flags_register(next);
    }
}

} // verus!
