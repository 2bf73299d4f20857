//! What bytes and words have in common, as traits: the integer behind
//! them, bit logic, shifts, and arithmetic with a carry.

use vstd::prelude::*;
use crate::ops::operand::Width;
use crate::ops::shift::{shift_by, step_by, ShiftOp};
use crate::types::math::{
    carrying_add_byte, carrying_add_word, carrying_sub_byte, carrying_sub_word, div_byte,
    div_word, divs_byte, divs_word, mul_word, muls_word, trunc_div,
};
use crate::types::{signed_byte, signed_word, Address, Byte, Word};

verus! {

/// A value with an integer of type `T` behind it.
pub trait HasValue<T> {
    /// The integer.
    spec fn value_of(&self) -> T;

    /// The integer.
    fn value(&self) -> (r: T)
        ensures
            r == self.value_of(),
    ;
}

impl HasValue<u8> for Byte {
    open spec fn value_of(&self) -> u8 {
        self.0
    }

    fn value(&self) -> (r: u8) {
        self.0
    }
}

impl HasValue<i8> for Byte {
    open spec fn value_of(&self) -> i8 {
        signed_byte(self.0) as i8
    }

    fn value(&self) -> (r: i8) {
        if self.0 >= 128 {
            (self.0 as i16 - 256) as i8
        } else {
            self.0 as i8
        }
    }
}

impl HasValue<u16> for Word {
    open spec fn value_of(&self) -> u16 {
        self.0
    }

    fn value(&self) -> (r: u16) {
        self.0
    }
}

impl HasValue<i16> for Word {
    open spec fn value_of(&self) -> i16 {
        signed_word(self.0) as i16
    }

    fn value(&self) -> (r: i16) {
        if self.0 >= 32768 {
            (self.0 as i32 - 65536) as i16
        } else {
            self.0 as i16
        }
    }
}

/// An integer as a byte of the machine.
pub trait AsByte {
    /// The byte.
    spec fn byte_of(&self) -> Byte;

    /// The byte.
    fn as_byte(&self) -> (r: Byte)
        ensures
            r == self.byte_of(),
    ;
}

/// An integer as a word of the machine.
pub trait AsWord {
    /// The word.
    spec fn word_of(&self) -> Word;

    /// The word.
    fn as_word(&self) -> (r: Word)
        ensures
            r == self.word_of(),
    ;
}

/// An integer as an address of the machine.
pub trait AsAddress {
    /// The address.
    spec fn address_of(&self) -> Address;

    /// The address.
    fn as_address(&self) -> (r: Address)
        ensures
            r == self.address_of(),
    ;
}

impl AsByte for u8 {
    open spec fn byte_of(&self) -> Byte {
        Byte(*self)
    }

    fn as_byte(&self) -> (r: Byte) {
        Byte(*self)
    }
}

impl AsWord for u16 {
    open spec fn word_of(&self) -> Word {
        Word(*self)
    }

    fn as_word(&self) -> (r: Word) {
        Word(*self)
    }
}

impl AsAddress for u16 {
    open spec fn address_of(&self) -> Address {
        Address(*self)
    }

    fn as_address(&self) -> (r: Address) {
        Address(*self)
    }
}

/// Bit logic on a value with the integer `I` behind it.
pub trait BitLogic<I>: Sized {
    /// The integer behind a value.
    spec fn bits(&self) -> I;

    /// The complement of an integer.
    spec fn bits_not(a: I) -> I;

    /// The exclusive or of two integers.
    spec fn bits_xor(a: I, b: I) -> I;

    /// The conjunction of two integers.
    spec fn bits_and(a: I, b: I) -> I;

    /// The disjunction of two integers.
    spec fn bits_or(a: I, b: I) -> I;

    /// The value with an integer behind it.
    fn new(value: I) -> (r: Self)
        ensures
            r.bits() == value,
    ;

    /// Bitwise complement.
    fn not(&self) -> (r: Self)
        ensures
            r.bits() == Self::bits_not(self.bits()),
    ;

    /// Bitwise exclusive or.
    fn xor(&self, other: Self) -> (r: Self)
        ensures
            r.bits() == Self::bits_xor(self.bits(), other.bits()),
    ;

    /// Bitwise conjunction.
    fn and(&self, other: Self) -> (r: Self)
        ensures
            r.bits() == Self::bits_and(self.bits(), other.bits()),
    ;

    /// Bitwise disjunction.
    fn or(&self, other: Self) -> (r: Self)
        ensures
            r.bits() == Self::bits_or(self.bits(), other.bits()),
    ;
}

impl BitLogic<u8> for Byte {
    open spec fn bits(&self) -> u8 {
        self.0
    }

    open spec fn bits_not(a: u8) -> u8 {
        !a
    }

    open spec fn bits_xor(a: u8, b: u8) -> u8 {
        a ^ b
    }

    open spec fn bits_and(a: u8, b: u8) -> u8 {
        a & b
    }

    open spec fn bits_or(a: u8, b: u8) -> u8 {
        a | b
    }

    fn new(value: u8) -> (r: Byte) {
        Byte(value)
    }

    fn not(&self) -> (r: Byte) {
        Byte(!self.0)
    }

    fn xor(&self, other: Byte) -> (r: Byte) {
        Byte(self.0 ^ other.0)
    }

    fn and(&self, other: Byte) -> (r: Byte) {
        Byte(self.0 & other.0)
    }

    fn or(&self, other: Byte) -> (r: Byte) {
        Byte(self.0 | other.0)
    }
}

impl BitLogic<u16> for Word {
    open spec fn bits(&self) -> u16 {
        self.0
    }

    open spec fn bits_not(a: u16) -> u16 {
        !a
    }

    open spec fn bits_xor(a: u16, b: u16) -> u16 {
        a ^ b
    }

    open spec fn bits_and(a: u16, b: u16) -> u16 {
        a & b
    }

    open spec fn bits_or(a: u16, b: u16) -> u16 {
        a | b
    }

    fn new(value: u16) -> (r: Word) {
        Word(value)
    }

    fn not(&self) -> (r: Word) {
        Word(!self.0)
    }

    fn xor(&self, other: Word) -> (r: Word) {
        Word(self.0 ^ other.0)
    }

    fn and(&self, other: Word) -> (r: Word) {
        Word(self.0 & other.0)
    }

    fn or(&self, other: Word) -> (r: Word) {
        Word(self.0 | other.0)
    }
}

/// Shifts and rotates of a value by up to 65535 places.
pub trait Shifting: Sized {
    /// The value after `amount` places of a shift that leaves the carry
    /// alone.
    spec fn shifted(&self, op: ShiftOp, amount: nat) -> Self;

    /// Shift left: zeroes come in at the right.
    fn asl(&self, amount: u16) -> (r: Self)
        ensures
            r == self.shifted(ShiftOp::Asl, amount as nat),
    ;

    /// Arithmetic shift right: the sign bit stays.
    fn asr(&self, amount: u16) -> (r: Self)
        ensures
            r == self.shifted(ShiftOp::Asr, amount as nat),
    ;

    /// Logical shift right: zeroes come in at the left.
    fn lsr(&self, amount: u16) -> (r: Self)
        ensures
            r == self.shifted(ShiftOp::Lsr, amount as nat),
    ;

    /// Rotate left.
    fn rol(&self, amount: u16) -> (r: Self)
        ensures
            r == self.shifted(ShiftOp::Rol, amount as nat),
    ;

    /// Rotate right.
    fn ror(&self, amount: u16) -> (r: Self)
        ensures
            r == self.shifted(ShiftOp::Ror, amount as nat),
    ;
}

impl Shifting for Byte {
    open spec fn shifted(&self, op: ShiftOp, amount: nat) -> Byte {
        Byte(shift_by(op, Width::Byte, self.0 as u16, false, amount).0 as u8)
    }

    fn asl(&self, amount: u16) -> (r: Byte) {
        Byte(step_by(ShiftOp::Asl, Width::Byte, self.0 as u16, false, amount).0 as u8)
    }

    fn asr(&self, amount: u16) -> (r: Byte) {
        Byte(step_by(ShiftOp::Asr, Width::Byte, self.0 as u16, false, amount).0 as u8)
    }

    fn lsr(&self, amount: u16) -> (r: Byte) {
        Byte(step_by(ShiftOp::Lsr, Width::Byte, self.0 as u16, false, amount).0 as u8)
    }

    fn rol(&self, amount: u16) -> (r: Byte) {
        Byte(step_by(ShiftOp::Rol, Width::Byte, self.0 as u16, false, amount).0 as u8)
    }

    fn ror(&self, amount: u16) -> (r: Byte) {
        Byte(step_by(ShiftOp::Ror, Width::Byte, self.0 as u16, false, amount).0 as u8)
    }
}

impl Shifting for Word {
    open spec fn shifted(&self, op: ShiftOp, amount: nat) -> Word {
        Word(shift_by(op, Width::Word, self.0, false, amount).0)
    }

    fn asl(&self, amount: u16) -> (r: Word) {
        Word(step_by(ShiftOp::Asl, Width::Word, self.0, false, amount).0)
    }

    fn asr(&self, amount: u16) -> (r: Word) {
        Word(step_by(ShiftOp::Asr, Width::Word, self.0, false, amount).0)
    }

    fn lsr(&self, amount: u16) -> (r: Word) {
        Word(step_by(ShiftOp::Lsr, Width::Word, self.0, false, amount).0)
    }

    fn rol(&self, amount: u16) -> (r: Word) {
        Word(step_by(ShiftOp::Rol, Width::Word, self.0, false, amount).0)
    }

    fn ror(&self, amount: u16) -> (r: Word) {
        Word(step_by(ShiftOp::Ror, Width::Word, self.0, false, amount).0)
    }
}

/// Arithmetic that wraps at the width of the value and tells whether it
/// did. Products are words, so that the product of two bytes never wraps.
pub trait WrappingMath: Sized {
    /// The unsigned integer behind a value.
    spec fn unsigned(&self) -> int;

    /// The two's-complement integer behind a value.
    spec fn signed(&self) -> int;

    /// One more than the largest unsigned integer of the width.
    spec fn modulus() -> int;

    /// The sum of two values and a carry, modulo the width, and whether the
    /// sum wrapped.
    fn wrapping_add(&self, other: Self, carry: bool) -> (r: (Self, bool))
        ensures
            r.0.unsigned() == (self.unsigned() + other.unsigned() + if carry { 1int } else { 0 })
                % Self::modulus(),
            r.1 == (self.unsigned() + other.unsigned() + if carry { 1int } else { 0 }
                >= Self::modulus()),
    ;

    /// The difference of two values and a carry, modulo the width, and
    /// whether it borrowed.
    fn wrapping_sub(&self, other: Self, carry: bool) -> (r: (Self, bool))
        ensures
            r.0.unsigned() == (self.unsigned() - other.unsigned() - if carry { 1int } else { 0 })
                % Self::modulus(),
            r.1 == (self.unsigned() - other.unsigned() - if carry { 1int } else { 0 } < 0),
    ;

    /// The product of two values as a word, and whether it wrapped.
    fn wrapping_mul(&self, other: Self) -> (r: (Word, bool))
        ensures
            r.0.0 == (self.unsigned() * other.unsigned()) % 65536,
            r.1 == (self.unsigned() * other.unsigned() > 65535),
    ;

    /// The quotient of two values.
    fn wrapping_div(&self, other: Self) -> (r: (Self, bool))
        requires
            other.unsigned() != 0,
        ensures
            r.0.unsigned() == self.unsigned() / other.unsigned(),
            !r.1,
    ;

    /// The product of two values read as signed, as a word, and whether it
    /// left the signed range of a word.
    fn wrapping_muls(&self, other: Self) -> (r: (Word, bool))
        ensures
            r.0.0 == (self.signed() * other.signed()) % 65536,
            r.1 == !(-32768 <= self.signed() * other.signed() <= 32767),
    ;

    /// The quotient of two values read as signed, rounded toward zero and
    /// taken modulo the width.
    fn wrapping_divs(&self, other: Self) -> (r: (Self, bool))
        requires
            other.unsigned() != 0,
        ensures
            r.0.unsigned() == trunc_div(self.signed(), other.signed()) % Self::modulus(),
            !r.1,
    ;
}

impl WrappingMath for Byte {
    open spec fn unsigned(&self) -> int {
        self.0 as int
    }

    open spec fn signed(&self) -> int {
        signed_byte(self.0)
    }

    open spec fn modulus() -> int {
        256
    }

    fn wrapping_add(&self, other: Byte, carry: bool) -> (r: (Byte, bool)) {
        carrying_add_byte(*self, other, carry)
    }

    fn wrapping_sub(&self, other: Byte, carry: bool) -> (r: (Byte, bool)) {
        carrying_sub_byte(*self, other, carry)
    }

    fn wrapping_mul(&self, other: Byte) -> (r: (Word, bool)) {
        assert(0 <= self.0 * other.0 <= 255 * 255) by (nonlinear_arith)
            requires
                0 <= self.0 <= 255,
                0 <= other.0 <= 255,
        ;
        (Word(self.0 as u16 * other.0 as u16), false)
    }

    fn wrapping_div(&self, other: Byte) -> (r: (Byte, bool)) {
        div_byte(*self, other, false)
    }

    fn wrapping_muls(&self, other: Byte) -> (r: (Word, bool)) {
        let a: i32 = if self.0 >= 128 { self.0 as i32 - 256 } else { self.0 as i32 };
        let b: i32 = if other.0 >= 128 { other.0 as i32 - 256 } else { other.0 as i32 };
        assert(-16384 <= a * b <= 16384) by (nonlinear_arith)
            requires
                -128 <= a <= 127,
                -128 <= b <= 127,
        ;
        let lifted: u32 = (a * b + 65536) as u32;
        (Word((lifted % 65536) as u16), false)
    }

    fn wrapping_divs(&self, other: Byte) -> (r: (Byte, bool)) {
        (divs_byte(*self, other, false).0, false)
    }
}

impl WrappingMath for Word {
    open spec fn unsigned(&self) -> int {
        self.0 as int
    }

    open spec fn signed(&self) -> int {
        signed_word(self.0)
    }

    open spec fn modulus() -> int {
        65536
    }

    fn wrapping_add(&self, other: Word, carry: bool) -> (r: (Word, bool)) {
        carrying_add_word(*self, other, carry)
    }

    fn wrapping_sub(&self, other: Word, carry: bool) -> (r: (Word, bool)) {
        carrying_sub_word(*self, other, carry)
    }

    fn wrapping_mul(&self, other: Word) -> (r: (Word, bool)) {
        assert(0 <= self.0 * other.0) by (nonlinear_arith);
        mul_word(*self, other, false)
    }

    fn wrapping_div(&self, other: Word) -> (r: (Word, bool)) {
        div_word(*self, other, false)
    }

    fn wrapping_muls(&self, other: Word) -> (r: (Word, bool)) {
        muls_word(*self, other, false)
    }

    fn wrapping_divs(&self, other: Word) -> (r: (Word, bool)) {
        (divs_word(*self, other, false).0, false)
    }
}

} // verus!
