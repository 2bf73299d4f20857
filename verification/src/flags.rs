//! The flags engine: how the flags byte follows from the last significant
//! value or comparison. These are pure functions of the byte; the machine
//! applies them to its flags register.

use vstd::prelude::*;
use crate::constants::registers::flags::{
    CARRY, GREATER_THAN, INTERRUPTS, LESS_THAN, OVERFLOW, SIGNED, ZERO,
};
use crate::types::{signed_byte, signed_word, is_first_bit_set_byte, is_first_bit_set_word};

verus! {

/// Whether every bit of `flag` is set in `flags`.
pub open spec fn flag_set(flags: u8, flag: u8) -> bool {
    flags & flag == flag
}

/// `flags` with the bits of `flag` set or cleared.
pub open spec fn with_flag(flags: u8, flag: u8, on: bool) -> u8 {
    if on {
        flags | flag
    } else {
        flags & !flag
    }
}

/// Whether `flag` is one of the seven flags of the machine.
pub open spec fn is_flag(flag: u8) -> bool {
    flag == CARRY || flag == ZERO || flag == SIGNED || flag == OVERFLOW || flag == LESS_THAN
        || flag == GREATER_THAN || flag == INTERRUPTS
}

/// The flags after a plain value was produced: ZERO and SIGNED describe the
/// value, and the comparison and arithmetic flags are cleared.
pub open spec fn value_flags(flags: u8, zero: bool, signed: bool) -> u8 {
    with_flag(
        with_flag(
            with_flag(
                with_flag(with_flag(with_flag(flags, ZERO, zero), SIGNED, signed), GREATER_THAN, false),
                LESS_THAN,
                false,
            ),
            OVERFLOW,
            false,
        ),
        CARRY,
        false,
    )
}

/// The flags after arithmetic: ZERO and SIGNED describe the result, CARRY
/// and OVERFLOW are as given, and the comparison flags are cleared.
pub open spec fn math_flags(flags: u8, zero: bool, signed: bool, carry: bool, overflow: bool) -> u8 {
    with_flag(
        with_flag(
            with_flag(
                with_flag(with_flag(with_flag(flags, ZERO, zero), SIGNED, signed), GREATER_THAN, false),
                LESS_THAN,
                false,
            ),
            OVERFLOW,
            overflow,
        ),
        CARRY,
        carry,
    )
}

/// The flags after a comparison: LESS_THAN and GREATER_THAN are as given,
/// ZERO and SIGNED describe the left side, CARRY and OVERFLOW are cleared.
pub open spec fn compare_flags(flags: u8, less: bool, greater: bool, zero: bool, signed: bool) -> u8 {
    with_flag(
        with_flag(
            with_flag(
                with_flag(with_flag(with_flag(flags, LESS_THAN, less), GREATER_THAN, greater), ZERO, zero),
                SIGNED,
                signed,
            ),
            CARRY,
            false,
        ),
        OVERFLOW,
        false,
    )
}

/// Whether the left side is below the right, in the signed or the unsigned
/// order.
pub open spec fn below_byte(lhs: u8, rhs: u8, signed: bool) -> bool {
    if signed {
        signed_byte(lhs) < signed_byte(rhs)
    } else {
        lhs < rhs
    }
}

/// Whether the left side is below the right, in the signed or the unsigned
/// order.
pub open spec fn below_word(lhs: u16, rhs: u16, signed: bool) -> bool {
    if signed {
        signed_word(lhs) < signed_word(rhs)
    } else {
        lhs < rhs
    }
}

/// Whether the sign bits of two bytes differ.
pub fn has_overflowed_byte(lhs: u8, rhs: u8) -> (r: bool)
    ensures
        r == ((lhs >= 128) != (rhs >= 128)),
{
    is_first_bit_set_byte(lhs) != is_first_bit_set_byte(rhs)
}

/// Whether the sign bits of two words differ.
pub fn has_overflowed_word(lhs: u16, rhs: u16) -> (r: bool)
    ensures
        r == ((lhs >= 32768) != (rhs >= 32768)),
{
    is_first_bit_set_word(lhs) != is_first_bit_set_word(rhs)
}

/// Whether every bit of `flag` is set in `flags`.
pub fn check(flags: u8, flag: u8) -> (r: bool)
    ensures
        r == flag_set(flags, flag),
{
    flags & flag == flag
}

/// `flags` with the bits of `flag` set or cleared.
pub fn update(flags: u8, flag: u8, on: bool) -> (r: u8)
    ensures
        r == with_flag(flags, flag, on),
{
    if on {
        flags | flag
    } else {
        flags & !flag
    }
}

/// The flags after a plain byte was produced.
pub fn for_byte(flags: u8, value: u8) -> (r: u8)
    ensures
        r == value_flags(flags, value == 0, value >= 128),
{
    let f: u8 = update(flags, ZERO, value == 0);
    let f: u8 = update(f, SIGNED, is_first_bit_set_byte(value));
    let f: u8 = update(f, GREATER_THAN, false);
    let f: u8 = update(f, LESS_THAN, false);
    let f: u8 = update(f, OVERFLOW, false);
    update(f, CARRY, false)
}

/// The flags after a plain word was produced.
pub fn for_word(flags: u8, value: u16) -> (r: u8)
    ensures
        r == value_flags(flags, value == 0, value >= 32768),
{
    let f: u8 = update(flags, ZERO, value == 0);
    let f: u8 = update(f, SIGNED, is_first_bit_set_word(value));
    let f: u8 = update(f, GREATER_THAN, false);
    let f: u8 = update(f, LESS_THAN, false);
    let f: u8 = update(f, OVERFLOW, false);
    update(f, CARRY, false)
}

/// The flags after arithmetic that gave `zero`/`signed` of its result.
pub fn for_math(flags: u8, zero: bool, signed: bool, carry: bool, overflow: bool) -> (r: u8)
    ensures
        r == math_flags(flags, zero, signed, carry, overflow),
{
    let f: u8 = update(flags, ZERO, zero);
    let f: u8 = update(f, SIGNED, signed);
    let f: u8 = update(f, GREATER_THAN, false);
    let f: u8 = update(f, LESS_THAN, false);
    let f: u8 = update(f, OVERFLOW, overflow);
    update(f, CARRY, carry)
}

/// The flags after a comparison that found `less`/`greater`.
pub fn for_comparison(flags: u8, less: bool, greater: bool, zero: bool, signed: bool) -> (r: u8)
    ensures
        r == compare_flags(flags, less, greater, zero, signed),
{
    let f: u8 = update(flags, LESS_THAN, less);
    let f: u8 = update(f, GREATER_THAN, greater);
    let f: u8 = update(f, ZERO, zero);
    let f: u8 = update(f, SIGNED, signed);
    let f: u8 = update(f, CARRY, false);
    update(f, OVERFLOW, false)
}

/// Setting or clearing one flag decides that flag and leaves every other
/// bit of the byte as it was.
pub proof fn lemma_with_flag(flags: u8, a: u8, b: u8, on: bool)
    by (bit_vector)
    requires
        a == 0x80 || a == 0x40 || a == 0x20 || a == 0x10 || a == 0x08 || a == 0x04 || a == 0x02
            || a == 0x01,
        b == 0x80 || b == 0x40 || b == 0x20 || b == 0x10 || b == 0x08 || b == 0x04 || b == 0x02
            || b == 0x01,
    ensures
        ((if on { flags | a } else { flags & !a }) & b == b) == (if a == b { on } else { flags & b == b }),
{
}

/// After a plain value, ZERO and SIGNED describe it, the four comparison and
/// arithmetic flags are clear, and INTERRUPTS is untouched.
pub proof fn lemma_value_flags(flags: u8, zero: bool, signed: bool)
    ensures
        flag_set(value_flags(flags, zero, signed), ZERO) == zero,
        flag_set(value_flags(flags, zero, signed), SIGNED) == signed,
        !flag_set(value_flags(flags, zero, signed), LESS_THAN),
        !flag_set(value_flags(flags, zero, signed), GREATER_THAN),
        !flag_set(value_flags(flags, zero, signed), OVERFLOW),
        !flag_set(value_flags(flags, zero, signed), CARRY),
        flag_set(value_flags(flags, zero, signed), INTERRUPTS) == flag_set(flags, INTERRUPTS),
{
    lemma_math_flags(flags, zero, signed, false, false);
}

/// After arithmetic, ZERO and SIGNED describe the result, CARRY and OVERFLOW
/// are exactly the booleans that the primitive gave, the comparison flags are
/// clear, and INTERRUPTS is untouched.
pub proof fn lemma_math_flags(flags: u8, zero: bool, signed: bool, carry: bool, overflow: bool)
    ensures
        flag_set(math_flags(flags, zero, signed, carry, overflow), ZERO) == zero,
        flag_set(math_flags(flags, zero, signed, carry, overflow), SIGNED) == signed,
        !flag_set(math_flags(flags, zero, signed, carry, overflow), LESS_THAN),
        !flag_set(math_flags(flags, zero, signed, carry, overflow), GREATER_THAN),
        flag_set(math_flags(flags, zero, signed, carry, overflow), OVERFLOW) == overflow,
        flag_set(math_flags(flags, zero, signed, carry, overflow), CARRY) == carry,
        flag_set(math_flags(flags, zero, signed, carry, overflow), INTERRUPTS) == flag_set(
            flags,
            INTERRUPTS,
        ),
{
    let f1 = with_flag(flags, ZERO, zero);
    let f2 = with_flag(f1, SIGNED, signed);
    let f3 = with_flag(f2, GREATER_THAN, false);
    let f4 = with_flag(f3, LESS_THAN, false);
    let f5 = with_flag(f4, OVERFLOW, overflow);
    lemma_flag_chain(flags, ZERO, zero);
    lemma_flag_chain(f1, SIGNED, signed);
    lemma_flag_chain(f2, GREATER_THAN, false);
    lemma_flag_chain(f3, LESS_THAN, false);
    lemma_flag_chain(f4, OVERFLOW, overflow);
    lemma_flag_chain(f5, CARRY, carry);
}

/// After a comparison, LESS_THAN and GREATER_THAN are exactly what the
/// comparison found, ZERO and SIGNED describe the left side, CARRY and
/// OVERFLOW are clear, and INTERRUPTS is untouched.
pub proof fn lemma_compare_flags(flags: u8, less: bool, greater: bool, zero: bool, signed: bool)
    ensures
        flag_set(compare_flags(flags, less, greater, zero, signed), LESS_THAN) == less,
        flag_set(compare_flags(flags, less, greater, zero, signed), GREATER_THAN) == greater,
        flag_set(compare_flags(flags, less, greater, zero, signed), ZERO) == zero,
        flag_set(compare_flags(flags, less, greater, zero, signed), SIGNED) == signed,
        !flag_set(compare_flags(flags, less, greater, zero, signed), CARRY),
        !flag_set(compare_flags(flags, less, greater, zero, signed), OVERFLOW),
        flag_set(compare_flags(flags, less, greater, zero, signed), INTERRUPTS) == flag_set(
            flags,
            INTERRUPTS,
        ),
{
    let f1 = with_flag(flags, LESS_THAN, less);
    let f2 = with_flag(f1, GREATER_THAN, greater);
    let f3 = with_flag(f2, ZERO, zero);
    let f4 = with_flag(f3, SIGNED, signed);
    let f5 = with_flag(f4, CARRY, false);
    lemma_flag_chain(flags, LESS_THAN, less);
    lemma_flag_chain(f1, GREATER_THAN, greater);
    lemma_flag_chain(f2, ZERO, zero);
    lemma_flag_chain(f3, SIGNED, signed);
    lemma_flag_chain(f4, CARRY, false);
    lemma_flag_chain(f5, OVERFLOW, false);
}

/// What one update does to each of the seven flags.
pub proof fn lemma_flag_chain(flags: u8, a: u8, on: bool)
    requires
        is_flag(a),
    ensures
        flag_set(with_flag(flags, a, on), CARRY) == (if a == CARRY { on } else { flag_set(flags, CARRY) }),
        flag_set(with_flag(flags, a, on), ZERO) == (if a == ZERO { on } else { flag_set(flags, ZERO) }),
        flag_set(with_flag(flags, a, on), SIGNED) == (if a == SIGNED { on } else { flag_set(flags, SIGNED) }),
        flag_set(with_flag(flags, a, on), OVERFLOW) == (if a == OVERFLOW {
            on
        } else {
            flag_set(flags, OVERFLOW)
        }),
        flag_set(with_flag(flags, a, on), LESS_THAN) == (if a == LESS_THAN {
            on
        } else {
            flag_set(flags, LESS_THAN)
        }),
        flag_set(with_flag(flags, a, on), GREATER_THAN) == (if a == GREATER_THAN {
            on
        } else {
            flag_set(flags, GREATER_THAN)
        }),
        flag_set(with_flag(flags, a, on), INTERRUPTS) == (if a == INTERRUPTS {
            on
        } else {
            flag_set(flags, INTERRUPTS)
        }),
{
    lemma_with_flag(flags, a, CARRY, on);
    lemma_with_flag(flags, a, ZERO, on);
    lemma_with_flag(flags, a, SIGNED, on);
    lemma_with_flag(flags, a, OVERFLOW, on);
    lemma_with_flag(flags, a, LESS_THAN, on);
    lemma_with_flag(flags, a, GREATER_THAN, on);
    lemma_with_flag(flags, a, INTERRUPTS, on);
}

} // verus!
