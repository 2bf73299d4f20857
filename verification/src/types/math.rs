//! The arithmetic and logic primitives of the instruction set. Each takes
//! the two operands and the current carry, and gives the result with the
//! carry that the operation produced.

use vstd::prelude::*;
use crate::types::{Byte, Word, signed_byte, signed_word};

verus! {

/// `a / b` rounded toward zero, for `b != 0`.
pub open spec fn trunc_div(a: int, b: int) -> int {
    let q = (if a < 0 { -a } else { a }) / (if b < 0 { -b } else { b });
    if (a < 0) != (b < 0) {
        -q
    } else {
        q
    }
}

pub fn and_byte(this: Byte, other: Byte, _carry: bool) -> (r: (Byte, bool))
    ensures
        r.0.0 == this.0 & other.0,
        !r.1,
{
    (Byte(this.0 & other.0), false)
}

pub fn and_word(this: Word, other: Word, _carry: bool) -> (r: (Word, bool))
    ensures
        r.0.0 == this.0 & other.0,
        !r.1,
{
    (Word(this.0 & other.0), false)
}

pub fn or_byte(this: Byte, other: Byte, _carry: bool) -> (r: (Byte, bool))
    ensures
        r.0.0 == this.0 | other.0,
        !r.1,
{
    (Byte(this.0 | other.0), false)
}

pub fn or_word(this: Word, other: Word, _carry: bool) -> (r: (Word, bool))
    ensures
        r.0.0 == this.0 | other.0,
        !r.1,
{
    (Word(this.0 | other.0), false)
}

pub fn xor_byte(this: Byte, other: Byte, _carry: bool) -> (r: (Byte, bool))
    ensures
        r.0.0 == this.0 ^ other.0,
        !r.1,
{
    (Byte(this.0 ^ other.0), false)
}

pub fn xor_word(this: Word, other: Word, _carry: bool) -> (r: (Word, bool))
    ensures
        r.0.0 == this.0 ^ other.0,
        !r.1,
{
    (Word(this.0 ^ other.0), false)
}

/// Adds the operands and then the carry, each step modulo 256; the carry out
/// is set when either step wrapped.
pub fn carrying_add_byte(this: Byte, other: Byte, carry: bool) -> (r: (Byte, bool))
    ensures
        r.0.0 == (this.0 + other.0 + if carry { 1int } else { 0 }) % 256,
        r.1 == (this.0 + other.0 + if carry { 1int } else { 0 } > 255),
{
    let c: u16 = if carry { 1 } else { 0 };
    let sum: u16 = this.0 as u16 + other.0 as u16 + c;
    (Byte((sum % 256) as u8), sum > 255)
}

/// Adds the operands and then the carry, each step modulo 65536; the carry
/// out is set when either step wrapped.
pub fn carrying_add_word(this: Word, other: Word, carry: bool) -> (r: (Word, bool))
    ensures
        r.0.0 == (this.0 + other.0 + if carry { 1int } else { 0 }) % 65536,
        r.1 == (this.0 + other.0 + if carry { 1int } else { 0 } > 65535),
{
    let c: u32 = if carry { 1 } else { 0 };
    let sum: u32 = this.0 as u32 + other.0 as u32 + c;
    (Word((sum % 65536) as u16), sum > 65535)
}

pub fn add_byte(this: Byte, other: Byte, _carry: bool) -> (r: (Byte, bool))
    ensures
        r.0.0 == (this.0 + other.0) % 256,
        r.1 == (this.0 + other.0 > 255),
{
    let sum: u16 = this.0 as u16 + other.0 as u16;
    (Byte((sum % 256) as u8), sum > 255)
}

pub fn add_word(this: Word, other: Word, _carry: bool) -> (r: (Word, bool))
    ensures
        r.0.0 == (this.0 + other.0) % 65536,
        r.1 == (this.0 + other.0 > 65535),
{
    let sum: u32 = this.0 as u32 + other.0 as u32;
    (Word((sum % 65536) as u16), sum > 65535)
}

/// Subtracts the operand and then the carry, each step modulo 256; the carry
/// out is set when either step borrowed.
pub fn carrying_sub_byte(this: Byte, other: Byte, carry: bool) -> (r: (Byte, bool))
    ensures
        r.0.0 == (this.0 - other.0 - if carry { 1int } else { 0 }) % 256,
        r.1 == (this.0 - other.0 - if carry { 1int } else { 0 } < 0),
{
    let c: u16 = if carry { 1 } else { 0 };
    let take: u16 = other.0 as u16 + c;
    let diff: u16 = 512 + this.0 as u16 - take;
    (Byte((diff % 256) as u8), (this.0 as u16) < take)
}

/// Subtracts the operand and then the carry, each step modulo 65536; the
/// carry out is set when either step borrowed.
pub fn carrying_sub_word(this: Word, other: Word, carry: bool) -> (r: (Word, bool))
    ensures
        r.0.0 == (this.0 - other.0 - if carry { 1int } else { 0 }) % 65536,
        r.1 == (this.0 - other.0 - if carry { 1int } else { 0 } < 0),
{
    let c: u32 = if carry { 1 } else { 0 };
    let take: u32 = other.0 as u32 + c;
    let diff: u32 = 131072 + this.0 as u32 - take;
    (Word((diff % 65536) as u16), (this.0 as u32) < take)
}

pub fn sub_byte(this: Byte, other: Byte, _carry: bool) -> (r: (Byte, bool))
    ensures
        r.0.0 == (this.0 - other.0) % 256,
        r.1 == (this.0 < other.0),
{
    let diff: u16 = 256 + this.0 as u16 - other.0 as u16;
    (Byte((diff % 256) as u8), this.0 < other.0)
}

pub fn sub_word(this: Word, other: Word, _carry: bool) -> (r: (Word, bool))
    ensures
        r.0.0 == (this.0 - other.0) % 65536,
        r.1 == (this.0 < other.0),
{
    let diff: u32 = 65536 + this.0 as u32 - other.0 as u32;
    (Word((diff % 65536) as u16), this.0 < other.0)
}

pub fn mul_byte(this: Byte, other: Byte, _carry: bool) -> (r: (Byte, bool))
    ensures
        r.0.0 == (this.0 * other.0) % 256,
        r.1 == (this.0 * other.0 > 255),
{
    assert(0 <= this.0 * other.0 <= 255 * 255) by (nonlinear_arith)
        requires
            0 <= this.0 <= 255,
            0 <= other.0 <= 255,
    ;
    let product: u32 = this.0 as u32 * other.0 as u32;
    (Byte((product % 256) as u8), product > 255)
}

pub fn mul_word(this: Word, other: Word, _carry: bool) -> (r: (Word, bool))
    ensures
        r.0.0 == (this.0 * other.0) % 65536,
        r.1 == (this.0 * other.0 > 65535),
{
    assert(0 <= this.0 * other.0 <= 65535 * 65535) by (nonlinear_arith)
        requires
            0 <= this.0 <= 65535,
            0 <= other.0 <= 65535,
    ;
    let product: u64 = this.0 as u64 * other.0 as u64;
    (Word((product % 65536) as u16), product > 65535)
}

pub fn div_byte(this: Byte, other: Byte, _carry: bool) -> (r: (Byte, bool))
    requires
        other.0 != 0,
    ensures
        r.0.0 == this.0 / other.0,
        !r.1,
{
    (Byte(this.0 / other.0), false)
}

pub fn div_word(this: Word, other: Word, _carry: bool) -> (r: (Word, bool))
    requires
        other.0 != 0,
    ensures
        r.0.0 == this.0 / other.0,
        !r.1,
{
    (Word(this.0 / other.0), false)
}

/// Signed multiplication: the low eight bits of the product of the operands
/// read as two's-complement values, and whether that product left the signed
/// range.
pub fn muls_byte(this: Byte, other: Byte, _carry: bool) -> (r: (Byte, bool))
    ensures
        r.0.0 == (signed_byte(this.0) * signed_byte(other.0)) % 256,
        r.1 == !(-128 <= signed_byte(this.0) * signed_byte(other.0) <= 127),
{
    let a: i32 = if this.0 >= 128 { this.0 as i32 - 256 } else { this.0 as i32 };
    let b: i32 = if other.0 >= 128 { other.0 as i32 - 256 } else { other.0 as i32 };
    assert(-16384 <= a * b <= 16384) by (nonlinear_arith)
        requires
            -128 <= a <= 127,
            -128 <= b <= 127,
    ;
    let product: i32 = a * b;
    let lifted: u32 = (product + 16384) as u32;
    (Byte((lifted % 256) as u8), product < -128 || product > 127)
}

/// Signed multiplication: the low sixteen bits of the product of the operands
/// read as two's-complement values, and whether that product left the signed
/// range.
pub fn muls_word(this: Word, other: Word, _carry: bool) -> (r: (Word, bool))
    ensures
        r.0.0 == (signed_word(this.0) * signed_word(other.0)) % 65536,
        r.1 == !(-32768 <= signed_word(this.0) * signed_word(other.0) <= 32767),
{
    let a: i64 = if this.0 >= 32768 { this.0 as i64 - 65536 } else { this.0 as i64 };
    let b: i64 = if other.0 >= 32768 { other.0 as i64 - 65536 } else { other.0 as i64 };
    assert(-1073741824 <= a * b <= 1073741824) by (nonlinear_arith)
        requires
            -32768 <= a <= 32767,
            -32768 <= b <= 32767,
    ;
    let product: i64 = a * b;
    let lifted: u64 = (product + 1073741824) as u64;
    (Word((lifted % 65536) as u16), product < -32768 || product > 32767)
}

/// Signed division rounding toward zero; the flag is set for the one
/// quotient that leaves the signed range, -128 / -1.
pub fn divs_byte(this: Byte, other: Byte, _carry: bool) -> (r: (Byte, bool))
    requires
        other.0 != 0,
    ensures
        r.0.0 == trunc_div(signed_byte(this.0), signed_byte(other.0)) % 256,
        r.1 == (trunc_div(signed_byte(this.0), signed_byte(other.0)) > 127),
{
    let neg_a: bool = this.0 >= 128;
    let neg_b: bool = other.0 >= 128;
    let abs_a: u16 = if neg_a { 256 - this.0 as u16 } else { this.0 as u16 };
    let abs_b: u16 = if neg_b { 256 - other.0 as u16 } else { other.0 as u16 };
    let q: u16 = abs_a / abs_b;
    assert(q <= abs_a) by (nonlinear_arith)
        requires
            q == abs_a / abs_b,
            abs_b >= 1,
            abs_a >= 0,
    ;
    if neg_a != neg_b {
        (Byte(((256 - q) % 256) as u8), false)
    } else {
        (Byte((q % 256) as u8), q > 127)
    }
}

/// Signed division rounding toward zero; the flag is set for the one
/// quotient that leaves the signed range, -32768 / -1.
pub fn divs_word(this: Word, other: Word, _carry: bool) -> (r: (Word, bool))
    requires
        other.0 != 0,
    ensures
        r.0.0 == trunc_div(signed_word(this.0), signed_word(other.0)) % 65536,
        r.1 == (trunc_div(signed_word(this.0), signed_word(other.0)) > 32767),
{
    let neg_a: bool = this.0 >= 32768;
    let neg_b: bool = other.0 >= 32768;
    let abs_a: u32 = if neg_a { 65536 - this.0 as u32 } else { this.0 as u32 };
    let abs_b: u32 = if neg_b { 65536 - other.0 as u32 } else { other.0 as u32 };
    let q: u32 = abs_a / abs_b;
    assert(q <= abs_a) by (nonlinear_arith)
        requires
            q == abs_a / abs_b,
            abs_b >= 1,
            abs_a >= 0,
    ;
    if neg_a != neg_b {
        (Word(((65536 - q) % 65536) as u16), false)
    } else {
        (Word((q % 65536) as u16), q > 32767)
    }
}

} // verus!
