//! The arithmetic and logic unit: what each operation makes of its
//! operands, with the carry and overflow that it produces.

use vstd::prelude::*;
use crate::error::VmError;
use crate::ops::operand::Width;
use crate::types::math::{
    add_byte, add_word, and_byte, and_word, carrying_add_byte, carrying_add_word,
    carrying_sub_byte, carrying_sub_word, div_byte, div_word, divs_byte, divs_word, mul_byte,
    mul_word, muls_byte, muls_word, or_byte, or_word, sub_byte, sub_word, trunc_div, xor_byte,
    xor_word,
};
use crate::types::{Byte, Word};

verus! {

/// The operations on two operands.
#[derive(Copy, Clone, Debug, Eq, PartialEq, Structural)]
pub enum BinaryOp {
    Add,
    Sub,
    Mul,
    Div,
    /// Addition that takes the carry flag in.
    Addc,
    /// Subtraction that takes the carry flag in.
    Subc,
    /// Signed multiplication.
    Muls,
    /// Signed division.
    Divs,
    And,
    Or,
    Xor,
}

/// The operations on one operand.
#[derive(Copy, Clone, Debug, Eq, PartialEq, Structural)]
pub enum UnaryOp {
    Inc,
    Dec,
    Not,
}

/// What an operation produced.
#[derive(Copy, Clone, Debug, Eq, PartialEq, Structural)]
pub struct Outcome {
    pub value: u16,
    pub carry: bool,
    pub overflow: bool,
}

/// A value of a width read as a two's-complement number.
pub open spec fn signed_of(width: Width, value: u16) -> int {
    if width.top(value) {
        value - width.modulus()
    } else {
        value as int
    }
}

/// The result of an operation, before it is reduced to the width.
pub open spec fn exact(op: BinaryOp, width: Width, a: u16, b: u16, carry_in: bool) -> int {
    let c: int = if carry_in {
        1
    } else {
        0
    };
    match op {
        BinaryOp::Add => a + b,
        BinaryOp::Addc => a + b + c,
        BinaryOp::Sub => a - b,
        BinaryOp::Subc => a - b - c,
        BinaryOp::Mul => a * b,
        BinaryOp::Div => (a / b) as int,
        BinaryOp::Muls => signed_of(width, a) * signed_of(width, b),
        BinaryOp::Divs => trunc_div(signed_of(width, a), signed_of(width, b)),
        BinaryOp::And => match width {
            Width::Byte => ((a as u8) & (b as u8)) as int,
            Width::Word => (a & b) as int,
        },
        BinaryOp::Or => match width {
            Width::Byte => ((a as u8) | (b as u8)) as int,
            Width::Word => (a | b) as int,
        },
        BinaryOp::Xor => match width {
            Width::Byte => ((a as u8) ^ (b as u8)) as int,
            Width::Word => (a ^ b) as int,
        },
    }
}

/// Whether the exact result is carried out of the width: an unsigned result
/// that does not fit, or a signed product or quotient that leaves the signed
/// range.
pub open spec fn carries(op: BinaryOp, width: Width, exact: int) -> bool {
    match op {
        BinaryOp::Muls | BinaryOp::Divs => !(-(width.modulus() / 2) <= exact < width.modulus() / 2),
        _ => !(0 <= exact < width.modulus()),
    }
}

/// The overflow flag. For addition: the operands have the same sign and the
/// result another. For subtraction: the operands differ in sign and the
/// result differs from the minuend. For multiplication and division: the
/// result differs in sign from the left operand. Never for a logic
/// operation.
pub open spec fn overflows(op: BinaryOp, width: Width, a: u16, b: u16, result: u16) -> bool {
    match op {
        BinaryOp::Add | BinaryOp::Addc => width.top(a) == width.top(b) && width.top(result)
            != width.top(a),
        BinaryOp::Sub | BinaryOp::Subc => width.top(a) != width.top(b) && width.top(result)
            != width.top(a),
        BinaryOp::And | BinaryOp::Or | BinaryOp::Xor => false,
        _ => width.top(result) != width.top(a),
    }
}

/// What an operation makes of two operands of a width: the exact result
/// modulo the width, its carry and its overflow. Dividing by zero is an
/// error.
pub open spec fn compute(op: BinaryOp, width: Width, a: u16, b: u16, carry_in: bool) -> Result<
    Outcome,
    VmError,
> {
    if (op == BinaryOp::Div || op == BinaryOp::Divs) && b == 0 {
        Err(VmError::DivisionByZero)
    } else {
        let full = exact(op, width, a, b, carry_in);
        let value = (full % width.modulus()) as u16;
        Ok(Outcome { value, carry: carries(op, width, full), overflow: overflows(op, width, a, b, value) })
    }
}

/// What an operation makes of one operand of a width.
pub open spec fn compute_one(op: UnaryOp, width: Width, a: u16) -> u16 {
    match op {
        UnaryOp::Inc => ((a + 1) % width.modulus()) as u16,
        UnaryOp::Dec => ((a - 1) % width.modulus()) as u16,
        UnaryOp::Not => match width {
            Width::Byte => (!(a as u8)) as u16,
            Width::Word => !a,
        },
    }
}

/// Whether the sign bit of a value of a width is set.
pub fn is_top(width: Width, value: u16) -> (r: bool)
    ensures
        r == width.top(value),
{
    match width {
        Width::Byte => value >= 128,
        Width::Word => value >= 32768,
    }
}

/// The overflow flag of an operation.
pub fn has_overflowed(op: BinaryOp, width: Width, a: u16, b: u16, result: u16) -> (r: bool)
    ensures
        r == overflows(op, width, a, b, result),
{
    match op {
        BinaryOp::Add | BinaryOp::Addc => is_top(width, a) == is_top(width, b) && is_top(
            width,
            result,
        ) != is_top(width, a),
        BinaryOp::Sub | BinaryOp::Subc => is_top(width, a) != is_top(width, b) && is_top(
            width,
            result,
        ) != is_top(width, a),
        BinaryOp::And | BinaryOp::Or | BinaryOp::Xor => false,
        _ => is_top(width, result) != is_top(width, a),
    }
}

/// Applies an operation to two bytes.
fn apply_byte(op: BinaryOp, a: u8, b: u8, carry_in: bool) -> (r: (Byte, bool))
    requires
        (op == BinaryOp::Div || op == BinaryOp::Divs) ==> b != 0,
    ensures
        r.0.0 == exact(op, Width::Byte, a as u16, b as u16, carry_in) % 256,
        r.1 == carries(op, Width::Byte, exact(op, Width::Byte, a as u16, b as u16, carry_in)),
{
    let x: Byte = Byte(a);
    let y: Byte = Byte(b);
    proof {
        if op == BinaryOp::Div {
            assert(0 <= (a as u16) / (b as u16) <= a) by (nonlinear_arith)
                requires
                    b > 0,
            ;
        }
        if op == BinaryOp::Mul {
            assert(0 <= a * b) by (nonlinear_arith);
        }
    }
    match op {
        BinaryOp::Add => add_byte(x, y, carry_in),
        BinaryOp::Addc => carrying_add_byte(x, y, carry_in),
        BinaryOp::Sub => sub_byte(x, y, carry_in),
        BinaryOp::Subc => carrying_sub_byte(x, y, carry_in),
        BinaryOp::Mul => mul_byte(x, y, carry_in),
        BinaryOp::Div => div_byte(x, y, carry_in),
        BinaryOp::Muls => muls_byte(x, y, carry_in),
        BinaryOp::Divs => divs_byte(x, y, carry_in),
        BinaryOp::And => and_byte(x, y, carry_in),
        BinaryOp::Or => or_byte(x, y, carry_in),
        BinaryOp::Xor => xor_byte(x, y, carry_in),
    }
}

/// Applies an operation to two words.
fn apply_word(op: BinaryOp, a: u16, b: u16, carry_in: bool) -> (r: (Word, bool))
    requires
        (op == BinaryOp::Div || op == BinaryOp::Divs) ==> b != 0,
    ensures
        r.0.0 == exact(op, Width::Word, a, b, carry_in) % 65536,
        r.1 == carries(op, Width::Word, exact(op, Width::Word, a, b, carry_in)),
{
    let x: Word = Word(a);
    let y: Word = Word(b);
    proof {
        if op == BinaryOp::Div {
            assert(0 <= a / b <= a) by (nonlinear_arith)
                requires
                    b > 0,
            ;
        }
        if op == BinaryOp::Mul {
            assert(0 <= a * b) by (nonlinear_arith);
        }
    }
    match op {
        BinaryOp::Add => add_word(x, y, carry_in),
        BinaryOp::Addc => carrying_add_word(x, y, carry_in),
        BinaryOp::Sub => sub_word(x, y, carry_in),
        BinaryOp::Subc => carrying_sub_word(x, y, carry_in),
        BinaryOp::Mul => mul_word(x, y, carry_in),
        BinaryOp::Div => div_word(x, y, carry_in),
        BinaryOp::Muls => muls_word(x, y, carry_in),
        BinaryOp::Divs => divs_word(x, y, carry_in),
        BinaryOp::And => and_word(x, y, carry_in),
        BinaryOp::Or => or_word(x, y, carry_in),
        BinaryOp::Xor => xor_word(x, y, carry_in),
    }
}

/// Applies an operation to two operands of a width.
pub fn calculate(op: BinaryOp, width: Width, a: u16, b: u16, carry_in: bool) -> (r: Result<
    Outcome,
    VmError,
>)
    requires
        width.fits(a),
        width.fits(b),
    ensures
        r == compute(op, width, a, b, carry_in),
        r matches Ok(out) ==> width.fits(out.value),
{
    if (op == BinaryOp::Div || op == BinaryOp::Divs) && b == 0 {
        return Err(VmError::DivisionByZero);
    }
    let (value, carry): (u16, bool) = match width {
        Width::Byte => {
            let r: (Byte, bool) = apply_byte(op, a as u8, b as u8, carry_in);
            (r.0.0 as u16, r.1)
        },
        Width::Word => {
            let r: (Word, bool) = apply_word(op, a, b, carry_in);
            (r.0.0, r.1)
        },
    };
    Ok(Outcome { value, carry, overflow: has_overflowed(op, width, a, b, value) })
}

/// Applies an operation to one operand of a width.
pub fn calculate_one(op: UnaryOp, width: Width, a: u16) -> (r: u16)
    requires
        width.fits(a),
    ensures
        r == compute_one(op, width, a),
        width.fits(r),
{
    match width {
        Width::Byte => match op {
            UnaryOp::Inc => Byte(a as u8).wrapping_add(Byte(1)).0 as u16,
            UnaryOp::Dec => Byte(a as u8).wrapping_sub(Byte(1)).0 as u16,
            UnaryOp::Not => Byte(a as u8).not().0 as u16,
        },
        Width::Word => match op {
            UnaryOp::Inc => Word(a).wrapping_add(Word(1)).0,
            UnaryOp::Dec => Word(a).wrapping_sub(Word(1)).0,
            UnaryOp::Not => Word(a).not().0,
        },
    }
}

} // verus!
