//! The instructions that move and change data: copies, arithmetic and
//! logic on two operands, operations on one operand, and comparisons.
//! Each reads its operands in the order of the instruction, runs the
//! pre-adjustments, accesses, sets the flags, and runs the post-adjustments,
//! and its cost is the sum of the costs of those steps.

use vstd::prelude::*;
use crate::constants::registers::flags::CARRY;
use crate::error::VmError;
use crate::model::Machine;
use crate::ops::alu::{calculate, calculate_one, compute, compute_one, BinaryOp, Outcome, UnaryOp};
use crate::ops::operand::{ArgKind, Operand, Pair, Single, Width};
use crate::vm::VM;

verus! {

impl Machine {
    /// The machine after a plain value of a width was produced.
    pub open spec fn set_flags(self, width: Width, value: u16) -> Machine {
        match width {
            Width::Byte => self.set_flags_byte(value as u8),
            Width::Word => self.set_flags_word(value),
        }
    }

    /// The machine after arithmetic gave a value of a width.
    pub open spec fn set_math_flags(self, width: Width, value: u16, carry: bool, overflow: bool) -> Machine {
        match width {
            Width::Byte => self.set_math_flags_byte(value as u8, carry, overflow),
            Width::Word => self.set_math_flags_word(value, carry, overflow),
        }
    }

    /// The machine after two values of a width were compared.
    pub open spec fn set_order_flags(self, width: Width, lhs: u16, rhs: u16, signed: bool) -> Machine {
        match width {
            Width::Byte => self.set_order_flags_byte(lhs as u8, rhs as u8, signed),
            Width::Word => self.set_order_flags_word(lhs, rhs, signed),
        }
    }

    /// The post-adjustments that end an instruction on two operands: the
    /// source first, then the destination. `cost` is what the instruction
    /// used before them.
    #[verifier::opaque]
    pub open spec fn finish_two(self, pair: Pair, width: Width, cost: int) -> (Machine, Result<usize, VmError>) {
        let (m1, c1) = self.finish(pair.src, width);
        let (m2, c2) = m1.finish(pair.dst, width);
        (m2, Ok((cost + c1 + c2) as usize))
    }

    /// CPY: the value of the source is written to the destination. The flags
    /// follow the value where the destination is a register addressed
    /// directly; a copy into memory leaves them as they are.
    #[verifier::opaque]
    pub open spec fn copy(self, width: Width, dst_kind: ArgKind, src_kind: ArgKind) -> (Machine, Result<usize, VmError>) {
        let (m1, setup) = self.setup_two(dst_kind, src_kind, width);
        match setup {
            Err(e) => (m1, Err(e)),
            Ok(pair) => match m1.load(pair.src, width, pair.src_offset) {
                Err(e) => (m1, Err(e)),
                Ok(read) => {
                    let (m2, written) = m1.save(pair.dst, width, pair.dst_offset, read.0);
                    match written {
                        Err(e) => (m2, Err(e)),
                        Ok(write_cost) => {
                            let m3 = if pair.dst.is_direct_register() {
                                m2.set_flags(width, read.0)
                            } else {
                                m2
                            };
                            m3.finish_two(pair, width, pair.cost + read.1 + write_cost)
                        },
                    }
                },
            },
        }
    }

    /// Arithmetic and logic on two operands: destination and source are
    /// read, the operation is applied with the carry flag as it stands, the
    /// result is written to the destination, and the flags are set from the
    /// result, its carry and its overflow.
    #[verifier::opaque]
    pub open spec fn binary(self, op: BinaryOp, width: Width, dst_kind: ArgKind, src_kind: ArgKind) -> (Machine, Result<usize, VmError>) {
        let (m1, setup) = self.setup_two(dst_kind, src_kind, width);
        match setup {
            Err(e) => (m1, Err(e)),
            Ok(pair) => match m1.load(pair.dst, width, pair.dst_offset) {
                Err(e) => (m1, Err(e)),
                Ok(lhs) => match m1.load(pair.src, width, pair.src_offset) {
                    Err(e) => (m1, Err(e)),
                    Ok(rhs) => match compute(op, width, lhs.0, rhs.0, m1.check_flag(CARRY)) {
                        Err(e) => (m1, Err(e)),
                        Ok(out) => {
                            let (m2, written) = m1.save(pair.dst, width, pair.dst_offset, out.value);
                            match written {
                                Err(e) => (m2, Err(e)),
                                Ok(write_cost) => m2.set_math_flags(
                                    width,
                                    out.value,
                                    out.carry,
                                    out.overflow,
                                ).finish_two(pair, width, pair.cost + lhs.1 + rhs.1 + write_cost),
                            }
                        },
                    },
                },
            },
        }
    }

    /// INC, DEC and NOT: the operand is read, changed and written back. NOT
    /// sets the flags from its result; INC and DEC leave the flags as they
    /// are.
    #[verifier::opaque]
    pub open spec fn unary(self, op: UnaryOp, width: Width, kind: ArgKind) -> (Machine, Result<usize, VmError>) {
        let (m1, setup) = self.setup_one(kind, width);
        match setup {
            Err(e) => (m1, Err(e)),
            Ok(single) => match m1.load(single.dst, width, single.dst_offset) {
                Err(e) => (m1, Err(e)),
                Ok(read) => {
                    let value = compute_one(op, width, read.0);
                    let (m2, written) = m1.save(single.dst, width, single.dst_offset, value);
                    match written {
                        Err(e) => (m2, Err(e)),
                        Ok(write_cost) => {
                            let m3 = if op == UnaryOp::Not {
                                m2.set_flags(width, value)
                            } else {
                                m2
                            };
                            let (m4, post) = m3.finish(single.dst, width);
                            (m4, Ok((single.cost + read.1 + write_cost + post) as usize))
                        },
                    }
                },
            },
        }
    }

    /// CMP and CMPS: both operands are read, the flags are set from their
    /// order, and nothing is written.
    #[verifier::opaque]
    pub open spec fn compare(self, signed: bool, width: Width, rhs_kind: ArgKind) -> (Machine, Result<usize, VmError>) {
        let (m1, setup) = self.setup_two(ArgKind::Reg, rhs_kind, width);
        match setup {
            Err(e) => (m1, Err(e)),
            Ok(pair) => match m1.load(pair.dst, width, pair.dst_offset) {
                Err(e) => (m1, Err(e)),
                Ok(lhs) => match m1.load(pair.src, width, pair.src_offset) {
                    Err(e) => (m1, Err(e)),
                    Ok(rhs) => m1.set_order_flags(width, lhs.0, rhs.0, signed).finish_two(
                        pair,
                        width,
                        pair.cost + lhs.1 + rhs.1,
                    ),
                },
            },
        }
    }
}

impl VM {
    /// Sets the flags for a value of a width that was produced.
    pub fn set_flags(&mut self, width: Width, value: u16)
        requires
            width.fits(value),
        ensures
            final(self)@ == old(self)@.set_flags(width, value),
    {
        match width {
            Width::Byte => self.set_flags_byte(value as u8),
            Width::Word => self.set_flags_word(value),
        }
    }

    /// Sets the flags for the result of arithmetic of a width.
    pub fn set_math_flags(&mut self, width: Width, value: u16, carry: bool, overflow: bool)
        requires
            width.fits(value),
        ensures
            final(self)@ == old(self)@.set_math_flags(width, value, carry, overflow),
    {
        match width {
            Width::Byte => self.set_math_flags_byte(value as u8, carry, overflow),
            Width::Word => self.set_math_flags_word(value, carry, overflow),
        }
    }

    /// Sets the flags for the order of two values of a width.
    pub fn set_order_flags(&mut self, width: Width, lhs: u16, rhs: u16, signed: bool)
        requires
            width.fits(lhs),
            width.fits(rhs),
        ensures
            final(self)@ == old(self)@.set_order_flags(width, lhs, rhs, signed),
    {
        match width {
            Width::Byte => {
                let l: u8 = Self::low(lhs);
                let r: u8 = Self::low(rhs);
                self.set_cmp_flags_byte(l, r, signed)
            },
            Width::Word => self.set_cmp_flags_word(lhs, rhs, signed),
        }
    }

    /// A value that fits a byte, as a byte.
    pub(crate) fn low(value: u16) -> (r: u8)
        requires
            value < 256,
        ensures
            r == value,
    {
        value as u8
    }

    /// Runs the post-adjustments that end an instruction on two operands.
    pub(crate) fn finish_two(&mut self, pair: &Pair, width: Width, cost: usize) -> (r: Result<usize, VmError>)
        requires
            pair.dst.wf(),
            pair.src.wf(),
            cost <= 1000,
        ensures
            final(self)@ == old(self)@.finish_two(*pair, width, cost as int).0,
            r == old(self)@.finish_two(*pair, width, cost as int).1,
            r matches Ok(c) && c <= cost + 4,
    {
        proof {
            reveal(Machine::finish_two);
        }
        let c1: usize = self.finish(&pair.src, width);
        let c2: usize = self.finish(&pair.dst, width);
        Ok(cost + c1 + c2)
    }

    /// Executes a CPY of the given width and operand forms. Returns the
    /// cycles used.
    pub fn copy(&mut self, width: Width, dst_kind: ArgKind, src_kind: ArgKind) -> (r: Result<
        usize,
        VmError,
    >)
        ensures
            final(self)@ == old(self)@.copy(width, dst_kind, src_kind).0,
            r == old(self)@.copy(width, dst_kind, src_kind).1,
            r matches Ok(cost) ==> cost <= 100,
    {
        proof {
            reveal(Machine::copy);
        }
        let pair: Pair = self.setup_two(dst_kind, src_kind, width)?;
        let read: (u16, usize) = self.load(&pair.src, width, pair.src_offset)?;
        let write_cost: usize = self.save(&pair.dst, width, pair.dst_offset, read.0)?;
        let direct: bool = match pair.dst {
            Operand::Reg(reg) => !reg.is_indirect,
            _ => false,
        };
        if direct {
            self.set_flags(width, read.0);
        }
        self.finish_two(&pair, width, pair.cost + read.1 + write_cost)
    }

    /// Executes an arithmetic or logic instruction on two operands. Returns
    /// the cycles used.
    pub fn binary(&mut self, op: BinaryOp, width: Width, dst_kind: ArgKind, src_kind: ArgKind) -> (r:
        Result<usize, VmError>)
        ensures
            final(self)@ == old(self)@.binary(op, width, dst_kind, src_kind).0,
            r == old(self)@.binary(op, width, dst_kind, src_kind).1,
            r matches Ok(cost) ==> cost <= 100,
    {
        proof {
            reveal(Machine::binary);
        }
        let pair: Pair = self.setup_two(dst_kind, src_kind, width)?;
        let lhs: (u16, usize) = self.load(&pair.dst, width, pair.dst_offset)?;
        let rhs: (u16, usize) = self.load(&pair.src, width, pair.src_offset)?;
        let carry_in: bool = self.check_flag(CARRY);
        let out: Outcome = calculate(op, width, lhs.0, rhs.0, carry_in)?;
        let write_cost: usize = self.save(&pair.dst, width, pair.dst_offset, out.value)?;
        self.set_math_flags(width, out.value, out.carry, out.overflow);
        self.finish_two(&pair, width, pair.cost + lhs.1 + rhs.1 + write_cost)
    }

    /// Executes an INC, DEC or NOT. Returns the cycles used.
    pub fn unary(&mut self, op: UnaryOp, width: Width, kind: ArgKind) -> (r: Result<usize, VmError>)
        ensures
            final(self)@ == old(self)@.unary(op, width, kind).0,
            r == old(self)@.unary(op, width, kind).1,
            r matches Ok(cost) ==> cost <= 100,
    {
        proof {
            reveal(Machine::unary);
        }
        let single: Single = self.setup_one(kind, width)?;
        let read: (u16, usize) = self.load(&single.dst, width, single.dst_offset)?;
        let value: u16 = calculate_one(op, width, read.0);
        let write_cost: usize = self.save(&single.dst, width, single.dst_offset, value)?;
        match op {
            UnaryOp::Not => self.set_flags(width, value),
            _ => {},
        }
        let post: usize = self.finish(&single.dst, width);
        Ok(single.cost + read.1 + write_cost + post)
    }

    /// Executes a CMP, or a CMPS where `signed`. Returns the cycles used.
    pub fn compare(&mut self, signed: bool, width: Width, rhs_kind: ArgKind) -> (r: Result<
        usize,
        VmError,
    >)
        ensures
            final(self)@ == old(self)@.compare(signed, width, rhs_kind).0,
            r == old(self)@.compare(signed, width, rhs_kind).1,
            r matches Ok(cost) ==> cost <= 100,
    {
        proof {
            reveal(Machine::compare);
        }
        let pair: Pair = self.setup_two(ArgKind::Reg, rhs_kind, width)?;
        let lhs: (u16, usize) = self.load(&pair.dst, width, pair.dst_offset)?;
        let rhs: (u16, usize) = self.load(&pair.src, width, pair.src_offset)?;
        self.set_order_flags(width, lhs.0, rhs.0, signed);
        self.finish_two(&pair, width, pair.cost + lhs.1 + rhs.1)
    }
}

} // verus!
