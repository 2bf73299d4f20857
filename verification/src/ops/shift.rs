//! Shifts and rotates. Each moves the bits of its operand by one place, as
//! many times as the amount says.

use vstd::prelude::*;
use crate::constants::registers::flags::CARRY;
use crate::error::VmError;
use crate::model::Machine;
use crate::ops::operand::{ArgKind, Operand, Width};
use crate::vm::VM;

verus! {

/// The shifts and rotates.
#[derive(Copy, Clone, Debug, Eq, PartialEq, Structural)]
pub enum ShiftOp {
    /// Shift left: a zero comes in at the right.
    Asl,
    /// Arithmetic shift right: the sign bit stays.
    Asr,
    /// Logical shift right: a zero comes in at the left.
    Lsr,
    /// Rotate left: the bit that leaves at the left comes in at the right.
    Rol,
    /// Rotate right: the bit that leaves at the right comes in at the left.
    Ror,
    /// Rotate left through carry: the carry comes in at the right, and the
    /// bit that leaves at the left becomes the carry.
    Rcl,
    /// Rotate right through carry: the carry comes in at the left, and the
    /// bit that leaves at the right becomes the carry.
    Rcr,
}

/// Where a shift takes its operand and its amount from.
#[derive(Copy, Clone, Debug, Eq, PartialEq, Structural)]
pub enum ShiftForm {
    /// A register operand, and an immediate amount of the width of the
    /// operation.
    RegNum,
    /// A register operand, and the amount in a second register operand.
    RegReg,
    /// An address, shifted by one place.
    Addr,
}

impl ShiftOp {
    /// Whether the operation rotates through the carry flag.
    pub open spec fn through_carry(self) -> bool {
        self == ShiftOp::Rcl || self == ShiftOp::Rcr
    }

    /// Whether the operation rotates through the carry flag.
    pub fn uses_carry(self) -> (r: bool)
        ensures
            r == self.through_carry(),
    {
        match self {
            ShiftOp::Rcl | ShiftOp::Rcr => true,
            _ => false,
        }
    }
}

/// A value and the carry after one place of a shift.
pub open spec fn shift_once(op: ShiftOp, width: Width, value: u16, carry: bool) -> (u16, bool) {
    let m = width.modulus();
    let half = m / 2;
    let top = width.top(value);
    let low = value % 2 == 1;
    match op {
        ShiftOp::Asl => (((value * 2) % m) as u16, carry),
        ShiftOp::Lsr => ((value / 2) as u16, carry),
        ShiftOp::Asr => ((value / 2 + if top { half } else { 0 }) as u16, carry),
        ShiftOp::Rol => (((value * 2) % m + if top { 1int } else { 0 }) as u16, carry),
        ShiftOp::Ror => ((value / 2 + if low { half } else { 0 }) as u16, carry),
        ShiftOp::Rcl => (((value * 2) % m + if carry { 1int } else { 0 }) as u16, top),
        ShiftOp::Rcr => ((value / 2 + if carry { half } else { 0 }) as u16, low),
    }
}

/// A value and the carry after `amount` places of a shift.
pub open spec fn shift_by(op: ShiftOp, width: Width, value: u16, carry: bool, amount: nat) -> (u16, bool)
    decreases amount,
{
    if amount == 0 {
        (value, carry)
    } else {
        let once = shift_once(op, width, value, carry);
        shift_by(op, width, once.0, once.1, (amount - 1) as nat)
    }
}

/// The cycles that a rotate through carry takes on top of its accesses: two
/// for each place on a register operand, three on an address.
pub open spec fn surcharge(op: ShiftOp, dst: Operand, amount: u16) -> usize {
    if op.through_carry() {
        match dst {
            Operand::Addr(_) => 3usize,
            _ => (amount * 2) as usize,
        }
    } else {
        0usize
    }
}

/// Moves a value by one place.
pub fn step_once(op: ShiftOp, width: Width, value: u16, carry: bool) -> (r: (u16, bool))
    requires
        width.fits(value),
    ensures
        r == shift_once(op, width, value, carry),
        width.fits(r.0),
{
    let m: u32 = match width {
        Width::Byte => 256,
        Width::Word => 65536,
    };
    let half: u32 = m / 2;
    let v: u32 = value as u32;
    let top: bool = v >= half;
    let low: bool = v % 2 == 1;
    match op {
        ShiftOp::Asl => (((v * 2) % m) as u16, carry),
        ShiftOp::Lsr => ((v / 2) as u16, carry),
        ShiftOp::Asr => ((v / 2 + if top { half } else { 0 }) as u16, carry),
        ShiftOp::Rol => (((v * 2) % m + if top { 1 } else { 0 }) as u16, carry),
        ShiftOp::Ror => ((v / 2 + if low { half } else { 0 }) as u16, carry),
        ShiftOp::Rcl => (((v * 2) % m + if carry { 1 } else { 0 }) as u16, top),
        ShiftOp::Rcr => ((v / 2 + if carry { half } else { 0 }) as u16, low),
    }
}

/// Moves a value by `amount` places.
pub fn step_by(op: ShiftOp, width: Width, value: u16, carry: bool, amount: u16) -> (r: (u16, bool))
    requires
        width.fits(value),
    ensures
        r == shift_by(op, width, value, carry, amount as nat),
        width.fits(r.0),
{
    let mut v: u16 = value;
    let mut c: bool = carry;
    let mut i: u16 = 0;
    while i < amount
        invariant
            i <= amount,
            width.fits(v),
            shift_by(op, width, value, carry, amount as nat) == shift_by(
                op,
                width,
                v,
                c,
                (amount - i) as nat,
            ),
        decreases amount - i,
    {
        let next: (u16, bool) = step_once(op, width, v, c);
        v = next.0;
        c = next.1;
        i = i + 1;
    }
    (v, c)
}

impl Machine {
    /// The shift of one operand by an amount: the operand is read, moved
    /// and written back; the flags follow the result, and a rotate through
    /// carry leaves the last bit that it moved out in the carry flag.
    #[verifier::opaque]
    pub open spec fn shift_through(self, op: ShiftOp, width: Width, dst: Operand, amount: u16) -> (Machine, Result<usize, VmError>) {
        let (m1, prepared) = self.prepare(dst, width);
        match prepared {
            Err(e) => (m1, Err(e)),
            Ok(p) => match m1.load(dst, width, p.0) {
                Err(e) => (m1, Err(e)),
                Ok(read) => {
                    let moved = shift_by(op, width, read.0, m1.check_flag(CARRY), amount as nat);
                    let (m2, written) = m1.save(dst, width, p.0, moved.0);
                    match written {
                        Err(e) => (m2, Err(e)),
                        Ok(write_cost) => {
                            let m3 = m2.set_flags(width, moved.0);
                            let m4 = if op.through_carry() {
                                m3.update_flag(CARRY, moved.1)
                            } else {
                                m3
                            };
                            let (m5, post) = m4.finish(dst, width);
                            (
                                m5,
                                Ok(
                                    (p.1 + read.1 + write_cost + post + surcharge(
                                        op,
                                        dst,
                                        amount,
                                    )) as usize,
                                ),
                            )
                        },
                    }
                },
            },
        }
    }

    /// A shift or rotate in one of its three forms. Where the amount comes
    /// from a register, that operand is prepared and read before the shifted
    /// operand is touched, and finished after it.
    #[verifier::opaque]
    pub open spec fn shift(self, op: ShiftOp, width: Width, form: ShiftForm) -> (Machine, Result<usize, VmError>) {
        match form {
            ShiftForm::Addr => {
                let (m1, addr) = self.read_arg_word();
                m1.shift_through(op, width, Operand::Addr(addr), 1)
            },
            ShiftForm::RegNum => {
                let (m1, fetched) = self.fetch(ArgKind::Reg, width);
                match fetched {
                    Err(e) => (m1, Err(e)),
                    Ok(dst) => {
                        let (m2, amount) = match width {
                            Width::Byte => {
                                let (after, byte) = m1.read_arg_byte();
                                (after, byte as u16)
                            },
                            Width::Word => m1.read_arg_word(),
                        };
                        m2.shift_through(op, width, dst, amount)
                    },
                }
            },
            ShiftForm::RegReg => {
                let (m1, fetched_dst) = self.fetch(ArgKind::Reg, width);
                match fetched_dst {
                    Err(e) => (m1, Err(e)),
                    Ok(dst) => {
                        let (m2, fetched_src) = m1.fetch(ArgKind::Reg, width);
                        match fetched_src {
                            Err(e) => (m2, Err(e)),
                            Ok(src) => {
                                let (m3, prepared) = m2.prepare(src, width);
                                match prepared {
                                    Err(e) => (m3, Err(e)),
                                    Ok(p) => match m3.load(src, width, p.0) {
                                        Err(e) => (m3, Err(e)),
                                        Ok(amount) => {
                                            let (m4, shifted) = m3.shift_through(
                                                op,
                                                width,
                                                dst,
                                                amount.0,
                                            );
                                            match shifted {
                                                Err(e) => (m4, Err(e)),
                                                Ok(cost) => {
                                                    let (m5, post) = m4.finish(src, width);
                                                    (
                                                        m5,
                                                        Ok(
                                                            (p.1 + amount.1 + cost
                                                                + post) as usize,
                                                        ),
                                                    )
                                                },
                                            }
                                        },
                                    },
                                }
                            },
                        }
                    },
                }
            },
        }
    }
}

impl VM {
    /// Shifts one operand by an amount. Returns the cycles used.
    pub fn shift_through(&mut self, op: ShiftOp, width: Width, dst: &Operand, amount: u16) -> (r:
        Result<usize, VmError>)
        requires
            dst.wf(),
            dst matches Operand::Num(value) ==> width.fits(*value),
        ensures
            final(self)@ == old(self)@.shift_through(op, width, *dst, amount).0,
            r == old(self)@.shift_through(op, width, *dst, amount).1,
            r matches Ok(cost) ==> cost <= 140000,
    {
        proof {
            reveal(Machine::shift_through);
        }
        let p: (i16, usize) = self.prepare(dst, width)?;
        let read: (u16, usize) = self.load(dst, width, p.0)?;
        let carry_in: bool = self.check_flag(CARRY);
        let moved: (u16, bool) = step_by(op, width, read.0, carry_in, amount);
        let write_cost: usize = self.save(dst, width, p.0, moved.0)?;
        self.set_flags(width, moved.0);
        if op.uses_carry() {
            self.update_flag_conditionally(CARRY, moved.1);
        }
        let post: usize = self.finish(dst, width);
        let extra: usize = if op.uses_carry() {
            match dst {
                Operand::Addr(_) => 3,
                _ => amount as usize * 2,
            }
        } else {
            0
        };
        Ok(p.1 + read.1 + write_cost + post + extra)
    }

    /// Executes a shift or rotate in one of its three forms. Returns the
    /// cycles used.
    pub fn shift(&mut self, op: ShiftOp, width: Width, form: ShiftForm) -> (r: Result<usize, VmError>)
        ensures
            final(self)@ == old(self)@.shift(op, width, form).0,
            r == old(self)@.shift(op, width, form).1,
            r matches Ok(cost) ==> cost <= 150000,
    {
        proof {
            reveal(Machine::shift);
        }
        match form {
            ShiftForm::Addr => {
                let addr: u16 = self.read_arg_word();
                self.shift_through(op, width, &Operand::Addr(addr), 1)
            },
            ShiftForm::RegNum => {
                let dst: Operand = self.fetch(ArgKind::Reg, width)?;
                let amount: u16 = match width {
                    Width::Byte => self.read_arg_byte() as u16,
                    Width::Word => self.read_arg_word(),
                };
                self.shift_through(op, width, &dst, amount)
            },
            ShiftForm::RegReg => {
                let dst: Operand = self.fetch(ArgKind::Reg, width)?;
                let src: Operand = self.fetch(ArgKind::Reg, width)?;
                let p: (i16, usize) = self.prepare(&src, width)?;
                let amount: (u16, usize) = self.load(&src, width, p.0)?;
                let cost: usize = self.shift_through(op, width, &dst, amount.0)?;
                let post: usize = self.finish(&src, width);
                Ok(p.1 + amount.1 + cost + post)
            },
        }
    }
}

} // verus!
