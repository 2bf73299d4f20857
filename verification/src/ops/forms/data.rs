//! The forms of the data instructions: one function for each pairing of
//! operand forms and width, named as the opcodes are.

use vstd::prelude::*;
use crate::error::VmError;
use crate::ops::alu::{BinaryOp, UnaryOp};
use crate::ops::operand::{ArgKind, Width};
use crate::vm::VM;

verus! {

impl VM {
    /// CPY.B into a register operand from an immediate.
    pub fn cpy_reg_num_byte(&mut self) -> (r: Result<usize, VmError>)
        ensures
            final(self)@ == old(self)@.copy(Width::Byte, ArgKind::Reg, ArgKind::Num).0,
            r == old(self)@.copy(Width::Byte, ArgKind::Reg, ArgKind::Num).1,
    {
        self.copy(Width::Byte, ArgKind::Reg, ArgKind::Num)
    }

    /// CPY.B into a register operand from a register operand.
    pub fn cpy_reg_reg_byte(&mut self) -> (r: Result<usize, VmError>)
        ensures
            final(self)@ == old(self)@.copy(Width::Byte, ArgKind::Reg, ArgKind::Reg).0,
            r == old(self)@.copy(Width::Byte, ArgKind::Reg, ArgKind::Reg).1,
    {
        self.copy(Width::Byte, ArgKind::Reg, ArgKind::Reg)
    }

    /// CPY.B into a register operand from an address.
    pub fn cpy_reg_addr_byte(&mut self) -> (r: Result<usize, VmError>)
        ensures
            final(self)@ == old(self)@.copy(Width::Byte, ArgKind::Reg, ArgKind::Addr).0,
            r == old(self)@.copy(Width::Byte, ArgKind::Reg, ArgKind::Addr).1,
    {
        self.copy(Width::Byte, ArgKind::Reg, ArgKind::Addr)
    }

    /// CPY.B into an address from an immediate.
    pub fn cpy_addr_num_byte(&mut self) -> (r: Result<usize, VmError>)
        ensures
            final(self)@ == old(self)@.copy(Width::Byte, ArgKind::Addr, ArgKind::Num).0,
            r == old(self)@.copy(Width::Byte, ArgKind::Addr, ArgKind::Num).1,
    {
        self.copy(Width::Byte, ArgKind::Addr, ArgKind::Num)
    }

    /// CPY.B into an address from a register operand.
    pub fn cpy_addr_reg_byte(&mut self) -> (r: Result<usize, VmError>)
        ensures
            final(self)@ == old(self)@.copy(Width::Byte, ArgKind::Addr, ArgKind::Reg).0,
            r == old(self)@.copy(Width::Byte, ArgKind::Addr, ArgKind::Reg).1,
    {
        self.copy(Width::Byte, ArgKind::Addr, ArgKind::Reg)
    }

    /// CPY.B into an address from an address.
    pub fn cpy_addr_addr_byte(&mut self) -> (r: Result<usize, VmError>)
        ensures
            final(self)@ == old(self)@.copy(Width::Byte, ArgKind::Addr, ArgKind::Addr).0,
            r == old(self)@.copy(Width::Byte, ArgKind::Addr, ArgKind::Addr).1,
    {
        self.copy(Width::Byte, ArgKind::Addr, ArgKind::Addr)
    }

    /// CPY.W into a register operand from an immediate.
    pub fn cpy_reg_num_word(&mut self) -> (r: Result<usize, VmError>)
        ensures
            final(self)@ == old(self)@.copy(Width::Word, ArgKind::Reg, ArgKind::Num).0,
            r == old(self)@.copy(Width::Word, ArgKind::Reg, ArgKind::Num).1,
    {
        self.copy(Width::Word, ArgKind::Reg, ArgKind::Num)
    }

    /// CPY.W into a register operand from a register operand.
    pub fn cpy_reg_reg_word(&mut self) -> (r: Result<usize, VmError>)
        ensures
            final(self)@ == old(self)@.copy(Width::Word, ArgKind::Reg, ArgKind::Reg).0,
            r == old(self)@.copy(Width::Word, ArgKind::Reg, ArgKind::Reg).1,
    {
        self.copy(Width::Word, ArgKind::Reg, ArgKind::Reg)
    }

    /// CPY.W into a register operand from an address.
    pub fn cpy_reg_addr_word(&mut self) -> (r: Result<usize, VmError>)
        ensures
            final(self)@ == old(self)@.copy(Width::Word, ArgKind::Reg, ArgKind::Addr).0,
            r == old(self)@.copy(Width::Word, ArgKind::Reg, ArgKind::Addr).1,
    {
        self.copy(Width::Word, ArgKind::Reg, ArgKind::Addr)
    }

    /// CPY.W into an address from an immediate.
    pub fn cpy_addr_num_word(&mut self) -> (r: Result<usize, VmError>)
        ensures
            final(self)@ == old(self)@.copy(Width::Word, ArgKind::Addr, ArgKind::Num).0,
            r == old(self)@.copy(Width::Word, ArgKind::Addr, ArgKind::Num).1,
    {
        self.copy(Width::Word, ArgKind::Addr, ArgKind::Num)
    }

    /// CPY.W into an address from a register operand.
    pub fn cpy_addr_reg_word(&mut self) -> (r: Result<usize, VmError>)
        ensures
            final(self)@ == old(self)@.copy(Width::Word, ArgKind::Addr, ArgKind::Reg).0,
            r == old(self)@.copy(Width::Word, ArgKind::Addr, ArgKind::Reg).1,
    {
        self.copy(Width::Word, ArgKind::Addr, ArgKind::Reg)
    }

    /// CPY.W into an address from an address.
    pub fn cpy_addr_addr_word(&mut self) -> (r: Result<usize, VmError>)
        ensures
            final(self)@ == old(self)@.copy(Width::Word, ArgKind::Addr, ArgKind::Addr).0,
            r == old(self)@.copy(Width::Word, ArgKind::Addr, ArgKind::Addr).1,
    {
        self.copy(Width::Word, ArgKind::Addr, ArgKind::Addr)
    }

    /// Arithmetic on bytes, on a register operand with an immediate.
    pub fn math_reg_num_byte(&mut self, op: BinaryOp) -> (r: Result<usize, VmError>)
        ensures
            final(self)@ == old(self)@.binary(op, Width::Byte, ArgKind::Reg, ArgKind::Num).0,
            r == old(self)@.binary(op, Width::Byte, ArgKind::Reg, ArgKind::Num).1,
    {
        self.binary(op, Width::Byte, ArgKind::Reg, ArgKind::Num)
    }

    /// Arithmetic on bytes, on a register operand with a register operand.
    pub fn math_reg_reg_byte(&mut self, op: BinaryOp) -> (r: Result<usize, VmError>)
        ensures
            final(self)@ == old(self)@.binary(op, Width::Byte, ArgKind::Reg, ArgKind::Reg).0,
            r == old(self)@.binary(op, Width::Byte, ArgKind::Reg, ArgKind::Reg).1,
    {
        self.binary(op, Width::Byte, ArgKind::Reg, ArgKind::Reg)
    }

    /// Arithmetic on bytes, on an address with an immediate.
    pub fn math_addr_num_byte(&mut self, op: BinaryOp) -> (r: Result<usize, VmError>)
        ensures
            final(self)@ == old(self)@.binary(op, Width::Byte, ArgKind::Addr, ArgKind::Num).0,
            r == old(self)@.binary(op, Width::Byte, ArgKind::Addr, ArgKind::Num).1,
    {
        self.binary(op, Width::Byte, ArgKind::Addr, ArgKind::Num)
    }

    /// Arithmetic on bytes, on an address with a register operand.
    pub fn math_addr_reg_byte(&mut self, op: BinaryOp) -> (r: Result<usize, VmError>)
        ensures
            final(self)@ == old(self)@.binary(op, Width::Byte, ArgKind::Addr, ArgKind::Reg).0,
            r == old(self)@.binary(op, Width::Byte, ArgKind::Addr, ArgKind::Reg).1,
    {
        self.binary(op, Width::Byte, ArgKind::Addr, ArgKind::Reg)
    }

    /// Arithmetic on bytes, on an address with an address.
    pub fn math_addr_addr_byte(&mut self, op: BinaryOp) -> (r: Result<usize, VmError>)
        ensures
            final(self)@ == old(self)@.binary(op, Width::Byte, ArgKind::Addr, ArgKind::Addr).0,
            r == old(self)@.binary(op, Width::Byte, ArgKind::Addr, ArgKind::Addr).1,
    {
        self.binary(op, Width::Byte, ArgKind::Addr, ArgKind::Addr)
    }

    /// Arithmetic on bytes, on a register operand with an address.
    pub fn math_reg_addr_byte(&mut self, op: BinaryOp) -> (r: Result<usize, VmError>)
        ensures
            final(self)@ == old(self)@.binary(op, Width::Byte, ArgKind::Reg, ArgKind::Addr).0,
            r == old(self)@.binary(op, Width::Byte, ArgKind::Reg, ArgKind::Addr).1,
    {
        self.binary(op, Width::Byte, ArgKind::Reg, ArgKind::Addr)
    }

    /// Arithmetic on words, on a register operand with an immediate.
    pub fn math_reg_num_word(&mut self, op: BinaryOp) -> (r: Result<usize, VmError>)
        ensures
            final(self)@ == old(self)@.binary(op, Width::Word, ArgKind::Reg, ArgKind::Num).0,
            r == old(self)@.binary(op, Width::Word, ArgKind::Reg, ArgKind::Num).1,
    {
        self.binary(op, Width::Word, ArgKind::Reg, ArgKind::Num)
    }

    /// Arithmetic on words, on a register operand with a register operand.
    pub fn math_reg_reg_word(&mut self, op: BinaryOp) -> (r: Result<usize, VmError>)
        ensures
            final(self)@ == old(self)@.binary(op, Width::Word, ArgKind::Reg, ArgKind::Reg).0,
            r == old(self)@.binary(op, Width::Word, ArgKind::Reg, ArgKind::Reg).1,
    {
        self.binary(op, Width::Word, ArgKind::Reg, ArgKind::Reg)
    }

    /// Arithmetic on words, on an address with an immediate.
    pub fn math_addr_num_word(&mut self, op: BinaryOp) -> (r: Result<usize, VmError>)
        ensures
            final(self)@ == old(self)@.binary(op, Width::Word, ArgKind::Addr, ArgKind::Num).0,
            r == old(self)@.binary(op, Width::Word, ArgKind::Addr, ArgKind::Num).1,
    {
        self.binary(op, Width::Word, ArgKind::Addr, ArgKind::Num)
    }

    /// Arithmetic on words, on an address with a register operand.
    pub fn math_addr_reg_word(&mut self, op: BinaryOp) -> (r: Result<usize, VmError>)
        ensures
            final(self)@ == old(self)@.binary(op, Width::Word, ArgKind::Addr, ArgKind::Reg).0,
            r == old(self)@.binary(op, Width::Word, ArgKind::Addr, ArgKind::Reg).1,
    {
        self.binary(op, Width::Word, ArgKind::Addr, ArgKind::Reg)
    }

    /// Arithmetic on words, on an address with an address.
    pub fn math_addr_addr_word(&mut self, op: BinaryOp) -> (r: Result<usize, VmError>)
        ensures
            final(self)@ == old(self)@.binary(op, Width::Word, ArgKind::Addr, ArgKind::Addr).0,
            r == old(self)@.binary(op, Width::Word, ArgKind::Addr, ArgKind::Addr).1,
    {
        self.binary(op, Width::Word, ArgKind::Addr, ArgKind::Addr)
    }

    /// Arithmetic on words, on a register operand with an address.
    pub fn math_reg_addr_word(&mut self, op: BinaryOp) -> (r: Result<usize, VmError>)
        ensures
            final(self)@ == old(self)@.binary(op, Width::Word, ArgKind::Reg, ArgKind::Addr).0,
            r == old(self)@.binary(op, Width::Word, ArgKind::Reg, ArgKind::Addr).1,
    {
        self.binary(op, Width::Word, ArgKind::Reg, ArgKind::Addr)
    }

    /// CMP.B, or CMPS.B where `signed`, of a register operand with an immediate.
    pub fn cmp_reg_num_byte(&mut self, signed: bool) -> (r: Result<usize, VmError>)
        ensures
            final(self)@ == old(self)@.compare(signed, Width::Byte, ArgKind::Num).0,
            r == old(self)@.compare(signed, Width::Byte, ArgKind::Num).1,
    {
        self.compare(signed, Width::Byte, ArgKind::Num)
    }

    /// CMP.B, or CMPS.B where `signed`, of a register operand with a register operand.
    pub fn cmp_reg_reg_byte(&mut self, signed: bool) -> (r: Result<usize, VmError>)
        ensures
            final(self)@ == old(self)@.compare(signed, Width::Byte, ArgKind::Reg).0,
            r == old(self)@.compare(signed, Width::Byte, ArgKind::Reg).1,
    {
        self.compare(signed, Width::Byte, ArgKind::Reg)
    }

    /// CMP.B, or CMPS.B where `signed`, of a register operand with an address.
    pub fn cmp_reg_addr_byte(&mut self, signed: bool) -> (r: Result<usize, VmError>)
        ensures
            final(self)@ == old(self)@.compare(signed, Width::Byte, ArgKind::Addr).0,
            r == old(self)@.compare(signed, Width::Byte, ArgKind::Addr).1,
    {
        self.compare(signed, Width::Byte, ArgKind::Addr)
    }

    /// CMP.W, or CMPS.W where `signed`, of a register operand with an immediate.
    pub fn cmp_reg_num_word(&mut self, signed: bool) -> (r: Result<usize, VmError>)
        ensures
            final(self)@ == old(self)@.compare(signed, Width::Word, ArgKind::Num).0,
            r == old(self)@.compare(signed, Width::Word, ArgKind::Num).1,
    {
        self.compare(signed, Width::Word, ArgKind::Num)
    }

    /// CMP.W, or CMPS.W where `signed`, of a register operand with a register operand.
    pub fn cmp_reg_reg_word(&mut self, signed: bool) -> (r: Result<usize, VmError>)
        ensures
            final(self)@ == old(self)@.compare(signed, Width::Word, ArgKind::Reg).0,
            r == old(self)@.compare(signed, Width::Word, ArgKind::Reg).1,
    {
        self.compare(signed, Width::Word, ArgKind::Reg)
    }

    /// CMP.W, or CMPS.W where `signed`, of a register operand with an address.
    pub fn cmp_reg_addr_word(&mut self, signed: bool) -> (r: Result<usize, VmError>)
        ensures
            final(self)@ == old(self)@.compare(signed, Width::Word, ArgKind::Addr).0,
            r == old(self)@.compare(signed, Width::Word, ArgKind::Addr).1,
    {
        self.compare(signed, Width::Word, ArgKind::Addr)
    }

    /// NOT.B of a register operand.
    pub fn not_reg_byte(&mut self) -> (r: Result<usize, VmError>)
        ensures
            final(self)@ == old(self)@.unary(UnaryOp::Not, Width::Byte, ArgKind::Reg).0,
            r == old(self)@.unary(UnaryOp::Not, Width::Byte, ArgKind::Reg).1,
    {
        self.unary(UnaryOp::Not, Width::Byte, ArgKind::Reg)
    }

    /// NOT.W of a register operand.
    pub fn not_reg_word(&mut self) -> (r: Result<usize, VmError>)
        ensures
            final(self)@ == old(self)@.unary(UnaryOp::Not, Width::Word, ArgKind::Reg).0,
            r == old(self)@.unary(UnaryOp::Not, Width::Word, ArgKind::Reg).1,
    {
        self.unary(UnaryOp::Not, Width::Word, ArgKind::Reg)
    }

    /// Logic on bytes, on a register operand with a register operand.
    pub fn bl_reg_reg_byte(&mut self, op: BinaryOp) -> (r: Result<usize, VmError>)
        ensures
            final(self)@ == old(self)@.binary(op, Width::Byte, ArgKind::Reg, ArgKind::Reg).0,
            r == old(self)@.binary(op, Width::Byte, ArgKind::Reg, ArgKind::Reg).1,
    {
        self.binary(op, Width::Byte, ArgKind::Reg, ArgKind::Reg)
    }

    /// Logic on bytes, on a register operand with an immediate.
    pub fn bl_reg_num_byte(&mut self, op: BinaryOp) -> (r: Result<usize, VmError>)
        ensures
            final(self)@ == old(self)@.binary(op, Width::Byte, ArgKind::Reg, ArgKind::Num).0,
            r == old(self)@.binary(op, Width::Byte, ArgKind::Reg, ArgKind::Num).1,
    {
        self.binary(op, Width::Byte, ArgKind::Reg, ArgKind::Num)
    }

    /// Logic on words, on a register operand with a register operand.
    pub fn bl_reg_reg_word(&mut self, op: BinaryOp) -> (r: Result<usize, VmError>)
        ensures
            final(self)@ == old(self)@.binary(op, Width::Word, ArgKind::Reg, ArgKind::Reg).0,
            r == old(self)@.binary(op, Width::Word, ArgKind::Reg, ArgKind::Reg).1,
    {
        self.binary(op, Width::Word, ArgKind::Reg, ArgKind::Reg)
    }

    /// Logic on words, on a register operand with an immediate.
    pub fn bl_reg_num_word(&mut self, op: BinaryOp) -> (r: Result<usize, VmError>)
        ensures
            final(self)@ == old(self)@.binary(op, Width::Word, ArgKind::Reg, ArgKind::Num).0,
            r == old(self)@.binary(op, Width::Word, ArgKind::Reg, ArgKind::Num).1,
    {
        self.binary(op, Width::Word, ArgKind::Reg, ArgKind::Num)
    }

    /// INC.B of a register operand.
    pub fn inc_reg_byte(&mut self) -> (r: Result<usize, VmError>)
        ensures
            final(self)@ == old(self)@.unary(UnaryOp::Inc, Width::Byte, ArgKind::Reg).0,
            r == old(self)@.unary(UnaryOp::Inc, Width::Byte, ArgKind::Reg).1,
    {
        self.unary(UnaryOp::Inc, Width::Byte, ArgKind::Reg)
    }

    /// INC.W of a register operand.
    pub fn inc_reg_word(&mut self) -> (r: Result<usize, VmError>)
        ensures
            final(self)@ == old(self)@.unary(UnaryOp::Inc, Width::Word, ArgKind::Reg).0,
            r == old(self)@.unary(UnaryOp::Inc, Width::Word, ArgKind::Reg).1,
    {
        self.unary(UnaryOp::Inc, Width::Word, ArgKind::Reg)
    }

    /// INC.B of an address.
    pub fn inc_addr_byte(&mut self) -> (r: Result<usize, VmError>)
        ensures
            final(self)@ == old(self)@.unary(UnaryOp::Inc, Width::Byte, ArgKind::Addr).0,
            r == old(self)@.unary(UnaryOp::Inc, Width::Byte, ArgKind::Addr).1,
    {
        self.unary(UnaryOp::Inc, Width::Byte, ArgKind::Addr)
    }

    /// INC.W of an address.
    pub fn inc_addr_word(&mut self) -> (r: Result<usize, VmError>)
        ensures
            final(self)@ == old(self)@.unary(UnaryOp::Inc, Width::Word, ArgKind::Addr).0,
            r == old(self)@.unary(UnaryOp::Inc, Width::Word, ArgKind::Addr).1,
    {
        self.unary(UnaryOp::Inc, Width::Word, ArgKind::Addr)
    }

    /// DEC.B of a register operand.
    pub fn dec_reg_byte(&mut self) -> (r: Result<usize, VmError>)
        ensures
            final(self)@ == old(self)@.unary(UnaryOp::Dec, Width::Byte, ArgKind::Reg).0,
            r == old(self)@.unary(UnaryOp::Dec, Width::Byte, ArgKind::Reg).1,
    {
        self.unary(UnaryOp::Dec, Width::Byte, ArgKind::Reg)
    }

    /// DEC.W of a register operand.
    pub fn dec_reg_word(&mut self) -> (r: Result<usize, VmError>)
        ensures
            final(self)@ == old(self)@.unary(UnaryOp::Dec, Width::Word, ArgKind::Reg).0,
            r == old(self)@.unary(UnaryOp::Dec, Width::Word, ArgKind::Reg).1,
    {
        self.unary(UnaryOp::Dec, Width::Word, ArgKind::Reg)
    }

    /// DEC.B of an address.
    pub fn dec_addr_byte(&mut self) -> (r: Result<usize, VmError>)
        ensures
            final(self)@ == old(self)@.unary(UnaryOp::Dec, Width::Byte, ArgKind::Addr).0,
            r == old(self)@.unary(UnaryOp::Dec, Width::Byte, ArgKind::Addr).1,
    {
        self.unary(UnaryOp::Dec, Width::Byte, ArgKind::Addr)
    }

    /// DEC.W of an address.
    pub fn dec_addr_word(&mut self) -> (r: Result<usize, VmError>)
        ensures
            final(self)@ == old(self)@.unary(UnaryOp::Dec, Width::Word, ArgKind::Addr).0,
            r == old(self)@.unary(UnaryOp::Dec, Width::Word, ArgKind::Addr).1,
    {
        self.unary(UnaryOp::Dec, Width::Word, ArgKind::Addr)
    }

    /// SWAP.B of two register operands.
    pub fn swap_byte(&mut self) -> (r: Result<usize, VmError>)
        ensures
            final(self)@ == old(self)@.swap(Width::Byte).0,
            r == old(self)@.swap(Width::Byte).1,
    {
        self.swap(Width::Byte)
    }

    /// SWAP.W of two register operands.
    pub fn swap_word(&mut self) -> (r: Result<usize, VmError>)
        ensures
            final(self)@ == old(self)@.swap(Width::Word).0,
            r == old(self)@.swap(Width::Word).1,
    {
        self.swap(Width::Word)
    }

}

} // verus!
