//! The forms of the shifts and rotates, named as the opcodes are.

use vstd::prelude::*;
use crate::error::VmError;
use crate::ops::operand::Width;
use crate::ops::shift::{ShiftForm, ShiftOp};
use crate::vm::VM;

verus! {

impl VM {
    /// ASL.W of the word at an address by one place.
    pub fn asl_addr_word(&mut self) -> (r: Result<usize, VmError>)
        ensures
            final(self)@ == old(self)@.shift(ShiftOp::Asl, Width::Word, ShiftForm::Addr).0,
            r == old(self)@.shift(ShiftOp::Asl, Width::Word, ShiftForm::Addr).1,
    {
        self.shift(ShiftOp::Asl, Width::Word, ShiftForm::Addr)
    }

    /// ASR.W of the word at an address by one place.
    pub fn asr_addr_word(&mut self) -> (r: Result<usize, VmError>)
        ensures
            final(self)@ == old(self)@.shift(ShiftOp::Asr, Width::Word, ShiftForm::Addr).0,
            r == old(self)@.shift(ShiftOp::Asr, Width::Word, ShiftForm::Addr).1,
    {
        self.shift(ShiftOp::Asr, Width::Word, ShiftForm::Addr)
    }

    /// LSR.W of the word at an address by one place.
    pub fn lsr_addr_word(&mut self) -> (r: Result<usize, VmError>)
        ensures
            final(self)@ == old(self)@.shift(ShiftOp::Lsr, Width::Word, ShiftForm::Addr).0,
            r == old(self)@.shift(ShiftOp::Lsr, Width::Word, ShiftForm::Addr).1,
    {
        self.shift(ShiftOp::Lsr, Width::Word, ShiftForm::Addr)
    }

    /// ROL.W of the word at an address by one place.
    pub fn rol_addr_word(&mut self) -> (r: Result<usize, VmError>)
        ensures
            final(self)@ == old(self)@.shift(ShiftOp::Rol, Width::Word, ShiftForm::Addr).0,
            r == old(self)@.shift(ShiftOp::Rol, Width::Word, ShiftForm::Addr).1,
    {
        self.shift(ShiftOp::Rol, Width::Word, ShiftForm::Addr)
    }

    /// ROR.W of the word at an address by one place.
    pub fn ror_addr_word(&mut self) -> (r: Result<usize, VmError>)
        ensures
            final(self)@ == old(self)@.shift(ShiftOp::Ror, Width::Word, ShiftForm::Addr).0,
            r == old(self)@.shift(ShiftOp::Ror, Width::Word, ShiftForm::Addr).1,
    {
        self.shift(ShiftOp::Ror, Width::Word, ShiftForm::Addr)
    }

    /// RCL.W of the word at an address by one place.
    pub fn rcl_addr_word(&mut self) -> (r: Result<usize, VmError>)
        ensures
            final(self)@ == old(self)@.shift(ShiftOp::Rcl, Width::Word, ShiftForm::Addr).0,
            r == old(self)@.shift(ShiftOp::Rcl, Width::Word, ShiftForm::Addr).1,
    {
        self.shift(ShiftOp::Rcl, Width::Word, ShiftForm::Addr)
    }

    /// RCR.W of the word at an address by one place.
    pub fn rcr_addr_word(&mut self) -> (r: Result<usize, VmError>)
        ensures
            final(self)@ == old(self)@.shift(ShiftOp::Rcr, Width::Word, ShiftForm::Addr).0,
            r == old(self)@.shift(ShiftOp::Rcr, Width::Word, ShiftForm::Addr).1,
    {
        self.shift(ShiftOp::Rcr, Width::Word, ShiftForm::Addr)
    }

    /// ASL.B of the byte at an address by one place.
    pub fn asl_addr_byte(&mut self) -> (r: Result<usize, VmError>)
        ensures
            final(self)@ == old(self)@.shift(ShiftOp::Asl, Width::Byte, ShiftForm::Addr).0,
            r == old(self)@.shift(ShiftOp::Asl, Width::Byte, ShiftForm::Addr).1,
    {
        self.shift(ShiftOp::Asl, Width::Byte, ShiftForm::Addr)
    }

    /// ASR.B of the byte at an address by one place.
    pub fn asr_addr_byte(&mut self) -> (r: Result<usize, VmError>)
        ensures
            final(self)@ == old(self)@.shift(ShiftOp::Asr, Width::Byte, ShiftForm::Addr).0,
            r == old(self)@.shift(ShiftOp::Asr, Width::Byte, ShiftForm::Addr).1,
    {
        self.shift(ShiftOp::Asr, Width::Byte, ShiftForm::Addr)
    }

    /// LSR.B of the byte at an address by one place.
    pub fn lsr_addr_byte(&mut self) -> (r: Result<usize, VmError>)
        ensures
            final(self)@ == old(self)@.shift(ShiftOp::Lsr, Width::Byte, ShiftForm::Addr).0,
            r == old(self)@.shift(ShiftOp::Lsr, Width::Byte, ShiftForm::Addr).1,
    {
        self.shift(ShiftOp::Lsr, Width::Byte, ShiftForm::Addr)
    }

    /// ROL.B of the byte at an address by one place.
    pub fn rol_addr_byte(&mut self) -> (r: Result<usize, VmError>)
        ensures
            final(self)@ == old(self)@.shift(ShiftOp::Rol, Width::Byte, ShiftForm::Addr).0,
            r == old(self)@.shift(ShiftOp::Rol, Width::Byte, ShiftForm::Addr).1,
    {
        self.shift(ShiftOp::Rol, Width::Byte, ShiftForm::Addr)
    }

    /// ROR.B of the byte at an address by one place.
    pub fn ror_addr_byte(&mut self) -> (r: Result<usize, VmError>)
        ensures
            final(self)@ == old(self)@.shift(ShiftOp::Ror, Width::Byte, ShiftForm::Addr).0,
            r == old(self)@.shift(ShiftOp::Ror, Width::Byte, ShiftForm::Addr).1,
    {
        self.shift(ShiftOp::Ror, Width::Byte, ShiftForm::Addr)
    }

    /// RCL.B of the byte at an address by one place.
    pub fn rcl_addr_byte(&mut self) -> (r: Result<usize, VmError>)
        ensures
            final(self)@ == old(self)@.shift(ShiftOp::Rcl, Width::Byte, ShiftForm::Addr).0,
            r == old(self)@.shift(ShiftOp::Rcl, Width::Byte, ShiftForm::Addr).1,
    {
        self.shift(ShiftOp::Rcl, Width::Byte, ShiftForm::Addr)
    }

    /// RCR.B of the byte at an address by one place.
    pub fn rcr_addr_byte(&mut self) -> (r: Result<usize, VmError>)
        ensures
            final(self)@ == old(self)@.shift(ShiftOp::Rcr, Width::Byte, ShiftForm::Addr).0,
            r == old(self)@.shift(ShiftOp::Rcr, Width::Byte, ShiftForm::Addr).1,
    {
        self.shift(ShiftOp::Rcr, Width::Byte, ShiftForm::Addr)
    }

    /// ASL.W of a register operand by an immediate amount.
    pub fn asl_reg_num_word(&mut self) -> (r: Result<usize, VmError>)
        ensures
            final(self)@ == old(self)@.shift(ShiftOp::Asl, Width::Word, ShiftForm::RegNum).0,
            r == old(self)@.shift(ShiftOp::Asl, Width::Word, ShiftForm::RegNum).1,
    {
        self.shift(ShiftOp::Asl, Width::Word, ShiftForm::RegNum)
    }

    /// ASR.W of a register operand by an immediate amount.
    pub fn asr_reg_num_word(&mut self) -> (r: Result<usize, VmError>)
        ensures
            final(self)@ == old(self)@.shift(ShiftOp::Asr, Width::Word, ShiftForm::RegNum).0,
            r == old(self)@.shift(ShiftOp::Asr, Width::Word, ShiftForm::RegNum).1,
    {
        self.shift(ShiftOp::Asr, Width::Word, ShiftForm::RegNum)
    }

    /// LSR.W of a register operand by an immediate amount.
    pub fn lsr_reg_num_word(&mut self) -> (r: Result<usize, VmError>)
        ensures
            final(self)@ == old(self)@.shift(ShiftOp::Lsr, Width::Word, ShiftForm::RegNum).0,
            r == old(self)@.shift(ShiftOp::Lsr, Width::Word, ShiftForm::RegNum).1,
    {
        self.shift(ShiftOp::Lsr, Width::Word, ShiftForm::RegNum)
    }

    /// ROL.W of a register operand by an immediate amount.
    pub fn rol_reg_num_word(&mut self) -> (r: Result<usize, VmError>)
        ensures
            final(self)@ == old(self)@.shift(ShiftOp::Rol, Width::Word, ShiftForm::RegNum).0,
            r == old(self)@.shift(ShiftOp::Rol, Width::Word, ShiftForm::RegNum).1,
    {
        self.shift(ShiftOp::Rol, Width::Word, ShiftForm::RegNum)
    }

    /// ROR.W of a register operand by an immediate amount.
    pub fn ror_reg_num_word(&mut self) -> (r: Result<usize, VmError>)
        ensures
            final(self)@ == old(self)@.shift(ShiftOp::Ror, Width::Word, ShiftForm::RegNum).0,
            r == old(self)@.shift(ShiftOp::Ror, Width::Word, ShiftForm::RegNum).1,
    {
        self.shift(ShiftOp::Ror, Width::Word, ShiftForm::RegNum)
    }

    /// RCL.W of a register operand by an immediate amount.
    pub fn rcl_reg_num_word(&mut self) -> (r: Result<usize, VmError>)
        ensures
            final(self)@ == old(self)@.shift(ShiftOp::Rcl, Width::Word, ShiftForm::RegNum).0,
            r == old(self)@.shift(ShiftOp::Rcl, Width::Word, ShiftForm::RegNum).1,
    {
        self.shift(ShiftOp::Rcl, Width::Word, ShiftForm::RegNum)
    }

    /// RCR.W of a register operand by an immediate amount.
    pub fn rcr_reg_num_word(&mut self) -> (r: Result<usize, VmError>)
        ensures
            final(self)@ == old(self)@.shift(ShiftOp::Rcr, Width::Word, ShiftForm::RegNum).0,
            r == old(self)@.shift(ShiftOp::Rcr, Width::Word, ShiftForm::RegNum).1,
    {
        self.shift(ShiftOp::Rcr, Width::Word, ShiftForm::RegNum)
    }

    /// ASL.B of a register operand by an immediate amount.
    pub fn asl_reg_num_byte(&mut self) -> (r: Result<usize, VmError>)
        ensures
            final(self)@ == old(self)@.shift(ShiftOp::Asl, Width::Byte, ShiftForm::RegNum).0,
            r == old(self)@.shift(ShiftOp::Asl, Width::Byte, ShiftForm::RegNum).1,
    {
        self.shift(ShiftOp::Asl, Width::Byte, ShiftForm::RegNum)
    }

    /// ASR.B of a register operand by an immediate amount.
    pub fn asr_reg_num_byte(&mut self) -> (r: Result<usize, VmError>)
        ensures
            final(self)@ == old(self)@.shift(ShiftOp::Asr, Width::Byte, ShiftForm::RegNum).0,
            r == old(self)@.shift(ShiftOp::Asr, Width::Byte, ShiftForm::RegNum).1,
    {
        self.shift(ShiftOp::Asr, Width::Byte, ShiftForm::RegNum)
    }

    /// LSR.B of a register operand by an immediate amount.
    pub fn lsr_reg_num_byte(&mut self) -> (r: Result<usize, VmError>)
        ensures
            final(self)@ == old(self)@.shift(ShiftOp::Lsr, Width::Byte, ShiftForm::RegNum).0,
            r == old(self)@.shift(ShiftOp::Lsr, Width::Byte, ShiftForm::RegNum).1,
    {
        self.shift(ShiftOp::Lsr, Width::Byte, ShiftForm::RegNum)
    }

    /// ROL.B of a register operand by an immediate amount.
    pub fn rol_reg_num_byte(&mut self) -> (r: Result<usize, VmError>)
        ensures
            final(self)@ == old(self)@.shift(ShiftOp::Rol, Width::Byte, ShiftForm::RegNum).0,
            r == old(self)@.shift(ShiftOp::Rol, Width::Byte, ShiftForm::RegNum).1,
    {
        self.shift(ShiftOp::Rol, Width::Byte, ShiftForm::RegNum)
    }

    /// ROR.B of a register operand by an immediate amount.
    pub fn ror_reg_num_byte(&mut self) -> (r: Result<usize, VmError>)
        ensures
            final(self)@ == old(self)@.shift(ShiftOp::Ror, Width::Byte, ShiftForm::RegNum).0,
            r == old(self)@.shift(ShiftOp::Ror, Width::Byte, ShiftForm::RegNum).1,
    {
        self.shift(ShiftOp::Ror, Width::Byte, ShiftForm::RegNum)
    }

    /// RCL.B of a register operand by an immediate amount.
    pub fn rcl_reg_num_byte(&mut self) -> (r: Result<usize, VmError>)
        ensures
            final(self)@ == old(self)@.shift(ShiftOp::Rcl, Width::Byte, ShiftForm::RegNum).0,
            r == old(self)@.shift(ShiftOp::Rcl, Width::Byte, ShiftForm::RegNum).1,
    {
        self.shift(ShiftOp::Rcl, Width::Byte, ShiftForm::RegNum)
    }

    /// RCR.B of a register operand by an immediate amount.
    pub fn rcr_reg_num_byte(&mut self) -> (r: Result<usize, VmError>)
        ensures
            final(self)@ == old(self)@.shift(ShiftOp::Rcr, Width::Byte, ShiftForm::RegNum).0,
            r == old(self)@.shift(ShiftOp::Rcr, Width::Byte, ShiftForm::RegNum).1,
    {
        self.shift(ShiftOp::Rcr, Width::Byte, ShiftForm::RegNum)
    }

    /// ASL.W of a register operand by the amount in a second one.
    pub fn asl_reg_reg_word(&mut self) -> (r: Result<usize, VmError>)
        ensures
            final(self)@ == old(self)@.shift(ShiftOp::Asl, Width::Word, ShiftForm::RegReg).0,
            r == old(self)@.shift(ShiftOp::Asl, Width::Word, ShiftForm::RegReg).1,
    {
        self.shift(ShiftOp::Asl, Width::Word, ShiftForm::RegReg)
    }

    /// ASR.W of a register operand by the amount in a second one.
    pub fn asr_reg_reg_word(&mut self) -> (r: Result<usize, VmError>)
        ensures
            final(self)@ == old(self)@.shift(ShiftOp::Asr, Width::Word, ShiftForm::RegReg).0,
            r == old(self)@.shift(ShiftOp::Asr, Width::Word, ShiftForm::RegReg).1,
    {
        self.shift(ShiftOp::Asr, Width::Word, ShiftForm::RegReg)
    }

    /// LSR.W of a register operand by the amount in a second one.
    pub fn lsr_reg_reg_word(&mut self) -> (r: Result<usize, VmError>)
        ensures
            final(self)@ == old(self)@.shift(ShiftOp::Lsr, Width::Word, ShiftForm::RegReg).0,
            r == old(self)@.shift(ShiftOp::Lsr, Width::Word, ShiftForm::RegReg).1,
    {
        self.shift(ShiftOp::Lsr, Width::Word, ShiftForm::RegReg)
    }

    /// ROL.W of a register operand by the amount in a second one.
    pub fn rol_reg_reg_word(&mut self) -> (r: Result<usize, VmError>)
        ensures
            final(self)@ == old(self)@.shift(ShiftOp::Rol, Width::Word, ShiftForm::RegReg).0,
            r == old(self)@.shift(ShiftOp::Rol, Width::Word, ShiftForm::RegReg).1,
    {
        self.shift(ShiftOp::Rol, Width::Word, ShiftForm::RegReg)
    }

    /// ROR.W of a register operand by the amount in a second one.
    pub fn ror_reg_reg_word(&mut self) -> (r: Result<usize, VmError>)
        ensures
            final(self)@ == old(self)@.shift(ShiftOp::Ror, Width::Word, ShiftForm::RegReg).0,
            r == old(self)@.shift(ShiftOp::Ror, Width::Word, ShiftForm::RegReg).1,
    {
        self.shift(ShiftOp::Ror, Width::Word, ShiftForm::RegReg)
    }

    /// RCL.W of a register operand by the amount in a second one.
    pub fn rcl_reg_reg_word(&mut self) -> (r: Result<usize, VmError>)
        ensures
            final(self)@ == old(self)@.shift(ShiftOp::Rcl, Width::Word, ShiftForm::RegReg).0,
            r == old(self)@.shift(ShiftOp::Rcl, Width::Word, ShiftForm::RegReg).1,
    {
        self.shift(ShiftOp::Rcl, Width::Word, ShiftForm::RegReg)
    }

    /// RCR.W of a register operand by the amount in a second one.
    pub fn rcr_reg_reg_word(&mut self) -> (r: Result<usize, VmError>)
        ensures
            final(self)@ == old(self)@.shift(ShiftOp::Rcr, Width::Word, ShiftForm::RegReg).0,
            r == old(self)@.shift(ShiftOp::Rcr, Width::Word, ShiftForm::RegReg).1,
    {
        self.shift(ShiftOp::Rcr, Width::Word, ShiftForm::RegReg)
    }

    /// ASL.B of a register operand by the amount in a second one.
    pub fn asl_reg_reg_byte(&mut self) -> (r: Result<usize, VmError>)
        ensures
            final(self)@ == old(self)@.shift(ShiftOp::Asl, Width::Byte, ShiftForm::RegReg).0,
            r == old(self)@.shift(ShiftOp::Asl, Width::Byte, ShiftForm::RegReg).1,
    {
        self.shift(ShiftOp::Asl, Width::Byte, ShiftForm::RegReg)
    }

    /// ASR.B of a register operand by the amount in a second one.
    pub fn asr_reg_reg_byte(&mut self) -> (r: Result<usize, VmError>)
        ensures
            final(self)@ == old(self)@.shift(ShiftOp::Asr, Width::Byte, ShiftForm::RegReg).0,
            r == old(self)@.shift(ShiftOp::Asr, Width::Byte, ShiftForm::RegReg).1,
    {
        self.shift(ShiftOp::Asr, Width::Byte, ShiftForm::RegReg)
    }

    /// LSR.B of a register operand by the amount in a second one.
    pub fn lsr_reg_reg_byte(&mut self) -> (r: Result<usize, VmError>)
        ensures
            final(self)@ == old(self)@.shift(ShiftOp::Lsr, Width::Byte, ShiftForm::RegReg).0,
            r == old(self)@.shift(ShiftOp::Lsr, Width::Byte, ShiftForm::RegReg).1,
    {
        self.shift(ShiftOp::Lsr, Width::Byte, ShiftForm::RegReg)
    }

    /// ROL.B of a register operand by the amount in a second one.
    pub fn rol_reg_reg_byte(&mut self) -> (r: Result<usize, VmError>)
        ensures
            final(self)@ == old(self)@.shift(ShiftOp::Rol, Width::Byte, ShiftForm::RegReg).0,
            r == old(self)@.shift(ShiftOp::Rol, Width::Byte, ShiftForm::RegReg).1,
    {
        self.shift(ShiftOp::Rol, Width::Byte, ShiftForm::RegReg)
    }

    /// ROR.B of a register operand by the amount in a second one.
    pub fn ror_reg_reg_byte(&mut self) -> (r: Result<usize, VmError>)
        ensures
            final(self)@ == old(self)@.shift(ShiftOp::Ror, Width::Byte, ShiftForm::RegReg).0,
            r == old(self)@.shift(ShiftOp::Ror, Width::Byte, ShiftForm::RegReg).1,
    {
        self.shift(ShiftOp::Ror, Width::Byte, ShiftForm::RegReg)
    }

    /// RCL.B of a register operand by the amount in a second one.
    pub fn rcl_reg_reg_byte(&mut self) -> (r: Result<usize, VmError>)
        ensures
            final(self)@ == old(self)@.shift(ShiftOp::Rcl, Width::Byte, ShiftForm::RegReg).0,
            r == old(self)@.shift(ShiftOp::Rcl, Width::Byte, ShiftForm::RegReg).1,
    {
        self.shift(ShiftOp::Rcl, Width::Byte, ShiftForm::RegReg)
    }

    /// RCR.B of a register operand by the amount in a second one.
    pub fn rcr_reg_reg_byte(&mut self) -> (r: Result<usize, VmError>)
        ensures
            final(self)@ == old(self)@.shift(ShiftOp::Rcr, Width::Byte, ShiftForm::RegReg).0,
            r == old(self)@.shift(ShiftOp::Rcr, Width::Byte, ShiftForm::RegReg).1,
    {
        self.shift(ShiftOp::Rcr, Width::Byte, ShiftForm::RegReg)
    }

}

} // verus!
