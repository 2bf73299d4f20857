//! The forms of the jumps, the stack instructions and the block operations,
//! named as the opcodes are.

use vstd::prelude::*;
use crate::error::VmError;
use crate::ops::block::BlockOp;
use crate::ops::jump::Condition;
use crate::ops::operand::{ArgKind, Width};
use crate::vm::VM;

verus! {

impl VM {
    /// JMP to an address: taken always.
    pub fn jmp_addr(&mut self) -> (r: Result<(bool, usize), VmError>)
        ensures
            final(self)@ == old(self)@.jump(Condition::Always, ArgKind::Addr).0,
            r == old(self)@.jump(Condition::Always, ArgKind::Addr).1,
    {
        self.jump(Condition::Always, ArgKind::Addr)
    }

    /// JE to an address: taken after a comparison of equals.
    pub fn je_addr(&mut self) -> (r: Result<(bool, usize), VmError>)
        ensures
            final(self)@ == old(self)@.jump(Condition::Equal, ArgKind::Addr).0,
            r == old(self)@.jump(Condition::Equal, ArgKind::Addr).1,
    {
        self.jump(Condition::Equal, ArgKind::Addr)
    }

    /// JNE to an address: taken after a comparison of unequals.
    pub fn jne_addr(&mut self) -> (r: Result<(bool, usize), VmError>)
        ensures
            final(self)@ == old(self)@.jump(Condition::NotEqual, ArgKind::Addr).0,
            r == old(self)@.jump(Condition::NotEqual, ArgKind::Addr).1,
    {
        self.jump(Condition::NotEqual, ArgKind::Addr)
    }

    /// JL to an address: taken where the left side was less.
    pub fn jl_addr(&mut self) -> (r: Result<(bool, usize), VmError>)
        ensures
            final(self)@ == old(self)@.jump(Condition::Less, ArgKind::Addr).0,
            r == old(self)@.jump(Condition::Less, ArgKind::Addr).1,
    {
        self.jump(Condition::Less, ArgKind::Addr)
    }

    /// JG to an address: taken where the left side was greater.
    pub fn jg_addr(&mut self) -> (r: Result<(bool, usize), VmError>)
        ensures
            final(self)@ == old(self)@.jump(Condition::Greater, ArgKind::Addr).0,
            r == old(self)@.jump(Condition::Greater, ArgKind::Addr).1,
    {
        self.jump(Condition::Greater, ArgKind::Addr)
    }

    /// JLE to an address: taken where the left side was not greater.
    pub fn jle_addr(&mut self) -> (r: Result<(bool, usize), VmError>)
        ensures
            final(self)@ == old(self)@.jump(Condition::LessOrEqual, ArgKind::Addr).0,
            r == old(self)@.jump(Condition::LessOrEqual, ArgKind::Addr).1,
    {
        self.jump(Condition::LessOrEqual, ArgKind::Addr)
    }

    /// JGE to an address: taken where the left side was not less.
    pub fn jge_addr(&mut self) -> (r: Result<(bool, usize), VmError>)
        ensures
            final(self)@ == old(self)@.jump(Condition::GreaterOrEqual, ArgKind::Addr).0,
            r == old(self)@.jump(Condition::GreaterOrEqual, ArgKind::Addr).1,
    {
        self.jump(Condition::GreaterOrEqual, ArgKind::Addr)
    }

    /// JMP to a register operand: taken always.
    pub fn jmp_reg(&mut self) -> (r: Result<(bool, usize), VmError>)
        ensures
            final(self)@ == old(self)@.jump(Condition::Always, ArgKind::Reg).0,
            r == old(self)@.jump(Condition::Always, ArgKind::Reg).1,
    {
        self.jump(Condition::Always, ArgKind::Reg)
    }

    /// JE to a register operand: taken after a comparison of equals.
    pub fn je_reg(&mut self) -> (r: Result<(bool, usize), VmError>)
        ensures
            final(self)@ == old(self)@.jump(Condition::Equal, ArgKind::Reg).0,
            r == old(self)@.jump(Condition::Equal, ArgKind::Reg).1,
    {
        self.jump(Condition::Equal, ArgKind::Reg)
    }

    /// JNE to a register operand: taken after a comparison of unequals.
    pub fn jne_reg(&mut self) -> (r: Result<(bool, usize), VmError>)
        ensures
            final(self)@ == old(self)@.jump(Condition::NotEqual, ArgKind::Reg).0,
            r == old(self)@.jump(Condition::NotEqual, ArgKind::Reg).1,
    {
        self.jump(Condition::NotEqual, ArgKind::Reg)
    }

    /// JL to a register operand: taken where the left side was less.
    pub fn jl_reg(&mut self) -> (r: Result<(bool, usize), VmError>)
        ensures
            final(self)@ == old(self)@.jump(Condition::Less, ArgKind::Reg).0,
            r == old(self)@.jump(Condition::Less, ArgKind::Reg).1,
    {
        self.jump(Condition::Less, ArgKind::Reg)
    }

    /// JG to a register operand: taken where the left side was greater.
    pub fn jg_reg(&mut self) -> (r: Result<(bool, usize), VmError>)
        ensures
            final(self)@ == old(self)@.jump(Condition::Greater, ArgKind::Reg).0,
            r == old(self)@.jump(Condition::Greater, ArgKind::Reg).1,
    {
        self.jump(Condition::Greater, ArgKind::Reg)
    }

    /// JLE to a register operand: taken where the left side was not greater.
    pub fn jle_reg(&mut self) -> (r: Result<(bool, usize), VmError>)
        ensures
            final(self)@ == old(self)@.jump(Condition::LessOrEqual, ArgKind::Reg).0,
            r == old(self)@.jump(Condition::LessOrEqual, ArgKind::Reg).1,
    {
        self.jump(Condition::LessOrEqual, ArgKind::Reg)
    }

    /// JGE to a register operand: taken where the left side was not less.
    pub fn jge_reg(&mut self) -> (r: Result<(bool, usize), VmError>)
        ensures
            final(self)@ == old(self)@.jump(Condition::GreaterOrEqual, ArgKind::Reg).0,
            r == old(self)@.jump(Condition::GreaterOrEqual, ArgKind::Reg).1,
    {
        self.jump(Condition::GreaterOrEqual, ArgKind::Reg)
    }

    /// JBS, or JBC where `!required`, to a register operand with the mask in a register operand.
    pub fn jb_reg_reg(&mut self, required: bool) -> (r: Result<(bool, usize), VmError>)
        ensures
            final(self)@ == old(self)@.jump_on_flags(required, ArgKind::Reg, ArgKind::Reg).0,
            r == old(self)@.jump_on_flags(required, ArgKind::Reg, ArgKind::Reg).1,
    {
        self.jump_on_flags(required, ArgKind::Reg, ArgKind::Reg)
    }

    /// JBS, or JBC where `!required`, to an address with the mask in a register operand.
    pub fn jb_addr_reg(&mut self, required: bool) -> (r: Result<(bool, usize), VmError>)
        ensures
            final(self)@ == old(self)@.jump_on_flags(required, ArgKind::Addr, ArgKind::Reg).0,
            r == old(self)@.jump_on_flags(required, ArgKind::Addr, ArgKind::Reg).1,
    {
        self.jump_on_flags(required, ArgKind::Addr, ArgKind::Reg)
    }

    /// JBS, or JBC where `!required`, to a register operand with the mask in an immediate.
    pub fn jb_reg_num(&mut self, required: bool) -> (r: Result<(bool, usize), VmError>)
        ensures
            final(self)@ == old(self)@.jump_on_flags(required, ArgKind::Reg, ArgKind::Num).0,
            r == old(self)@.jump_on_flags(required, ArgKind::Reg, ArgKind::Num).1,
    {
        self.jump_on_flags(required, ArgKind::Reg, ArgKind::Num)
    }

    /// JBS, or JBC where `!required`, to an address with the mask in an immediate.
    pub fn jb_addr_num(&mut self, required: bool) -> (r: Result<(bool, usize), VmError>)
        ensures
            final(self)@ == old(self)@.jump_on_flags(required, ArgKind::Addr, ArgKind::Num).0,
            r == old(self)@.jump_on_flags(required, ArgKind::Addr, ArgKind::Num).1,
    {
        self.jump_on_flags(required, ArgKind::Addr, ArgKind::Num)
    }

    /// CALL to an address.
    pub fn call_addr(&mut self) -> (r: Result<usize, VmError>)
        ensures
            final(self)@ == old(self)@.call(ArgKind::Addr).0,
            r == old(self)@.call(ArgKind::Addr).1,
    {
        self.call(ArgKind::Addr)
    }

    /// CALL to a register operand.
    pub fn call_reg(&mut self) -> (r: Result<usize, VmError>)
        ensures
            final(self)@ == old(self)@.call(ArgKind::Reg).0,
            r == old(self)@.call(ArgKind::Reg).1,
    {
        self.call(ArgKind::Reg)
    }

    /// PUSH.B of a register operand.
    pub fn push_reg_byte(&mut self) -> (r: Result<usize, VmError>)
        ensures
            final(self)@ == old(self)@.push(Width::Byte, ArgKind::Reg).0,
            r == old(self)@.push(Width::Byte, ArgKind::Reg).1,
    {
        self.push(Width::Byte, ArgKind::Reg)
    }

    /// PUSH.W of a register operand.
    pub fn push_reg_word(&mut self) -> (r: Result<usize, VmError>)
        ensures
            final(self)@ == old(self)@.push(Width::Word, ArgKind::Reg).0,
            r == old(self)@.push(Width::Word, ArgKind::Reg).1,
    {
        self.push(Width::Word, ArgKind::Reg)
    }

    /// PUSH.B of an immediate.
    pub fn push_num_byte(&mut self) -> (r: Result<usize, VmError>)
        ensures
            final(self)@ == old(self)@.push(Width::Byte, ArgKind::Num).0,
            r == old(self)@.push(Width::Byte, ArgKind::Num).1,
    {
        self.push(Width::Byte, ArgKind::Num)
    }

    /// PUSH.W of an immediate.
    pub fn push_num_word(&mut self) -> (r: Result<usize, VmError>)
        ensures
            final(self)@ == old(self)@.push(Width::Word, ArgKind::Num).0,
            r == old(self)@.push(Width::Word, ArgKind::Num).1,
    {
        self.push(Width::Word, ArgKind::Num)
    }

    /// POP.B into a register operand.
    pub fn pop_reg_byte(&mut self) -> (r: Result<usize, VmError>)
        ensures
            final(self)@ == old(self)@.pop(Width::Byte).0,
            r == old(self)@.pop(Width::Byte).1,
    {
        self.pop(Width::Byte)
    }

    /// POP.W into a register operand.
    pub fn pop_reg_word(&mut self) -> (r: Result<usize, VmError>)
        ensures
            final(self)@ == old(self)@.pop(Width::Word).0,
            r == old(self)@.pop(Width::Word).1,
    {
        self.pop(Width::Word)
    }

    /// MEM_CPY or MSWP to an address from an address, with an immediate count.
    pub fn mem_addr_addr_byte(&mut self, op: BlockOp) -> (r: Result<usize, VmError>)
        ensures
            final(self)@ == old(self)@.block(op, ArgKind::Addr, ArgKind::Addr, ArgKind::Num).0,
            r == old(self)@.block(op, ArgKind::Addr, ArgKind::Addr, ArgKind::Num).1,
    {
        self.block(op, ArgKind::Addr, ArgKind::Addr, ArgKind::Num)
    }

    /// MEM_CPY or MSWP to an address from an address, with the count in a register operand.
    pub fn mem_addr_addr_reg(&mut self, op: BlockOp) -> (r: Result<usize, VmError>)
        ensures
            final(self)@ == old(self)@.block(op, ArgKind::Addr, ArgKind::Addr, ArgKind::Reg).0,
            r == old(self)@.block(op, ArgKind::Addr, ArgKind::Addr, ArgKind::Reg).1,
    {
        self.block(op, ArgKind::Addr, ArgKind::Addr, ArgKind::Reg)
    }

    /// MEM_CPY or MSWP to an address from a register operand, with an immediate count.
    pub fn mem_addr_reg_byte(&mut self, op: BlockOp) -> (r: Result<usize, VmError>)
        ensures
            final(self)@ == old(self)@.block(op, ArgKind::Addr, ArgKind::Reg, ArgKind::Num).0,
            r == old(self)@.block(op, ArgKind::Addr, ArgKind::Reg, ArgKind::Num).1,
    {
        self.block(op, ArgKind::Addr, ArgKind::Reg, ArgKind::Num)
    }

    /// MEM_CPY or MSWP to an address from a register operand, with the count in a register operand.
    pub fn mem_addr_reg_reg(&mut self, op: BlockOp) -> (r: Result<usize, VmError>)
        ensures
            final(self)@ == old(self)@.block(op, ArgKind::Addr, ArgKind::Reg, ArgKind::Reg).0,
            r == old(self)@.block(op, ArgKind::Addr, ArgKind::Reg, ArgKind::Reg).1,
    {
        self.block(op, ArgKind::Addr, ArgKind::Reg, ArgKind::Reg)
    }

    /// MEM_CPY or MSWP to a register operand from an address, with an immediate count.
    pub fn mem_reg_addr_byte(&mut self, op: BlockOp) -> (r: Result<usize, VmError>)
        ensures
            final(self)@ == old(self)@.block(op, ArgKind::Reg, ArgKind::Addr, ArgKind::Num).0,
            r == old(self)@.block(op, ArgKind::Reg, ArgKind::Addr, ArgKind::Num).1,
    {
        self.block(op, ArgKind::Reg, ArgKind::Addr, ArgKind::Num)
    }

    /// MEM_CPY or MSWP to a register operand from an address, with the count in a register operand.
    pub fn mem_reg_addr_reg(&mut self, op: BlockOp) -> (r: Result<usize, VmError>)
        ensures
            final(self)@ == old(self)@.block(op, ArgKind::Reg, ArgKind::Addr, ArgKind::Reg).0,
            r == old(self)@.block(op, ArgKind::Reg, ArgKind::Addr, ArgKind::Reg).1,
    {
        self.block(op, ArgKind::Reg, ArgKind::Addr, ArgKind::Reg)
    }

    /// MEM_CPY or MSWP to a register operand from a register operand, with an immediate count.
    pub fn mem_reg_reg_byte(&mut self, op: BlockOp) -> (r: Result<usize, VmError>)
        ensures
            final(self)@ == old(self)@.block(op, ArgKind::Reg, ArgKind::Reg, ArgKind::Num).0,
            r == old(self)@.block(op, ArgKind::Reg, ArgKind::Reg, ArgKind::Num).1,
    {
        self.block(op, ArgKind::Reg, ArgKind::Reg, ArgKind::Num)
    }

    /// MEM_CPY or MSWP to a register operand from a register operand, with the count in a register operand.
    pub fn mem_reg_reg_reg(&mut self, op: BlockOp) -> (r: Result<usize, VmError>)
        ensures
            final(self)@ == old(self)@.block(op, ArgKind::Reg, ArgKind::Reg, ArgKind::Reg).0,
            r == old(self)@.block(op, ArgKind::Reg, ArgKind::Reg, ArgKind::Reg).1,
    {
        self.block(op, ArgKind::Reg, ArgKind::Reg, ArgKind::Reg)
    }

}

} // verus!
