//! The dispatcher: which instruction an opcode byte stands for, and the
//! execution of one instruction.

use vstd::prelude::*;
use crate::constants::ops;
use crate::error::VmError;
use crate::model::Machine;
use crate::ops::alu::{BinaryOp, UnaryOp};
use crate::ops::block::BlockOp;
use crate::ops::jump::Condition;
use crate::ops::operand::{ArgKind, Width};
use crate::ops::shift::{ShiftForm, ShiftOp};
use crate::vm::VM;

verus! {

/// An instruction: the family of an opcode with its width and the forms of
/// its operands.
#[derive(Copy, Clone, Debug, Eq, PartialEq, Structural)]
pub enum Instruction {
    Nop,
    Halt,
    Ehalt,
    Ret,
    Reti,
    /// CALL to an address or to the word of a register operand.
    Call(ArgKind),
    /// CPY of a width, to a destination from a source.
    Copy(Width, ArgKind, ArgKind),
    /// Arithmetic or logic of a width, on a destination with a source.
    Binary(BinaryOp, Width, ArgKind, ArgKind),
    /// INC, DEC or NOT of a width, on one operand.
    Unary(UnaryOp, Width, ArgKind),
    /// CMP, or CMPS where the flag is set, of a register with a source.
    Compare(bool, Width, ArgKind),
    /// A shift or rotate of a width.
    Shift(ShiftOp, Width, ShiftForm),
    /// A jump on a condition, to an address or a register operand.
    Jump(Condition, ArgKind),
    /// JRF where the flag is set, JRB where it is not.
    JumpRelative(bool),
    /// JBS where the flag is set, JBC where it is not; to a destination, with
    /// a mask.
    JumpOnFlags(bool, ArgKind, ArgKind),
    /// PUSH of a width, of a register operand or an immediate.
    Push(Width, ArgKind),
    /// POP of a width.
    Pop(Width),
    /// MEM_CPY or MSWP, to a destination from a source, with a count.
    Block(BlockOp, ArgKind, ArgKind, ArgKind),
    /// SWAP of a width.
    Swap(Width),
}

/// The bytes that an operand of one form takes in an instruction, before
/// any bytes that an indexed addressing mode adds: one for a register, two
/// for an address, and the width of the operation for an immediate.
pub open spec fn operand_bytes(kind: ArgKind, width: Width) -> nat {
    match kind {
        ArgKind::Reg => 1,
        ArgKind::Addr => 2,
        ArgKind::Num => width.bytes() as nat,
    }
}

/// The bytes that an operand of one form takes in an instruction.
pub fn operand_size(kind: ArgKind, width: Width) -> (r: usize)
    ensures
        r == operand_bytes(kind, width),
        r <= 2,
{
    match kind {
        ArgKind::Reg => 1,
        ArgKind::Addr => 2,
        ArgKind::Num => match width {
            Width::Byte => 1,
            Width::Word => 2,
        },
    }
}

impl Instruction {
    /// The operand bytes that follow the opcode of the instruction, before
    /// any bytes that an indexed addressing mode adds.
    pub open spec fn operand_bytes(self) -> nat {
        match self {
            Instruction::Nop => 0,
            Instruction::Halt => 0,
            Instruction::Ehalt => 0,
            Instruction::Ret => 0,
            Instruction::Reti => 0,
            Instruction::Call(kind) => operand_bytes(kind, Width::Word),
            Instruction::Copy(width, dst, src) => operand_bytes(dst, width) + operand_bytes(
                src,
                width,
            ),
            Instruction::Binary(_, width, dst, src) => operand_bytes(dst, width) + operand_bytes(
                src,
                width,
            ),
            Instruction::Unary(_, width, kind) => operand_bytes(kind, width),
            Instruction::Compare(_, width, src) => 1 + operand_bytes(src, width),
            Instruction::Shift(_, width, form) => match form {
                ShiftForm::Addr => 2,
                ShiftForm::RegNum => 1 + operand_bytes(ArgKind::Num, width),
                ShiftForm::RegReg => 2,
            },
            Instruction::Jump(_, kind) => operand_bytes(kind, Width::Word),
            Instruction::JumpRelative(_) => 1,
            Instruction::JumpOnFlags(_, dst, mask) => operand_bytes(dst, Width::Word)
                + operand_bytes(mask, Width::Byte),
            Instruction::Push(width, kind) => operand_bytes(kind, width),
            Instruction::Pop(_) => 1,
            Instruction::Block(_, dst, src, count) => operand_bytes(dst, Width::Word)
                + operand_bytes(src, Width::Word) + operand_bytes(count, Width::Byte),
            Instruction::Swap(_) => 2,
        }
    }

    /// The operand bytes that follow the opcode of the instruction.
    pub fn byte_count(self) -> (r: usize)
        ensures
            r == self.operand_bytes(),
    {
        match self {
            Instruction::Nop => 0,
            Instruction::Halt => 0,
            Instruction::Ehalt => 0,
            Instruction::Ret => 0,
            Instruction::Reti => 0,
            Instruction::Call(kind) => operand_size(kind, Width::Word),
            Instruction::Copy(width, dst, src) => operand_size(dst, width) + operand_size(
                src,
                width,
            ),
            Instruction::Binary(_, width, dst, src) => operand_size(dst, width) + operand_size(
                src,
                width,
            ),
            Instruction::Unary(_, width, kind) => operand_size(kind, width),
            Instruction::Compare(_, width, src) => 1 + operand_size(src, width),
            Instruction::Shift(_, width, form) => match form {
                ShiftForm::Addr => 2,
                ShiftForm::RegNum => 1 + operand_size(ArgKind::Num, width),
                ShiftForm::RegReg => 2,
            },
            Instruction::Jump(_, kind) => operand_size(kind, Width::Word),
            Instruction::JumpRelative(_) => 1,
            Instruction::JumpOnFlags(_, dst, mask) => operand_size(dst, Width::Word)
                + operand_size(mask, Width::Byte),
            Instruction::Push(width, kind) => operand_size(kind, width),
            Instruction::Pop(_) => 1,
            Instruction::Block(_, dst, src, count) => operand_size(dst, Width::Word)
                + operand_size(src, Width::Word) + operand_size(count, Width::Byte),
            Instruction::Swap(_) => 2,
        }
    }
}

/// The instruction that an opcode byte stands for; none for a byte that the
/// machine does not execute.
pub open spec fn instruction_of(op: u8) -> Option<Instruction> {
    if op == ops::NOP {
        Some(Instruction::Nop)
    } else if op == ops::HALT {
        Some(Instruction::Halt)
    } else if op == ops::CALL_ADDR {
        Some(Instruction::Call(ArgKind::Addr))
    } else if op == ops::CALL_REG {
        Some(Instruction::Call(ArgKind::Reg))
    } else if op == ops::RET {
        Some(Instruction::Ret)
    } else if op == ops::RETI {
        Some(Instruction::Reti)
    } else if op == ops::SWAP_REG_REG_BYTE {
        Some(Instruction::Swap(Width::Byte))
    } else if op == ops::SWAP_REG_REG_WORD {
        Some(Instruction::Swap(Width::Word))
    } else if op == ops::MEM_CPY_ADDR_ADDR_BYTE {
        Some(Instruction::Block(BlockOp::Copy, ArgKind::Addr, ArgKind::Addr, ArgKind::Num))
    } else if op == ops::MEM_CPY_ADDR_REG_BYTE {
        Some(Instruction::Block(BlockOp::Copy, ArgKind::Addr, ArgKind::Reg, ArgKind::Num))
    } else if op == ops::MEM_CPY_REG_ADDR_BYTE {
        Some(Instruction::Block(BlockOp::Copy, ArgKind::Reg, ArgKind::Addr, ArgKind::Num))
    } else if op == ops::MEM_CPY_REG_REG_BYTE {
        Some(Instruction::Block(BlockOp::Copy, ArgKind::Reg, ArgKind::Reg, ArgKind::Num))
    } else if op == ops::MEM_CPY_ADDR_ADDR_REG {
        Some(Instruction::Block(BlockOp::Copy, ArgKind::Addr, ArgKind::Addr, ArgKind::Reg))
    } else if op == ops::MEM_CPY_ADDR_REG_REG {
        Some(Instruction::Block(BlockOp::Copy, ArgKind::Addr, ArgKind::Reg, ArgKind::Reg))
    } else if op == ops::MEM_CPY_REG_ADDR_REG {
        Some(Instruction::Block(BlockOp::Copy, ArgKind::Reg, ArgKind::Addr, ArgKind::Reg))
    } else if op == ops::MEM_CPY_REG_REG_REG {
        Some(Instruction::Block(BlockOp::Copy, ArgKind::Reg, ArgKind::Reg, ArgKind::Reg))
    } else if op == ops::CPY_REG_REG_BYTE {
        Some(Instruction::Copy(Width::Byte, ArgKind::Reg, ArgKind::Reg))
    } else if op == ops::CPY_REG_REG_WORD {
        Some(Instruction::Copy(Width::Word, ArgKind::Reg, ArgKind::Reg))
    } else if op == ops::CPY_ADDR_REG_BYTE {
        Some(Instruction::Copy(Width::Byte, ArgKind::Addr, ArgKind::Reg))
    } else if op == ops::CPY_ADDR_REG_WORD {
        Some(Instruction::Copy(Width::Word, ArgKind::Addr, ArgKind::Reg))
    } else if op == ops::CPY_REG_ADDR_BYTE {
        Some(Instruction::Copy(Width::Byte, ArgKind::Reg, ArgKind::Addr))
    } else if op == ops::CPY_REG_ADDR_WORD {
        Some(Instruction::Copy(Width::Word, ArgKind::Reg, ArgKind::Addr))
    } else if op == ops::CPY_ADDR_ADDR_BYTE {
        Some(Instruction::Copy(Width::Byte, ArgKind::Addr, ArgKind::Addr))
    } else if op == ops::CPY_ADDR_ADDR_WORD {
        Some(Instruction::Copy(Width::Word, ArgKind::Addr, ArgKind::Addr))
    } else if op == ops::CPY_REG_NUM_BYTE {
        Some(Instruction::Copy(Width::Byte, ArgKind::Reg, ArgKind::Num))
    } else if op == ops::CPY_REG_NUM_WORD {
        Some(Instruction::Copy(Width::Word, ArgKind::Reg, ArgKind::Num))
    } else if op == ops::CPY_ADDR_NUM_BYTE {
        Some(Instruction::Copy(Width::Byte, ArgKind::Addr, ArgKind::Num))
    } else if op == ops::CPY_ADDR_NUM_WORD {
        Some(Instruction::Copy(Width::Word, ArgKind::Addr, ArgKind::Num))
    } else if op == ops::CMP_REG_ADDR_BYTE {
        Some(Instruction::Compare(false, Width::Byte, ArgKind::Addr))
    } else if op == ops::CMP_REG_ADDR_WORD {
        Some(Instruction::Compare(false, Width::Word, ArgKind::Addr))
    } else if op == ops::CMPS_REG_ADDR_BYTE {
        Some(Instruction::Compare(true, Width::Byte, ArgKind::Addr))
    } else if op == ops::CMPS_REG_ADDR_WORD {
        Some(Instruction::Compare(true, Width::Word, ArgKind::Addr))
    } else if op == ops::ADD_REG_REG_BYTE {
        Some(Instruction::Binary(BinaryOp::Add, Width::Byte, ArgKind::Reg, ArgKind::Reg))
    } else if op == ops::ADD_REG_REG_WORD {
        Some(Instruction::Binary(BinaryOp::Add, Width::Word, ArgKind::Reg, ArgKind::Reg))
    } else if op == ops::ADD_REG_NUM_BYTE {
        Some(Instruction::Binary(BinaryOp::Add, Width::Byte, ArgKind::Reg, ArgKind::Num))
    } else if op == ops::ADD_REG_NUM_WORD {
        Some(Instruction::Binary(BinaryOp::Add, Width::Word, ArgKind::Reg, ArgKind::Num))
    } else if op == ops::ADD_REG_ADDR_BYTE {
        Some(Instruction::Binary(BinaryOp::Add, Width::Byte, ArgKind::Reg, ArgKind::Addr))
    } else if op == ops::ADD_REG_ADDR_WORD {
        Some(Instruction::Binary(BinaryOp::Add, Width::Word, ArgKind::Reg, ArgKind::Addr))
    } else if op == ops::ADD_ADDR_REG_BYTE {
        Some(Instruction::Binary(BinaryOp::Add, Width::Byte, ArgKind::Addr, ArgKind::Reg))
    } else if op == ops::ADD_ADDR_REG_WORD {
        Some(Instruction::Binary(BinaryOp::Add, Width::Word, ArgKind::Addr, ArgKind::Reg))
    } else if op == ops::ADD_ADDR_NUM_BYTE {
        Some(Instruction::Binary(BinaryOp::Add, Width::Byte, ArgKind::Addr, ArgKind::Num))
    } else if op == ops::ADD_ADDR_NUM_WORD {
        Some(Instruction::Binary(BinaryOp::Add, Width::Word, ArgKind::Addr, ArgKind::Num))
    } else if op == ops::ADD_ADDR_ADDR_BYTE {
        Some(Instruction::Binary(BinaryOp::Add, Width::Byte, ArgKind::Addr, ArgKind::Addr))
    } else if op == ops::ADD_ADDR_ADDR_WORD {
        Some(Instruction::Binary(BinaryOp::Add, Width::Word, ArgKind::Addr, ArgKind::Addr))
    } else if op == ops::INC_REG_BYTE {
        Some(Instruction::Unary(UnaryOp::Inc, Width::Byte, ArgKind::Reg))
    } else if op == ops::INC_REG_WORD {
        Some(Instruction::Unary(UnaryOp::Inc, Width::Word, ArgKind::Reg))
    } else if op == ops::INC_ADDR_BYTE {
        Some(Instruction::Unary(UnaryOp::Inc, Width::Byte, ArgKind::Addr))
    } else if op == ops::INC_ADDR_WORD {
        Some(Instruction::Unary(UnaryOp::Inc, Width::Word, ArgKind::Addr))
    } else if op == ops::SUB_REG_REG_BYTE {
        Some(Instruction::Binary(BinaryOp::Sub, Width::Byte, ArgKind::Reg, ArgKind::Reg))
    } else if op == ops::SUB_REG_REG_WORD {
        Some(Instruction::Binary(BinaryOp::Sub, Width::Word, ArgKind::Reg, ArgKind::Reg))
    } else if op == ops::SUB_REG_NUM_BYTE {
        Some(Instruction::Binary(BinaryOp::Sub, Width::Byte, ArgKind::Reg, ArgKind::Num))
    } else if op == ops::SUB_REG_NUM_WORD {
        Some(Instruction::Binary(BinaryOp::Sub, Width::Word, ArgKind::Reg, ArgKind::Num))
    } else if op == ops::SUB_REG_ADDR_BYTE {
        Some(Instruction::Binary(BinaryOp::Sub, Width::Byte, ArgKind::Reg, ArgKind::Addr))
    } else if op == ops::SUB_REG_ADDR_WORD {
        Some(Instruction::Binary(BinaryOp::Sub, Width::Word, ArgKind::Reg, ArgKind::Addr))
    } else if op == ops::SUB_ADDR_REG_BYTE {
        Some(Instruction::Binary(BinaryOp::Sub, Width::Byte, ArgKind::Addr, ArgKind::Reg))
    } else if op == ops::SUB_ADDR_REG_WORD {
        Some(Instruction::Binary(BinaryOp::Sub, Width::Word, ArgKind::Addr, ArgKind::Reg))
    } else if op == ops::SUB_ADDR_NUM_BYTE {
        Some(Instruction::Binary(BinaryOp::Sub, Width::Byte, ArgKind::Addr, ArgKind::Num))
    } else if op == ops::SUB_ADDR_NUM_WORD {
        Some(Instruction::Binary(BinaryOp::Sub, Width::Word, ArgKind::Addr, ArgKind::Num))
    } else if op == ops::SUB_ADDR_ADDR_BYTE {
        Some(Instruction::Binary(BinaryOp::Sub, Width::Byte, ArgKind::Addr, ArgKind::Addr))
    } else if op == ops::SUB_ADDR_ADDR_WORD {
        Some(Instruction::Binary(BinaryOp::Sub, Width::Word, ArgKind::Addr, ArgKind::Addr))
    } else if op == ops::DEC_REG_BYTE {
        Some(Instruction::Unary(UnaryOp::Dec, Width::Byte, ArgKind::Reg))
    } else if op == ops::DEC_REG_WORD {
        Some(Instruction::Unary(UnaryOp::Dec, Width::Word, ArgKind::Reg))
    } else if op == ops::DEC_ADDR_BYTE {
        Some(Instruction::Unary(UnaryOp::Dec, Width::Byte, ArgKind::Addr))
    } else if op == ops::DEC_ADDR_WORD {
        Some(Instruction::Unary(UnaryOp::Dec, Width::Word, ArgKind::Addr))
    } else if op == ops::NOT_REG_BYTE {
        Some(Instruction::Unary(UnaryOp::Not, Width::Byte, ArgKind::Reg))
    } else if op == ops::NOT_REG_WORD {
        Some(Instruction::Unary(UnaryOp::Not, Width::Word, ArgKind::Reg))
    } else if op == ops::OR_REG_REG_BYTE {
        Some(Instruction::Binary(BinaryOp::Or, Width::Byte, ArgKind::Reg, ArgKind::Reg))
    } else if op == ops::OR_REG_REG_WORD {
        Some(Instruction::Binary(BinaryOp::Or, Width::Word, ArgKind::Reg, ArgKind::Reg))
    } else if op == ops::OR_REG_NUM_BYTE {
        Some(Instruction::Binary(BinaryOp::Or, Width::Byte, ArgKind::Reg, ArgKind::Num))
    } else if op == ops::OR_REG_NUM_WORD {
        Some(Instruction::Binary(BinaryOp::Or, Width::Word, ArgKind::Reg, ArgKind::Num))
    } else if op == ops::XOR_REG_REG_BYTE {
        Some(Instruction::Binary(BinaryOp::Xor, Width::Byte, ArgKind::Reg, ArgKind::Reg))
    } else if op == ops::XOR_REG_REG_WORD {
        Some(Instruction::Binary(BinaryOp::Xor, Width::Word, ArgKind::Reg, ArgKind::Reg))
    } else if op == ops::XOR_REG_NUM_BYTE {
        Some(Instruction::Binary(BinaryOp::Xor, Width::Byte, ArgKind::Reg, ArgKind::Num))
    } else if op == ops::XOR_REG_NUM_WORD {
        Some(Instruction::Binary(BinaryOp::Xor, Width::Word, ArgKind::Reg, ArgKind::Num))
    } else if op == ops::AND_REG_REG_BYTE {
        Some(Instruction::Binary(BinaryOp::And, Width::Byte, ArgKind::Reg, ArgKind::Reg))
    } else if op == ops::AND_REG_REG_WORD {
        Some(Instruction::Binary(BinaryOp::And, Width::Word, ArgKind::Reg, ArgKind::Reg))
    } else if op == ops::AND_REG_NUM_BYTE {
        Some(Instruction::Binary(BinaryOp::And, Width::Byte, ArgKind::Reg, ArgKind::Num))
    } else if op == ops::AND_REG_NUM_WORD {
        Some(Instruction::Binary(BinaryOp::And, Width::Word, ArgKind::Reg, ArgKind::Num))
    } else if op == ops::JRF_BYTE {
        Some(Instruction::JumpRelative(true))
    } else if op == ops::JRB_BYTE {
        Some(Instruction::JumpRelative(false))
    } else if op == ops::ASL_REG_NUM_BYTE {
        Some(Instruction::Shift(ShiftOp::Asl, Width::Byte, ShiftForm::RegNum))
    } else if op == ops::ASL_REG_NUM_WORD {
        Some(Instruction::Shift(ShiftOp::Asl, Width::Word, ShiftForm::RegNum))
    } else if op == ops::ASL_REG_REG_BYTE {
        Some(Instruction::Shift(ShiftOp::Asl, Width::Byte, ShiftForm::RegReg))
    } else if op == ops::ASL_REG_REG_WORD {
        Some(Instruction::Shift(ShiftOp::Asl, Width::Word, ShiftForm::RegReg))
    } else if op == ops::ASL_ADDR_BYTE {
        Some(Instruction::Shift(ShiftOp::Asl, Width::Byte, ShiftForm::Addr))
    } else if op == ops::ASL_ADDR_WORD {
        Some(Instruction::Shift(ShiftOp::Asl, Width::Word, ShiftForm::Addr))
    } else if op == ops::ASR_REG_NUM_BYTE {
        Some(Instruction::Shift(ShiftOp::Asr, Width::Byte, ShiftForm::RegNum))
    } else if op == ops::ASR_REG_NUM_WORD {
        Some(Instruction::Shift(ShiftOp::Asr, Width::Word, ShiftForm::RegNum))
    } else if op == ops::ASR_REG_REG_BYTE {
        Some(Instruction::Shift(ShiftOp::Asr, Width::Byte, ShiftForm::RegReg))
    } else if op == ops::ASR_REG_REG_WORD {
        Some(Instruction::Shift(ShiftOp::Asr, Width::Word, ShiftForm::RegReg))
    } else if op == ops::ASR_ADDR_BYTE {
        Some(Instruction::Shift(ShiftOp::Asr, Width::Byte, ShiftForm::Addr))
    } else if op == ops::ASR_ADDR_WORD {
        Some(Instruction::Shift(ShiftOp::Asr, Width::Word, ShiftForm::Addr))
    } else if op == ops::LSR_REG_NUM_BYTE {
        Some(Instruction::Shift(ShiftOp::Lsr, Width::Byte, ShiftForm::RegNum))
    } else if op == ops::LSR_REG_NUM_WORD {
        Some(Instruction::Shift(ShiftOp::Lsr, Width::Word, ShiftForm::RegNum))
    } else if op == ops::LSR_REG_REG_BYTE {
        Some(Instruction::Shift(ShiftOp::Lsr, Width::Byte, ShiftForm::RegReg))
    } else if op == ops::LSR_REG_REG_WORD {
        Some(Instruction::Shift(ShiftOp::Lsr, Width::Word, ShiftForm::RegReg))
    } else if op == ops::LSR_ADDR_BYTE {
        Some(Instruction::Shift(ShiftOp::Lsr, Width::Byte, ShiftForm::Addr))
    } else if op == ops::LSR_ADDR_WORD {
        Some(Instruction::Shift(ShiftOp::Lsr, Width::Word, ShiftForm::Addr))
    } else if op == ops::ROL_REG_NUM_BYTE {
        Some(Instruction::Shift(ShiftOp::Rol, Width::Byte, ShiftForm::RegNum))
    } else if op == ops::ROL_REG_NUM_WORD {
        Some(Instruction::Shift(ShiftOp::Rol, Width::Word, ShiftForm::RegNum))
    } else if op == ops::ROL_REG_REG_BYTE {
        Some(Instruction::Shift(ShiftOp::Rol, Width::Byte, ShiftForm::RegReg))
    } else if op == ops::ROL_REG_REG_WORD {
        Some(Instruction::Shift(ShiftOp::Rol, Width::Word, ShiftForm::RegReg))
    } else if op == ops::ROL_ADDR_BYTE {
        Some(Instruction::Shift(ShiftOp::Rol, Width::Byte, ShiftForm::Addr))
    } else if op == ops::ROL_ADDR_WORD {
        Some(Instruction::Shift(ShiftOp::Rol, Width::Word, ShiftForm::Addr))
    } else if op == ops::ROR_REG_NUM_BYTE {
        Some(Instruction::Shift(ShiftOp::Ror, Width::Byte, ShiftForm::RegNum))
    } else if op == ops::ROR_REG_NUM_WORD {
        Some(Instruction::Shift(ShiftOp::Ror, Width::Word, ShiftForm::RegNum))
    } else if op == ops::ROR_REG_REG_BYTE {
        Some(Instruction::Shift(ShiftOp::Ror, Width::Byte, ShiftForm::RegReg))
    } else if op == ops::ROR_REG_REG_WORD {
        Some(Instruction::Shift(ShiftOp::Ror, Width::Word, ShiftForm::RegReg))
    } else if op == ops::ROR_ADDR_BYTE {
        Some(Instruction::Shift(ShiftOp::Ror, Width::Byte, ShiftForm::Addr))
    } else if op == ops::ROR_ADDR_WORD {
        Some(Instruction::Shift(ShiftOp::Ror, Width::Word, ShiftForm::Addr))
    } else if op == ops::PUSH_REG_BYTE {
        Some(Instruction::Push(Width::Byte, ArgKind::Reg))
    } else if op == ops::PUSH_REG_WORD {
        Some(Instruction::Push(Width::Word, ArgKind::Reg))
    } else if op == ops::PUSH_NUM_BYTE {
        Some(Instruction::Push(Width::Byte, ArgKind::Num))
    } else if op == ops::PUSH_NUM_WORD {
        Some(Instruction::Push(Width::Word, ArgKind::Num))
    } else if op == ops::POP_REG_BYTE {
        Some(Instruction::Pop(Width::Byte))
    } else if op == ops::POP_REG_WORD {
        Some(Instruction::Pop(Width::Word))
    } else if op == ops::MSWP_REG_REG_REG {
        Some(Instruction::Block(BlockOp::Swap, ArgKind::Reg, ArgKind::Reg, ArgKind::Reg))
    } else if op == ops::MSWP_REG_REG_BYTE {
        Some(Instruction::Block(BlockOp::Swap, ArgKind::Reg, ArgKind::Reg, ArgKind::Num))
    } else if op == ops::MSWP_REG_ADDR_REG {
        Some(Instruction::Block(BlockOp::Swap, ArgKind::Reg, ArgKind::Addr, ArgKind::Reg))
    } else if op == ops::MSWP_REG_ADDR_BYTE {
        Some(Instruction::Block(BlockOp::Swap, ArgKind::Reg, ArgKind::Addr, ArgKind::Num))
    } else if op == ops::MSWP_ADDR_REG_REG {
        Some(Instruction::Block(BlockOp::Swap, ArgKind::Addr, ArgKind::Reg, ArgKind::Reg))
    } else if op == ops::MSWP_ADDR_REG_BYTE {
        Some(Instruction::Block(BlockOp::Swap, ArgKind::Addr, ArgKind::Reg, ArgKind::Num))
    } else if op == ops::MSWP_ADDR_ADDR_BYTE {
        Some(Instruction::Block(BlockOp::Swap, ArgKind::Addr, ArgKind::Addr, ArgKind::Num))
    } else if op == ops::MSWP_ADDR_ADDR_REG {
        Some(Instruction::Block(BlockOp::Swap, ArgKind::Addr, ArgKind::Addr, ArgKind::Reg))
    } else if op == ops::MUL_REG_REG_BYTE {
        Some(Instruction::Binary(BinaryOp::Mul, Width::Byte, ArgKind::Reg, ArgKind::Reg))
    } else if op == ops::MUL_REG_REG_WORD {
        Some(Instruction::Binary(BinaryOp::Mul, Width::Word, ArgKind::Reg, ArgKind::Reg))
    } else if op == ops::MUL_REG_NUM_BYTE {
        Some(Instruction::Binary(BinaryOp::Mul, Width::Byte, ArgKind::Reg, ArgKind::Num))
    } else if op == ops::MUL_REG_NUM_WORD {
        Some(Instruction::Binary(BinaryOp::Mul, Width::Word, ArgKind::Reg, ArgKind::Num))
    } else if op == ops::MUL_REG_ADDR_BYTE {
        Some(Instruction::Binary(BinaryOp::Mul, Width::Byte, ArgKind::Reg, ArgKind::Addr))
    } else if op == ops::MUL_REG_ADDR_WORD {
        Some(Instruction::Binary(BinaryOp::Mul, Width::Word, ArgKind::Reg, ArgKind::Addr))
    } else if op == ops::MUL_ADDR_REG_BYTE {
        Some(Instruction::Binary(BinaryOp::Mul, Width::Byte, ArgKind::Addr, ArgKind::Reg))
    } else if op == ops::MUL_ADDR_REG_WORD {
        Some(Instruction::Binary(BinaryOp::Mul, Width::Word, ArgKind::Addr, ArgKind::Reg))
    } else if op == ops::MUL_ADDR_NUM_BYTE {
        Some(Instruction::Binary(BinaryOp::Mul, Width::Byte, ArgKind::Addr, ArgKind::Num))
    } else if op == ops::MUL_ADDR_NUM_WORD {
        Some(Instruction::Binary(BinaryOp::Mul, Width::Word, ArgKind::Addr, ArgKind::Num))
    } else if op == ops::MUL_ADDR_ADDR_BYTE {
        Some(Instruction::Binary(BinaryOp::Mul, Width::Byte, ArgKind::Addr, ArgKind::Addr))
    } else if op == ops::MUL_ADDR_ADDR_WORD {
        Some(Instruction::Binary(BinaryOp::Mul, Width::Word, ArgKind::Addr, ArgKind::Addr))
    } else if op == ops::MULS_REG_REG_BYTE {
        Some(Instruction::Binary(BinaryOp::Muls, Width::Byte, ArgKind::Reg, ArgKind::Reg))
    } else if op == ops::MULS_REG_REG_WORD {
        Some(Instruction::Binary(BinaryOp::Muls, Width::Word, ArgKind::Reg, ArgKind::Reg))
    } else if op == ops::MULS_REG_NUM_BYTE {
        Some(Instruction::Binary(BinaryOp::Muls, Width::Byte, ArgKind::Reg, ArgKind::Num))
    } else if op == ops::MULS_REG_NUM_WORD {
        Some(Instruction::Binary(BinaryOp::Muls, Width::Word, ArgKind::Reg, ArgKind::Num))
    } else if op == ops::MULS_REG_ADDR_BYTE {
        Some(Instruction::Binary(BinaryOp::Muls, Width::Byte, ArgKind::Reg, ArgKind::Addr))
    } else if op == ops::MULS_REG_ADDR_WORD {
        Some(Instruction::Binary(BinaryOp::Muls, Width::Word, ArgKind::Reg, ArgKind::Addr))
    } else if op == ops::MULS_ADDR_REG_BYTE {
        Some(Instruction::Binary(BinaryOp::Muls, Width::Byte, ArgKind::Addr, ArgKind::Reg))
    } else if op == ops::MULS_ADDR_REG_WORD {
        Some(Instruction::Binary(BinaryOp::Muls, Width::Word, ArgKind::Addr, ArgKind::Reg))
    } else if op == ops::MULS_ADDR_NUM_BYTE {
        Some(Instruction::Binary(BinaryOp::Muls, Width::Byte, ArgKind::Addr, ArgKind::Num))
    } else if op == ops::MULS_ADDR_NUM_WORD {
        Some(Instruction::Binary(BinaryOp::Muls, Width::Word, ArgKind::Addr, ArgKind::Num))
    } else if op == ops::MULS_ADDR_ADDR_BYTE {
        Some(Instruction::Binary(BinaryOp::Muls, Width::Byte, ArgKind::Addr, ArgKind::Addr))
    } else if op == ops::MULS_ADDR_ADDR_WORD {
        Some(Instruction::Binary(BinaryOp::Muls, Width::Word, ArgKind::Addr, ArgKind::Addr))
    } else if op == ops::DIV_REG_REG_BYTE {
        Some(Instruction::Binary(BinaryOp::Div, Width::Byte, ArgKind::Reg, ArgKind::Reg))
    } else if op == ops::DIV_REG_REG_WORD {
        Some(Instruction::Binary(BinaryOp::Div, Width::Word, ArgKind::Reg, ArgKind::Reg))
    } else if op == ops::DIV_REG_NUM_BYTE {
        Some(Instruction::Binary(BinaryOp::Div, Width::Byte, ArgKind::Reg, ArgKind::Num))
    } else if op == ops::DIV_REG_NUM_WORD {
        Some(Instruction::Binary(BinaryOp::Div, Width::Word, ArgKind::Reg, ArgKind::Num))
    } else if op == ops::DIV_REG_ADDR_BYTE {
        Some(Instruction::Binary(BinaryOp::Div, Width::Byte, ArgKind::Reg, ArgKind::Addr))
    } else if op == ops::DIV_REG_ADDR_WORD {
        Some(Instruction::Binary(BinaryOp::Div, Width::Word, ArgKind::Reg, ArgKind::Addr))
    } else if op == ops::DIV_ADDR_REG_BYTE {
        Some(Instruction::Binary(BinaryOp::Div, Width::Byte, ArgKind::Addr, ArgKind::Reg))
    } else if op == ops::DIV_ADDR_REG_WORD {
        Some(Instruction::Binary(BinaryOp::Div, Width::Word, ArgKind::Addr, ArgKind::Reg))
    } else if op == ops::DIV_ADDR_NUM_BYTE {
        Some(Instruction::Binary(BinaryOp::Div, Width::Byte, ArgKind::Addr, ArgKind::Num))
    } else if op == ops::DIV_ADDR_NUM_WORD {
        Some(Instruction::Binary(BinaryOp::Div, Width::Word, ArgKind::Addr, ArgKind::Num))
    } else if op == ops::DIV_ADDR_ADDR_BYTE {
        Some(Instruction::Binary(BinaryOp::Div, Width::Byte, ArgKind::Addr, ArgKind::Addr))
    } else if op == ops::DIV_ADDR_ADDR_WORD {
        Some(Instruction::Binary(BinaryOp::Div, Width::Word, ArgKind::Addr, ArgKind::Addr))
    } else if op == ops::DIVS_REG_REG_BYTE {
        Some(Instruction::Binary(BinaryOp::Divs, Width::Byte, ArgKind::Reg, ArgKind::Reg))
    } else if op == ops::DIVS_REG_REG_WORD {
        Some(Instruction::Binary(BinaryOp::Divs, Width::Word, ArgKind::Reg, ArgKind::Reg))
    } else if op == ops::DIVS_REG_NUM_BYTE {
        Some(Instruction::Binary(BinaryOp::Divs, Width::Byte, ArgKind::Reg, ArgKind::Num))
    } else if op == ops::DIVS_REG_NUM_WORD {
        Some(Instruction::Binary(BinaryOp::Divs, Width::Word, ArgKind::Reg, ArgKind::Num))
    } else if op == ops::DIVS_REG_ADDR_BYTE {
        Some(Instruction::Binary(BinaryOp::Divs, Width::Byte, ArgKind::Reg, ArgKind::Addr))
    } else if op == ops::DIVS_REG_ADDR_WORD {
        Some(Instruction::Binary(BinaryOp::Divs, Width::Word, ArgKind::Reg, ArgKind::Addr))
    } else if op == ops::DIVS_ADDR_REG_BYTE {
        Some(Instruction::Binary(BinaryOp::Divs, Width::Byte, ArgKind::Addr, ArgKind::Reg))
    } else if op == ops::DIVS_ADDR_REG_WORD {
        Some(Instruction::Binary(BinaryOp::Divs, Width::Word, ArgKind::Addr, ArgKind::Reg))
    } else if op == ops::DIVS_ADDR_NUM_BYTE {
        Some(Instruction::Binary(BinaryOp::Divs, Width::Byte, ArgKind::Addr, ArgKind::Num))
    } else if op == ops::DIVS_ADDR_NUM_WORD {
        Some(Instruction::Binary(BinaryOp::Divs, Width::Word, ArgKind::Addr, ArgKind::Num))
    } else if op == ops::DIVS_ADDR_ADDR_BYTE {
        Some(Instruction::Binary(BinaryOp::Divs, Width::Byte, ArgKind::Addr, ArgKind::Addr))
    } else if op == ops::DIVS_ADDR_ADDR_WORD {
        Some(Instruction::Binary(BinaryOp::Divs, Width::Word, ArgKind::Addr, ArgKind::Addr))
    } else if op == ops::JMP_ADDR {
        Some(Instruction::Jump(Condition::Always, ArgKind::Addr))
    } else if op == ops::JMP_REG {
        Some(Instruction::Jump(Condition::Always, ArgKind::Reg))
    } else if op == ops::JE_ADDR {
        Some(Instruction::Jump(Condition::Equal, ArgKind::Addr))
    } else if op == ops::JE_REG {
        Some(Instruction::Jump(Condition::Equal, ArgKind::Reg))
    } else if op == ops::JNE_ADDR {
        Some(Instruction::Jump(Condition::NotEqual, ArgKind::Addr))
    } else if op == ops::JNE_REG {
        Some(Instruction::Jump(Condition::NotEqual, ArgKind::Reg))
    } else if op == ops::JL_ADDR {
        Some(Instruction::Jump(Condition::Less, ArgKind::Addr))
    } else if op == ops::JL_REG {
        Some(Instruction::Jump(Condition::Less, ArgKind::Reg))
    } else if op == ops::JG_ADDR {
        Some(Instruction::Jump(Condition::Greater, ArgKind::Addr))
    } else if op == ops::JG_REG {
        Some(Instruction::Jump(Condition::Greater, ArgKind::Reg))
    } else if op == ops::JLE_ADDR {
        Some(Instruction::Jump(Condition::LessOrEqual, ArgKind::Addr))
    } else if op == ops::JLE_REG {
        Some(Instruction::Jump(Condition::LessOrEqual, ArgKind::Reg))
    } else if op == ops::JGE_ADDR {
        Some(Instruction::Jump(Condition::GreaterOrEqual, ArgKind::Addr))
    } else if op == ops::JGE_REG {
        Some(Instruction::Jump(Condition::GreaterOrEqual, ArgKind::Reg))
    } else if op == ops::CMP_REG_NUM_BYTE {
        Some(Instruction::Compare(false, Width::Byte, ArgKind::Num))
    } else if op == ops::CMP_REG_NUM_WORD {
        Some(Instruction::Compare(false, Width::Word, ArgKind::Num))
    } else if op == ops::CMP_REG_REG_BYTE {
        Some(Instruction::Compare(false, Width::Byte, ArgKind::Reg))
    } else if op == ops::CMP_REG_REG_WORD {
        Some(Instruction::Compare(false, Width::Word, ArgKind::Reg))
    } else if op == ops::CMPS_REG_NUM_BYTE {
        Some(Instruction::Compare(true, Width::Byte, ArgKind::Num))
    } else if op == ops::CMPS_REG_NUM_WORD {
        Some(Instruction::Compare(true, Width::Word, ArgKind::Num))
    } else if op == ops::CMPS_REG_REG_BYTE {
        Some(Instruction::Compare(true, Width::Byte, ArgKind::Reg))
    } else if op == ops::CMPS_REG_REG_WORD {
        Some(Instruction::Compare(true, Width::Word, ArgKind::Reg))
    } else if op == ops::JBC_REG_REG {
        Some(Instruction::JumpOnFlags(false, ArgKind::Reg, ArgKind::Reg))
    } else if op == ops::JBS_REG_REG {
        Some(Instruction::JumpOnFlags(true, ArgKind::Reg, ArgKind::Reg))
    } else if op == ops::JBC_ADDR_REG {
        Some(Instruction::JumpOnFlags(false, ArgKind::Addr, ArgKind::Reg))
    } else if op == ops::JBS_ADDR_REG {
        Some(Instruction::JumpOnFlags(true, ArgKind::Addr, ArgKind::Reg))
    } else if op == ops::JBC_REG_NUM {
        Some(Instruction::JumpOnFlags(false, ArgKind::Reg, ArgKind::Num))
    } else if op == ops::JBS_REG_NUM {
        Some(Instruction::JumpOnFlags(true, ArgKind::Reg, ArgKind::Num))
    } else if op == ops::JBC_ADDR_NUM {
        Some(Instruction::JumpOnFlags(false, ArgKind::Addr, ArgKind::Num))
    } else if op == ops::JBS_ADDR_NUM {
        Some(Instruction::JumpOnFlags(true, ArgKind::Addr, ArgKind::Num))
    } else if op == ops::RCL_REG_NUM_BYTE {
        Some(Instruction::Shift(ShiftOp::Rcl, Width::Byte, ShiftForm::RegNum))
    } else if op == ops::RCL_REG_NUM_WORD {
        Some(Instruction::Shift(ShiftOp::Rcl, Width::Word, ShiftForm::RegNum))
    } else if op == ops::RCL_REG_REG_BYTE {
        Some(Instruction::Shift(ShiftOp::Rcl, Width::Byte, ShiftForm::RegReg))
    } else if op == ops::RCL_REG_REG_WORD {
        Some(Instruction::Shift(ShiftOp::Rcl, Width::Word, ShiftForm::RegReg))
    } else if op == ops::RCL_ADDR_BYTE {
        Some(Instruction::Shift(ShiftOp::Rcl, Width::Byte, ShiftForm::Addr))
    } else if op == ops::RCL_ADDR_WORD {
        Some(Instruction::Shift(ShiftOp::Rcl, Width::Word, ShiftForm::Addr))
    } else if op == ops::RCR_REG_NUM_BYTE {
        Some(Instruction::Shift(ShiftOp::Rcr, Width::Byte, ShiftForm::RegNum))
    } else if op == ops::RCR_REG_NUM_WORD {
        Some(Instruction::Shift(ShiftOp::Rcr, Width::Word, ShiftForm::RegNum))
    } else if op == ops::RCR_REG_REG_BYTE {
        Some(Instruction::Shift(ShiftOp::Rcr, Width::Byte, ShiftForm::RegReg))
    } else if op == ops::RCR_REG_REG_WORD {
        Some(Instruction::Shift(ShiftOp::Rcr, Width::Word, ShiftForm::RegReg))
    } else if op == ops::RCR_ADDR_BYTE {
        Some(Instruction::Shift(ShiftOp::Rcr, Width::Byte, ShiftForm::Addr))
    } else if op == ops::RCR_ADDR_WORD {
        Some(Instruction::Shift(ShiftOp::Rcr, Width::Word, ShiftForm::Addr))
    } else if op == ops::ADDC_REG_REG_BYTE {
        Some(Instruction::Binary(BinaryOp::Addc, Width::Byte, ArgKind::Reg, ArgKind::Reg))
    } else if op == ops::ADDC_REG_REG_WORD {
        Some(Instruction::Binary(BinaryOp::Addc, Width::Word, ArgKind::Reg, ArgKind::Reg))
    } else if op == ops::ADDC_REG_NUM_BYTE {
        Some(Instruction::Binary(BinaryOp::Addc, Width::Byte, ArgKind::Reg, ArgKind::Num))
    } else if op == ops::ADDC_REG_NUM_WORD {
        Some(Instruction::Binary(BinaryOp::Addc, Width::Word, ArgKind::Reg, ArgKind::Num))
    } else if op == ops::ADDC_REG_ADDR_BYTE {
        Some(Instruction::Binary(BinaryOp::Addc, Width::Byte, ArgKind::Reg, ArgKind::Addr))
    } else if op == ops::ADDC_REG_ADDR_WORD {
        Some(Instruction::Binary(BinaryOp::Addc, Width::Word, ArgKind::Reg, ArgKind::Addr))
    } else if op == ops::ADDC_ADDR_REG_BYTE {
        Some(Instruction::Binary(BinaryOp::Addc, Width::Byte, ArgKind::Addr, ArgKind::Reg))
    } else if op == ops::ADDC_ADDR_REG_WORD {
        Some(Instruction::Binary(BinaryOp::Addc, Width::Word, ArgKind::Addr, ArgKind::Reg))
    } else if op == ops::ADDC_ADDR_NUM_BYTE {
        Some(Instruction::Binary(BinaryOp::Addc, Width::Byte, ArgKind::Addr, ArgKind::Num))
    } else if op == ops::ADDC_ADDR_NUM_WORD {
        Some(Instruction::Binary(BinaryOp::Addc, Width::Word, ArgKind::Addr, ArgKind::Num))
    } else if op == ops::ADDC_ADDR_ADDR_BYTE {
        Some(Instruction::Binary(BinaryOp::Addc, Width::Byte, ArgKind::Addr, ArgKind::Addr))
    } else if op == ops::ADDC_ADDR_ADDR_WORD {
        Some(Instruction::Binary(BinaryOp::Addc, Width::Word, ArgKind::Addr, ArgKind::Addr))
    } else if op == ops::SUBC_REG_REG_BYTE {
        Some(Instruction::Binary(BinaryOp::Subc, Width::Byte, ArgKind::Reg, ArgKind::Reg))
    } else if op == ops::SUBC_REG_REG_WORD {
        Some(Instruction::Binary(BinaryOp::Subc, Width::Word, ArgKind::Reg, ArgKind::Reg))
    } else if op == ops::SUBC_REG_NUM_BYTE {
        Some(Instruction::Binary(BinaryOp::Subc, Width::Byte, ArgKind::Reg, ArgKind::Num))
    } else if op == ops::SUBC_REG_NUM_WORD {
        Some(Instruction::Binary(BinaryOp::Subc, Width::Word, ArgKind::Reg, ArgKind::Num))
    } else if op == ops::SUBC_REG_ADDR_BYTE {
        Some(Instruction::Binary(BinaryOp::Subc, Width::Byte, ArgKind::Reg, ArgKind::Addr))
    } else if op == ops::SUBC_REG_ADDR_WORD {
        Some(Instruction::Binary(BinaryOp::Subc, Width::Word, ArgKind::Reg, ArgKind::Addr))
    } else if op == ops::SUBC_ADDR_REG_BYTE {
        Some(Instruction::Binary(BinaryOp::Subc, Width::Byte, ArgKind::Addr, ArgKind::Reg))
    } else if op == ops::SUBC_ADDR_REG_WORD {
        Some(Instruction::Binary(BinaryOp::Subc, Width::Word, ArgKind::Addr, ArgKind::Reg))
    } else if op == ops::SUBC_ADDR_NUM_BYTE {
        Some(Instruction::Binary(BinaryOp::Subc, Width::Byte, ArgKind::Addr, ArgKind::Num))
    } else if op == ops::SUBC_ADDR_NUM_WORD {
        Some(Instruction::Binary(BinaryOp::Subc, Width::Word, ArgKind::Addr, ArgKind::Num))
    } else if op == ops::SUBC_ADDR_ADDR_BYTE {
        Some(Instruction::Binary(BinaryOp::Subc, Width::Byte, ArgKind::Addr, ArgKind::Addr))
    } else if op == ops::SUBC_ADDR_ADDR_WORD {
        Some(Instruction::Binary(BinaryOp::Subc, Width::Word, ArgKind::Addr, ArgKind::Addr))
    } else if op == ops::EHALT {
        Some(Instruction::Ehalt)
    } else {
        None
    }
}

/// The result of an instruction that leaves the program counter to the
/// machine.
pub open spec fn stays(step: (Machine, Result<usize, VmError>)) -> (Machine, Result<(bool, usize), VmError>) {
    match step.1 {
        Ok(cost) => (step.0, Ok((false, cost))),
        Err(e) => (step.0, Err(e)),
    }
}

/// The result of an instruction that has set the program counter.
pub open spec fn moves(step: (Machine, Result<usize, VmError>)) -> (Machine, Result<(bool, usize), VmError>) {
    match step.1 {
        Ok(cost) => (step.0, Ok((true, cost))),
        Err(e) => (step.0, Err(e)),
    }
}

impl Machine {
    /// The machine after it was halted.
    pub open spec fn halt(self) -> Machine {
        Machine { halted: true, ..self }
    }

    /// One instruction. The result tells whether the instruction has set
    /// the program counter, and the cycles that it used.
    pub open spec fn run(self, instruction: Instruction) -> (Machine, Result<(bool, usize), VmError>) {
        match instruction {
            Instruction::Nop => (self, Ok((false, 3usize))),
            Instruction::Halt => (self.halt(), Ok((true, 0usize))),
            Instruction::Ehalt => (self, Err(VmError::HaltedByProgram)),
            Instruction::Ret => (self.ret().0, Ok((true, self.ret().1))),
            Instruction::Reti => (self.return_from_interrupt(), Ok((true, 4usize))),
            Instruction::Call(kind) => moves(self.call(kind)),
            Instruction::Copy(width, dst, src) => stays(self.copy(width, dst, src)),
            Instruction::Binary(op, width, dst, src) => stays(self.binary(op, width, dst, src)),
            Instruction::Unary(op, width, kind) => stays(self.unary(op, width, kind)),
            Instruction::Compare(signed, width, src) => stays(self.compare(signed, width, src)),
            Instruction::Shift(op, width, form) => stays(self.shift(op, width, form)),
            Instruction::Jump(condition, kind) => self.jump(condition, kind),
            Instruction::JumpRelative(forward) => (
                self.jump_relative(forward).0,
                Ok(self.jump_relative(forward).1),
            ),
            Instruction::JumpOnFlags(required, dst, mask) => self.jump_on_flags(required, dst, mask),
            Instruction::Push(width, kind) => stays(self.push(width, kind)),
            Instruction::Pop(width) => stays(self.pop(width)),
            Instruction::Block(op, dst, src, count) => stays(self.block(op, dst, src, count)),
            Instruction::Swap(width) => stays(self.swap(width)),
        }
    }

    /// The instruction with the opcode `op`, whose operands start at the
    /// operand pointer. A byte that is no opcode is an error and changes
    /// nothing.
    pub open spec fn execute(self, op: u8) -> (Machine, Result<(bool, usize), VmError>) {
        match instruction_of(op) {
            Some(instruction) => self.run(instruction),
            None => (self, Err(VmError::UnsupportedOp(op))),
        }
    }
}

/// The result of an instruction that leaves the program counter to the
/// machine.
pub(crate) fn stay(step: Result<usize, VmError>) -> (r: Result<(bool, usize), VmError>)
    ensures
        r == (match step {
            Ok(cost) => Ok::<(bool, usize), VmError>((false, cost)),
            Err(e) => Err(e),
        }),
{
    match step {
        Ok(cost) => Ok((false, cost)),
        Err(e) => Err(e),
    }
}

/// The result of an instruction that has set the program counter.
pub(crate) fn go(step: Result<usize, VmError>) -> (r: Result<(bool, usize), VmError>)
    ensures
        r == (match step {
            Ok(cost) => Ok::<(bool, usize), VmError>((true, cost)),
            Err(e) => Err(e),
        }),
{
    match step {
        Ok(cost) => Ok((true, cost)),
        Err(e) => Err(e),
    }
}

/// The instruction that an opcode byte stands for.
pub fn decode(op: u8) -> (r: Option<Instruction>)
    ensures
        r == instruction_of(op),
{
    match op {
        ops::NOP => Some(Instruction::Nop),
        ops::HALT => Some(Instruction::Halt),
        ops::CALL_ADDR => Some(Instruction::Call(ArgKind::Addr)),
        ops::CALL_REG => Some(Instruction::Call(ArgKind::Reg)),
        ops::RET => Some(Instruction::Ret),
        ops::RETI => Some(Instruction::Reti),
        ops::SWAP_REG_REG_BYTE => Some(Instruction::Swap(Width::Byte)),
        ops::SWAP_REG_REG_WORD => Some(Instruction::Swap(Width::Word)),
        ops::MEM_CPY_ADDR_ADDR_BYTE => Some(Instruction::Block(BlockOp::Copy, ArgKind::Addr, ArgKind::Addr, ArgKind::Num)),
        ops::MEM_CPY_ADDR_REG_BYTE => Some(Instruction::Block(BlockOp::Copy, ArgKind::Addr, ArgKind::Reg, ArgKind::Num)),
        ops::MEM_CPY_REG_ADDR_BYTE => Some(Instruction::Block(BlockOp::Copy, ArgKind::Reg, ArgKind::Addr, ArgKind::Num)),
        ops::MEM_CPY_REG_REG_BYTE => Some(Instruction::Block(BlockOp::Copy, ArgKind::Reg, ArgKind::Reg, ArgKind::Num)),
        ops::MEM_CPY_ADDR_ADDR_REG => Some(Instruction::Block(BlockOp::Copy, ArgKind::Addr, ArgKind::Addr, ArgKind::Reg)),
        ops::MEM_CPY_ADDR_REG_REG => Some(Instruction::Block(BlockOp::Copy, ArgKind::Addr, ArgKind::Reg, ArgKind::Reg)),
        ops::MEM_CPY_REG_ADDR_REG => Some(Instruction::Block(BlockOp::Copy, ArgKind::Reg, ArgKind::Addr, ArgKind::Reg)),
        ops::MEM_CPY_REG_REG_REG => Some(Instruction::Block(BlockOp::Copy, ArgKind::Reg, ArgKind::Reg, ArgKind::Reg)),
        ops::CPY_REG_REG_BYTE => Some(Instruction::Copy(Width::Byte, ArgKind::Reg, ArgKind::Reg)),
        ops::CPY_REG_REG_WORD => Some(Instruction::Copy(Width::Word, ArgKind::Reg, ArgKind::Reg)),
        ops::CPY_ADDR_REG_BYTE => Some(Instruction::Copy(Width::Byte, ArgKind::Addr, ArgKind::Reg)),
        ops::CPY_ADDR_REG_WORD => Some(Instruction::Copy(Width::Word, ArgKind::Addr, ArgKind::Reg)),
        ops::CPY_REG_ADDR_BYTE => Some(Instruction::Copy(Width::Byte, ArgKind::Reg, ArgKind::Addr)),
        ops::CPY_REG_ADDR_WORD => Some(Instruction::Copy(Width::Word, ArgKind::Reg, ArgKind::Addr)),
        ops::CPY_ADDR_ADDR_BYTE => Some(Instruction::Copy(Width::Byte, ArgKind::Addr, ArgKind::Addr)),
        ops::CPY_ADDR_ADDR_WORD => Some(Instruction::Copy(Width::Word, ArgKind::Addr, ArgKind::Addr)),
        ops::CPY_REG_NUM_BYTE => Some(Instruction::Copy(Width::Byte, ArgKind::Reg, ArgKind::Num)),
        ops::CPY_REG_NUM_WORD => Some(Instruction::Copy(Width::Word, ArgKind::Reg, ArgKind::Num)),
        ops::CPY_ADDR_NUM_BYTE => Some(Instruction::Copy(Width::Byte, ArgKind::Addr, ArgKind::Num)),
        ops::CPY_ADDR_NUM_WORD => Some(Instruction::Copy(Width::Word, ArgKind::Addr, ArgKind::Num)),
        ops::CMP_REG_ADDR_BYTE => Some(Instruction::Compare(false, Width::Byte, ArgKind::Addr)),
        ops::CMP_REG_ADDR_WORD => Some(Instruction::Compare(false, Width::Word, ArgKind::Addr)),
        ops::CMPS_REG_ADDR_BYTE => Some(Instruction::Compare(true, Width::Byte, ArgKind::Addr)),
        ops::CMPS_REG_ADDR_WORD => Some(Instruction::Compare(true, Width::Word, ArgKind::Addr)),
        ops::ADD_REG_REG_BYTE => Some(Instruction::Binary(BinaryOp::Add, Width::Byte, ArgKind::Reg, ArgKind::Reg)),
        ops::ADD_REG_REG_WORD => Some(Instruction::Binary(BinaryOp::Add, Width::Word, ArgKind::Reg, ArgKind::Reg)),
        ops::ADD_REG_NUM_BYTE => Some(Instruction::Binary(BinaryOp::Add, Width::Byte, ArgKind::Reg, ArgKind::Num)),
        ops::ADD_REG_NUM_WORD => Some(Instruction::Binary(BinaryOp::Add, Width::Word, ArgKind::Reg, ArgKind::Num)),
        ops::ADD_REG_ADDR_BYTE => Some(Instruction::Binary(BinaryOp::Add, Width::Byte, ArgKind::Reg, ArgKind::Addr)),
        ops::ADD_REG_ADDR_WORD => Some(Instruction::Binary(BinaryOp::Add, Width::Word, ArgKind::Reg, ArgKind::Addr)),
        ops::ADD_ADDR_REG_BYTE => Some(Instruction::Binary(BinaryOp::Add, Width::Byte, ArgKind::Addr, ArgKind::Reg)),
        ops::ADD_ADDR_REG_WORD => Some(Instruction::Binary(BinaryOp::Add, Width::Word, ArgKind::Addr, ArgKind::Reg)),
        ops::ADD_ADDR_NUM_BYTE => Some(Instruction::Binary(BinaryOp::Add, Width::Byte, ArgKind::Addr, ArgKind::Num)),
        ops::ADD_ADDR_NUM_WORD => Some(Instruction::Binary(BinaryOp::Add, Width::Word, ArgKind::Addr, ArgKind::Num)),
        ops::ADD_ADDR_ADDR_BYTE => Some(Instruction::Binary(BinaryOp::Add, Width::Byte, ArgKind::Addr, ArgKind::Addr)),
        ops::ADD_ADDR_ADDR_WORD => Some(Instruction::Binary(BinaryOp::Add, Width::Word, ArgKind::Addr, ArgKind::Addr)),
        ops::INC_REG_BYTE => Some(Instruction::Unary(UnaryOp::Inc, Width::Byte, ArgKind::Reg)),
        ops::INC_REG_WORD => Some(Instruction::Unary(UnaryOp::Inc, Width::Word, ArgKind::Reg)),
        ops::INC_ADDR_BYTE => Some(Instruction::Unary(UnaryOp::Inc, Width::Byte, ArgKind::Addr)),
        ops::INC_ADDR_WORD => Some(Instruction::Unary(UnaryOp::Inc, Width::Word, ArgKind::Addr)),
        ops::SUB_REG_REG_BYTE => Some(Instruction::Binary(BinaryOp::Sub, Width::Byte, ArgKind::Reg, ArgKind::Reg)),
        ops::SUB_REG_REG_WORD => Some(Instruction::Binary(BinaryOp::Sub, Width::Word, ArgKind::Reg, ArgKind::Reg)),
        ops::SUB_REG_NUM_BYTE => Some(Instruction::Binary(BinaryOp::Sub, Width::Byte, ArgKind::Reg, ArgKind::Num)),
        ops::SUB_REG_NUM_WORD => Some(Instruction::Binary(BinaryOp::Sub, Width::Word, ArgKind::Reg, ArgKind::Num)),
        ops::SUB_REG_ADDR_BYTE => Some(Instruction::Binary(BinaryOp::Sub, Width::Byte, ArgKind::Reg, ArgKind::Addr)),
        ops::SUB_REG_ADDR_WORD => Some(Instruction::Binary(BinaryOp::Sub, Width::Word, ArgKind::Reg, ArgKind::Addr)),
        ops::SUB_ADDR_REG_BYTE => Some(Instruction::Binary(BinaryOp::Sub, Width::Byte, ArgKind::Addr, ArgKind::Reg)),
        ops::SUB_ADDR_REG_WORD => Some(Instruction::Binary(BinaryOp::Sub, Width::Word, ArgKind::Addr, ArgKind::Reg)),
        ops::SUB_ADDR_NUM_BYTE => Some(Instruction::Binary(BinaryOp::Sub, Width::Byte, ArgKind::Addr, ArgKind::Num)),
        ops::SUB_ADDR_NUM_WORD => Some(Instruction::Binary(BinaryOp::Sub, Width::Word, ArgKind::Addr, ArgKind::Num)),
        ops::SUB_ADDR_ADDR_BYTE => Some(Instruction::Binary(BinaryOp::Sub, Width::Byte, ArgKind::Addr, ArgKind::Addr)),
        ops::SUB_ADDR_ADDR_WORD => Some(Instruction::Binary(BinaryOp::Sub, Width::Word, ArgKind::Addr, ArgKind::Addr)),
        ops::DEC_REG_BYTE => Some(Instruction::Unary(UnaryOp::Dec, Width::Byte, ArgKind::Reg)),
        ops::DEC_REG_WORD => Some(Instruction::Unary(UnaryOp::Dec, Width::Word, ArgKind::Reg)),
        ops::DEC_ADDR_BYTE => Some(Instruction::Unary(UnaryOp::Dec, Width::Byte, ArgKind::Addr)),
        ops::DEC_ADDR_WORD => Some(Instruction::Unary(UnaryOp::Dec, Width::Word, ArgKind::Addr)),
        ops::NOT_REG_BYTE => Some(Instruction::Unary(UnaryOp::Not, Width::Byte, ArgKind::Reg)),
        ops::NOT_REG_WORD => Some(Instruction::Unary(UnaryOp::Not, Width::Word, ArgKind::Reg)),
        ops::OR_REG_REG_BYTE => Some(Instruction::Binary(BinaryOp::Or, Width::Byte, ArgKind::Reg, ArgKind::Reg)),
        ops::OR_REG_REG_WORD => Some(Instruction::Binary(BinaryOp::Or, Width::Word, ArgKind::Reg, ArgKind::Reg)),
        ops::OR_REG_NUM_BYTE => Some(Instruction::Binary(BinaryOp::Or, Width::Byte, ArgKind::Reg, ArgKind::Num)),
        ops::OR_REG_NUM_WORD => Some(Instruction::Binary(BinaryOp::Or, Width::Word, ArgKind::Reg, ArgKind::Num)),
        ops::XOR_REG_REG_BYTE => Some(Instruction::Binary(BinaryOp::Xor, Width::Byte, ArgKind::Reg, ArgKind::Reg)),
        ops::XOR_REG_REG_WORD => Some(Instruction::Binary(BinaryOp::Xor, Width::Word, ArgKind::Reg, ArgKind::Reg)),
        ops::XOR_REG_NUM_BYTE => Some(Instruction::Binary(BinaryOp::Xor, Width::Byte, ArgKind::Reg, ArgKind::Num)),
        ops::XOR_REG_NUM_WORD => Some(Instruction::Binary(BinaryOp::Xor, Width::Word, ArgKind::Reg, ArgKind::Num)),
        ops::AND_REG_REG_BYTE => Some(Instruction::Binary(BinaryOp::And, Width::Byte, ArgKind::Reg, ArgKind::Reg)),
        ops::AND_REG_REG_WORD => Some(Instruction::Binary(BinaryOp::And, Width::Word, ArgKind::Reg, ArgKind::Reg)),
        ops::AND_REG_NUM_BYTE => Some(Instruction::Binary(BinaryOp::And, Width::Byte, ArgKind::Reg, ArgKind::Num)),
        ops::AND_REG_NUM_WORD => Some(Instruction::Binary(BinaryOp::And, Width::Word, ArgKind::Reg, ArgKind::Num)),
        ops::JRF_BYTE => Some(Instruction::JumpRelative(true)),
        ops::JRB_BYTE => Some(Instruction::JumpRelative(false)),
        ops::ASL_REG_NUM_BYTE => Some(Instruction::Shift(ShiftOp::Asl, Width::Byte, ShiftForm::RegNum)),
        ops::ASL_REG_NUM_WORD => Some(Instruction::Shift(ShiftOp::Asl, Width::Word, ShiftForm::RegNum)),
        ops::ASL_REG_REG_BYTE => Some(Instruction::Shift(ShiftOp::Asl, Width::Byte, ShiftForm::RegReg)),
        ops::ASL_REG_REG_WORD => Some(Instruction::Shift(ShiftOp::Asl, Width::Word, ShiftForm::RegReg)),
        ops::ASL_ADDR_BYTE => Some(Instruction::Shift(ShiftOp::Asl, Width::Byte, ShiftForm::Addr)),
        ops::ASL_ADDR_WORD => Some(Instruction::Shift(ShiftOp::Asl, Width::Word, ShiftForm::Addr)),
        ops::ASR_REG_NUM_BYTE => Some(Instruction::Shift(ShiftOp::Asr, Width::Byte, ShiftForm::RegNum)),
        ops::ASR_REG_NUM_WORD => Some(Instruction::Shift(ShiftOp::Asr, Width::Word, ShiftForm::RegNum)),
        ops::ASR_REG_REG_BYTE => Some(Instruction::Shift(ShiftOp::Asr, Width::Byte, ShiftForm::RegReg)),
        ops::ASR_REG_REG_WORD => Some(Instruction::Shift(ShiftOp::Asr, Width::Word, ShiftForm::RegReg)),
        ops::ASR_ADDR_BYTE => Some(Instruction::Shift(ShiftOp::Asr, Width::Byte, ShiftForm::Addr)),
        ops::ASR_ADDR_WORD => Some(Instruction::Shift(ShiftOp::Asr, Width::Word, ShiftForm::Addr)),
        ops::LSR_REG_NUM_BYTE => Some(Instruction::Shift(ShiftOp::Lsr, Width::Byte, ShiftForm::RegNum)),
        ops::LSR_REG_NUM_WORD => Some(Instruction::Shift(ShiftOp::Lsr, Width::Word, ShiftForm::RegNum)),
        ops::LSR_REG_REG_BYTE => Some(Instruction::Shift(ShiftOp::Lsr, Width::Byte, ShiftForm::RegReg)),
        ops::LSR_REG_REG_WORD => Some(Instruction::Shift(ShiftOp::Lsr, Width::Word, ShiftForm::RegReg)),
        ops::LSR_ADDR_BYTE => Some(Instruction::Shift(ShiftOp::Lsr, Width::Byte, ShiftForm::Addr)),
        ops::LSR_ADDR_WORD => Some(Instruction::Shift(ShiftOp::Lsr, Width::Word, ShiftForm::Addr)),
        ops::ROL_REG_NUM_BYTE => Some(Instruction::Shift(ShiftOp::Rol, Width::Byte, ShiftForm::RegNum)),
        ops::ROL_REG_NUM_WORD => Some(Instruction::Shift(ShiftOp::Rol, Width::Word, ShiftForm::RegNum)),
        ops::ROL_REG_REG_BYTE => Some(Instruction::Shift(ShiftOp::Rol, Width::Byte, ShiftForm::RegReg)),
        ops::ROL_REG_REG_WORD => Some(Instruction::Shift(ShiftOp::Rol, Width::Word, ShiftForm::RegReg)),
        ops::ROL_ADDR_BYTE => Some(Instruction::Shift(ShiftOp::Rol, Width::Byte, ShiftForm::Addr)),
        ops::ROL_ADDR_WORD => Some(Instruction::Shift(ShiftOp::Rol, Width::Word, ShiftForm::Addr)),
        ops::ROR_REG_NUM_BYTE => Some(Instruction::Shift(ShiftOp::Ror, Width::Byte, ShiftForm::RegNum)),
        ops::ROR_REG_NUM_WORD => Some(Instruction::Shift(ShiftOp::Ror, Width::Word, ShiftForm::RegNum)),
        ops::ROR_REG_REG_BYTE => Some(Instruction::Shift(ShiftOp::Ror, Width::Byte, ShiftForm::RegReg)),
        ops::ROR_REG_REG_WORD => Some(Instruction::Shift(ShiftOp::Ror, Width::Word, ShiftForm::RegReg)),
        ops::ROR_ADDR_BYTE => Some(Instruction::Shift(ShiftOp::Ror, Width::Byte, ShiftForm::Addr)),
        ops::ROR_ADDR_WORD => Some(Instruction::Shift(ShiftOp::Ror, Width::Word, ShiftForm::Addr)),
        ops::PUSH_REG_BYTE => Some(Instruction::Push(Width::Byte, ArgKind::Reg)),
        ops::PUSH_REG_WORD => Some(Instruction::Push(Width::Word, ArgKind::Reg)),
        ops::PUSH_NUM_BYTE => Some(Instruction::Push(Width::Byte, ArgKind::Num)),
        ops::PUSH_NUM_WORD => Some(Instruction::Push(Width::Word, ArgKind::Num)),
        ops::POP_REG_BYTE => Some(Instruction::Pop(Width::Byte)),
        ops::POP_REG_WORD => Some(Instruction::Pop(Width::Word)),
        ops::MSWP_REG_REG_REG => Some(Instruction::Block(BlockOp::Swap, ArgKind::Reg, ArgKind::Reg, ArgKind::Reg)),
        ops::MSWP_REG_REG_BYTE => Some(Instruction::Block(BlockOp::Swap, ArgKind::Reg, ArgKind::Reg, ArgKind::Num)),
        ops::MSWP_REG_ADDR_REG => Some(Instruction::Block(BlockOp::Swap, ArgKind::Reg, ArgKind::Addr, ArgKind::Reg)),
        ops::MSWP_REG_ADDR_BYTE => Some(Instruction::Block(BlockOp::Swap, ArgKind::Reg, ArgKind::Addr, ArgKind::Num)),
        ops::MSWP_ADDR_REG_REG => Some(Instruction::Block(BlockOp::Swap, ArgKind::Addr, ArgKind::Reg, ArgKind::Reg)),
        ops::MSWP_ADDR_REG_BYTE => Some(Instruction::Block(BlockOp::Swap, ArgKind::Addr, ArgKind::Reg, ArgKind::Num)),
        ops::MSWP_ADDR_ADDR_BYTE => Some(Instruction::Block(BlockOp::Swap, ArgKind::Addr, ArgKind::Addr, ArgKind::Num)),
        ops::MSWP_ADDR_ADDR_REG => Some(Instruction::Block(BlockOp::Swap, ArgKind::Addr, ArgKind::Addr, ArgKind::Reg)),
        ops::MUL_REG_REG_BYTE => Some(Instruction::Binary(BinaryOp::Mul, Width::Byte, ArgKind::Reg, ArgKind::Reg)),
        ops::MUL_REG_REG_WORD => Some(Instruction::Binary(BinaryOp::Mul, Width::Word, ArgKind::Reg, ArgKind::Reg)),
        ops::MUL_REG_NUM_BYTE => Some(Instruction::Binary(BinaryOp::Mul, Width::Byte, ArgKind::Reg, ArgKind::Num)),
        ops::MUL_REG_NUM_WORD => Some(Instruction::Binary(BinaryOp::Mul, Width::Word, ArgKind::Reg, ArgKind::Num)),
        ops::MUL_REG_ADDR_BYTE => Some(Instruction::Binary(BinaryOp::Mul, Width::Byte, ArgKind::Reg, ArgKind::Addr)),
        ops::MUL_REG_ADDR_WORD => Some(Instruction::Binary(BinaryOp::Mul, Width::Word, ArgKind::Reg, ArgKind::Addr)),
        ops::MUL_ADDR_REG_BYTE => Some(Instruction::Binary(BinaryOp::Mul, Width::Byte, ArgKind::Addr, ArgKind::Reg)),
        ops::MUL_ADDR_REG_WORD => Some(Instruction::Binary(BinaryOp::Mul, Width::Word, ArgKind::Addr, ArgKind::Reg)),
        ops::MUL_ADDR_NUM_BYTE => Some(Instruction::Binary(BinaryOp::Mul, Width::Byte, ArgKind::Addr, ArgKind::Num)),
        ops::MUL_ADDR_NUM_WORD => Some(Instruction::Binary(BinaryOp::Mul, Width::Word, ArgKind::Addr, ArgKind::Num)),
        ops::MUL_ADDR_ADDR_BYTE => Some(Instruction::Binary(BinaryOp::Mul, Width::Byte, ArgKind::Addr, ArgKind::Addr)),
        ops::MUL_ADDR_ADDR_WORD => Some(Instruction::Binary(BinaryOp::Mul, Width::Word, ArgKind::Addr, ArgKind::Addr)),
        ops::MULS_REG_REG_BYTE => Some(Instruction::Binary(BinaryOp::Muls, Width::Byte, ArgKind::Reg, ArgKind::Reg)),
        ops::MULS_REG_REG_WORD => Some(Instruction::Binary(BinaryOp::Muls, Width::Word, ArgKind::Reg, ArgKind::Reg)),
        ops::MULS_REG_NUM_BYTE => Some(Instruction::Binary(BinaryOp::Muls, Width::Byte, ArgKind::Reg, ArgKind::Num)),
        ops::MULS_REG_NUM_WORD => Some(Instruction::Binary(BinaryOp::Muls, Width::Word, ArgKind::Reg, ArgKind::Num)),
        ops::MULS_REG_ADDR_BYTE => Some(Instruction::Binary(BinaryOp::Muls, Width::Byte, ArgKind::Reg, ArgKind::Addr)),
        ops::MULS_REG_ADDR_WORD => Some(Instruction::Binary(BinaryOp::Muls, Width::Word, ArgKind::Reg, ArgKind::Addr)),
        ops::MULS_ADDR_REG_BYTE => Some(Instruction::Binary(BinaryOp::Muls, Width::Byte, ArgKind::Addr, ArgKind::Reg)),
        ops::MULS_ADDR_REG_WORD => Some(Instruction::Binary(BinaryOp::Muls, Width::Word, ArgKind::Addr, ArgKind::Reg)),
        ops::MULS_ADDR_NUM_BYTE => Some(Instruction::Binary(BinaryOp::Muls, Width::Byte, ArgKind::Addr, ArgKind::Num)),
        ops::MULS_ADDR_NUM_WORD => Some(Instruction::Binary(BinaryOp::Muls, Width::Word, ArgKind::Addr, ArgKind::Num)),
        ops::MULS_ADDR_ADDR_BYTE => Some(Instruction::Binary(BinaryOp::Muls, Width::Byte, ArgKind::Addr, ArgKind::Addr)),
        ops::MULS_ADDR_ADDR_WORD => Some(Instruction::Binary(BinaryOp::Muls, Width::Word, ArgKind::Addr, ArgKind::Addr)),
        ops::DIV_REG_REG_BYTE => Some(Instruction::Binary(BinaryOp::Div, Width::Byte, ArgKind::Reg, ArgKind::Reg)),
        ops::DIV_REG_REG_WORD => Some(Instruction::Binary(BinaryOp::Div, Width::Word, ArgKind::Reg, ArgKind::Reg)),
        ops::DIV_REG_NUM_BYTE => Some(Instruction::Binary(BinaryOp::Div, Width::Byte, ArgKind::Reg, ArgKind::Num)),
        ops::DIV_REG_NUM_WORD => Some(Instruction::Binary(BinaryOp::Div, Width::Word, ArgKind::Reg, ArgKind::Num)),
        ops::DIV_REG_ADDR_BYTE => Some(Instruction::Binary(BinaryOp::Div, Width::Byte, ArgKind::Reg, ArgKind::Addr)),
        ops::DIV_REG_ADDR_WORD => Some(Instruction::Binary(BinaryOp::Div, Width::Word, ArgKind::Reg, ArgKind::Addr)),
        ops::DIV_ADDR_REG_BYTE => Some(Instruction::Binary(BinaryOp::Div, Width::Byte, ArgKind::Addr, ArgKind::Reg)),
        ops::DIV_ADDR_REG_WORD => Some(Instruction::Binary(BinaryOp::Div, Width::Word, ArgKind::Addr, ArgKind::Reg)),
        ops::DIV_ADDR_NUM_BYTE => Some(Instruction::Binary(BinaryOp::Div, Width::Byte, ArgKind::Addr, ArgKind::Num)),
        ops::DIV_ADDR_NUM_WORD => Some(Instruction::Binary(BinaryOp::Div, Width::Word, ArgKind::Addr, ArgKind::Num)),
        ops::DIV_ADDR_ADDR_BYTE => Some(Instruction::Binary(BinaryOp::Div, Width::Byte, ArgKind::Addr, ArgKind::Addr)),
        ops::DIV_ADDR_ADDR_WORD => Some(Instruction::Binary(BinaryOp::Div, Width::Word, ArgKind::Addr, ArgKind::Addr)),
        ops::DIVS_REG_REG_BYTE => Some(Instruction::Binary(BinaryOp::Divs, Width::Byte, ArgKind::Reg, ArgKind::Reg)),
        ops::DIVS_REG_REG_WORD => Some(Instruction::Binary(BinaryOp::Divs, Width::Word, ArgKind::Reg, ArgKind::Reg)),
        ops::DIVS_REG_NUM_BYTE => Some(Instruction::Binary(BinaryOp::Divs, Width::Byte, ArgKind::Reg, ArgKind::Num)),
        ops::DIVS_REG_NUM_WORD => Some(Instruction::Binary(BinaryOp::Divs, Width::Word, ArgKind::Reg, ArgKind::Num)),
        ops::DIVS_REG_ADDR_BYTE => Some(Instruction::Binary(BinaryOp::Divs, Width::Byte, ArgKind::Reg, ArgKind::Addr)),
        ops::DIVS_REG_ADDR_WORD => Some(Instruction::Binary(BinaryOp::Divs, Width::Word, ArgKind::Reg, ArgKind::Addr)),
        ops::DIVS_ADDR_REG_BYTE => Some(Instruction::Binary(BinaryOp::Divs, Width::Byte, ArgKind::Addr, ArgKind::Reg)),
        ops::DIVS_ADDR_REG_WORD => Some(Instruction::Binary(BinaryOp::Divs, Width::Word, ArgKind::Addr, ArgKind::Reg)),
        ops::DIVS_ADDR_NUM_BYTE => Some(Instruction::Binary(BinaryOp::Divs, Width::Byte, ArgKind::Addr, ArgKind::Num)),
        ops::DIVS_ADDR_NUM_WORD => Some(Instruction::Binary(BinaryOp::Divs, Width::Word, ArgKind::Addr, ArgKind::Num)),
        ops::DIVS_ADDR_ADDR_BYTE => Some(Instruction::Binary(BinaryOp::Divs, Width::Byte, ArgKind::Addr, ArgKind::Addr)),
        ops::DIVS_ADDR_ADDR_WORD => Some(Instruction::Binary(BinaryOp::Divs, Width::Word, ArgKind::Addr, ArgKind::Addr)),
        ops::JMP_ADDR => Some(Instruction::Jump(Condition::Always, ArgKind::Addr)),
        ops::JMP_REG => Some(Instruction::Jump(Condition::Always, ArgKind::Reg)),
        ops::JE_ADDR => Some(Instruction::Jump(Condition::Equal, ArgKind::Addr)),
        ops::JE_REG => Some(Instruction::Jump(Condition::Equal, ArgKind::Reg)),
        ops::JNE_ADDR => Some(Instruction::Jump(Condition::NotEqual, ArgKind::Addr)),
        ops::JNE_REG => Some(Instruction::Jump(Condition::NotEqual, ArgKind::Reg)),
        ops::JL_ADDR => Some(Instruction::Jump(Condition::Less, ArgKind::Addr)),
        ops::JL_REG => Some(Instruction::Jump(Condition::Less, ArgKind::Reg)),
        ops::JG_ADDR => Some(Instruction::Jump(Condition::Greater, ArgKind::Addr)),
        ops::JG_REG => Some(Instruction::Jump(Condition::Greater, ArgKind::Reg)),
        ops::JLE_ADDR => Some(Instruction::Jump(Condition::LessOrEqual, ArgKind::Addr)),
        ops::JLE_REG => Some(Instruction::Jump(Condition::LessOrEqual, ArgKind::Reg)),
        ops::JGE_ADDR => Some(Instruction::Jump(Condition::GreaterOrEqual, ArgKind::Addr)),
        ops::JGE_REG => Some(Instruction::Jump(Condition::GreaterOrEqual, ArgKind::Reg)),
        ops::CMP_REG_NUM_BYTE => Some(Instruction::Compare(false, Width::Byte, ArgKind::Num)),
        ops::CMP_REG_NUM_WORD => Some(Instruction::Compare(false, Width::Word, ArgKind::Num)),
        ops::CMP_REG_REG_BYTE => Some(Instruction::Compare(false, Width::Byte, ArgKind::Reg)),
        ops::CMP_REG_REG_WORD => Some(Instruction::Compare(false, Width::Word, ArgKind::Reg)),
        ops::CMPS_REG_NUM_BYTE => Some(Instruction::Compare(true, Width::Byte, ArgKind::Num)),
        ops::CMPS_REG_NUM_WORD => Some(Instruction::Compare(true, Width::Word, ArgKind::Num)),
        ops::CMPS_REG_REG_BYTE => Some(Instruction::Compare(true, Width::Byte, ArgKind::Reg)),
        ops::CMPS_REG_REG_WORD => Some(Instruction::Compare(true, Width::Word, ArgKind::Reg)),
        ops::JBC_REG_REG => Some(Instruction::JumpOnFlags(false, ArgKind::Reg, ArgKind::Reg)),
        ops::JBS_REG_REG => Some(Instruction::JumpOnFlags(true, ArgKind::Reg, ArgKind::Reg)),
        ops::JBC_ADDR_REG => Some(Instruction::JumpOnFlags(false, ArgKind::Addr, ArgKind::Reg)),
        ops::JBS_ADDR_REG => Some(Instruction::JumpOnFlags(true, ArgKind::Addr, ArgKind::Reg)),
        ops::JBC_REG_NUM => Some(Instruction::JumpOnFlags(false, ArgKind::Reg, ArgKind::Num)),
        ops::JBS_REG_NUM => Some(Instruction::JumpOnFlags(true, ArgKind::Reg, ArgKind::Num)),
        ops::JBC_ADDR_NUM => Some(Instruction::JumpOnFlags(false, ArgKind::Addr, ArgKind::Num)),
        ops::JBS_ADDR_NUM => Some(Instruction::JumpOnFlags(true, ArgKind::Addr, ArgKind::Num)),
        ops::RCL_REG_NUM_BYTE => Some(Instruction::Shift(ShiftOp::Rcl, Width::Byte, ShiftForm::RegNum)),
        ops::RCL_REG_NUM_WORD => Some(Instruction::Shift(ShiftOp::Rcl, Width::Word, ShiftForm::RegNum)),
        ops::RCL_REG_REG_BYTE => Some(Instruction::Shift(ShiftOp::Rcl, Width::Byte, ShiftForm::RegReg)),
        ops::RCL_REG_REG_WORD => Some(Instruction::Shift(ShiftOp::Rcl, Width::Word, ShiftForm::RegReg)),
        ops::RCL_ADDR_BYTE => Some(Instruction::Shift(ShiftOp::Rcl, Width::Byte, ShiftForm::Addr)),
        ops::RCL_ADDR_WORD => Some(Instruction::Shift(ShiftOp::Rcl, Width::Word, ShiftForm::Addr)),
        ops::RCR_REG_NUM_BYTE => Some(Instruction::Shift(ShiftOp::Rcr, Width::Byte, ShiftForm::RegNum)),
        ops::RCR_REG_NUM_WORD => Some(Instruction::Shift(ShiftOp::Rcr, Width::Word, ShiftForm::RegNum)),
        ops::RCR_REG_REG_BYTE => Some(Instruction::Shift(ShiftOp::Rcr, Width::Byte, ShiftForm::RegReg)),
        ops::RCR_REG_REG_WORD => Some(Instruction::Shift(ShiftOp::Rcr, Width::Word, ShiftForm::RegReg)),
        ops::RCR_ADDR_BYTE => Some(Instruction::Shift(ShiftOp::Rcr, Width::Byte, ShiftForm::Addr)),
        ops::RCR_ADDR_WORD => Some(Instruction::Shift(ShiftOp::Rcr, Width::Word, ShiftForm::Addr)),
        ops::ADDC_REG_REG_BYTE => Some(Instruction::Binary(BinaryOp::Addc, Width::Byte, ArgKind::Reg, ArgKind::Reg)),
        ops::ADDC_REG_REG_WORD => Some(Instruction::Binary(BinaryOp::Addc, Width::Word, ArgKind::Reg, ArgKind::Reg)),
        ops::ADDC_REG_NUM_BYTE => Some(Instruction::Binary(BinaryOp::Addc, Width::Byte, ArgKind::Reg, ArgKind::Num)),
        ops::ADDC_REG_NUM_WORD => Some(Instruction::Binary(BinaryOp::Addc, Width::Word, ArgKind::Reg, ArgKind::Num)),
        ops::ADDC_REG_ADDR_BYTE => Some(Instruction::Binary(BinaryOp::Addc, Width::Byte, ArgKind::Reg, ArgKind::Addr)),
        ops::ADDC_REG_ADDR_WORD => Some(Instruction::Binary(BinaryOp::Addc, Width::Word, ArgKind::Reg, ArgKind::Addr)),
        ops::ADDC_ADDR_REG_BYTE => Some(Instruction::Binary(BinaryOp::Addc, Width::Byte, ArgKind::Addr, ArgKind::Reg)),
        ops::ADDC_ADDR_REG_WORD => Some(Instruction::Binary(BinaryOp::Addc, Width::Word, ArgKind::Addr, ArgKind::Reg)),
        ops::ADDC_ADDR_NUM_BYTE => Some(Instruction::Binary(BinaryOp::Addc, Width::Byte, ArgKind::Addr, ArgKind::Num)),
        ops::ADDC_ADDR_NUM_WORD => Some(Instruction::Binary(BinaryOp::Addc, Width::Word, ArgKind::Addr, ArgKind::Num)),
        ops::ADDC_ADDR_ADDR_BYTE => Some(Instruction::Binary(BinaryOp::Addc, Width::Byte, ArgKind::Addr, ArgKind::Addr)),
        ops::ADDC_ADDR_ADDR_WORD => Some(Instruction::Binary(BinaryOp::Addc, Width::Word, ArgKind::Addr, ArgKind::Addr)),
        ops::SUBC_REG_REG_BYTE => Some(Instruction::Binary(BinaryOp::Subc, Width::Byte, ArgKind::Reg, ArgKind::Reg)),
        ops::SUBC_REG_REG_WORD => Some(Instruction::Binary(BinaryOp::Subc, Width::Word, ArgKind::Reg, ArgKind::Reg)),
        ops::SUBC_REG_NUM_BYTE => Some(Instruction::Binary(BinaryOp::Subc, Width::Byte, ArgKind::Reg, ArgKind::Num)),
        ops::SUBC_REG_NUM_WORD => Some(Instruction::Binary(BinaryOp::Subc, Width::Word, ArgKind::Reg, ArgKind::Num)),
        ops::SUBC_REG_ADDR_BYTE => Some(Instruction::Binary(BinaryOp::Subc, Width::Byte, ArgKind::Reg, ArgKind::Addr)),
        ops::SUBC_REG_ADDR_WORD => Some(Instruction::Binary(BinaryOp::Subc, Width::Word, ArgKind::Reg, ArgKind::Addr)),
        ops::SUBC_ADDR_REG_BYTE => Some(Instruction::Binary(BinaryOp::Subc, Width::Byte, ArgKind::Addr, ArgKind::Reg)),
        ops::SUBC_ADDR_REG_WORD => Some(Instruction::Binary(BinaryOp::Subc, Width::Word, ArgKind::Addr, ArgKind::Reg)),
        ops::SUBC_ADDR_NUM_BYTE => Some(Instruction::Binary(BinaryOp::Subc, Width::Byte, ArgKind::Addr, ArgKind::Num)),
        ops::SUBC_ADDR_NUM_WORD => Some(Instruction::Binary(BinaryOp::Subc, Width::Word, ArgKind::Addr, ArgKind::Num)),
        ops::SUBC_ADDR_ADDR_BYTE => Some(Instruction::Binary(BinaryOp::Subc, Width::Byte, ArgKind::Addr, ArgKind::Addr)),
        ops::SUBC_ADDR_ADDR_WORD => Some(Instruction::Binary(BinaryOp::Subc, Width::Word, ArgKind::Addr, ArgKind::Addr)),
        ops::EHALT => Some(Instruction::Ehalt),
        _ => None,
    }
}

impl VM {
    /// Halts the machine.
    pub fn halt(&mut self)
        ensures
            final(self)@ == old(self)@.halt(),
    {
        self.halted = true;
    }

    /// NOP: three cycles.
    fn run_nop(&mut self) -> (r: Result<(bool, usize), VmError>)
        ensures
            final(self)@ == old(self)@.run(Instruction::Nop).0,
            r == old(self)@.run(Instruction::Nop).1,
            r matches Ok(v) ==> v.1 <= 150000,
    {
        Ok((false, 3))
    }

    /// HALT: the machine stops where it stands.
    fn run_halt(&mut self) -> (r: Result<(bool, usize), VmError>)
        ensures
            final(self)@ == old(self)@.run(Instruction::Halt).0,
            r == old(self)@.run(Instruction::Halt).1,
            r matches Ok(v) ==> v.1 <= 150000,
    {
        self.halt();
        Ok((true, 0))
    }

    /// EHALT: the program reports an error.
    fn run_ehalt(&mut self) -> (r: Result<(bool, usize), VmError>)
        ensures
            final(self)@ == old(self)@.run(Instruction::Ehalt).0,
            r == old(self)@.run(Instruction::Ehalt).1,
            r matches Ok(v) ==> v.1 <= 150000,
    {
        Err(VmError::HaltedByProgram)
    }

    /// RET.
    fn run_ret(&mut self) -> (r: Result<(bool, usize), VmError>)
        ensures
            final(self)@ == old(self)@.run(Instruction::Ret).0,
            r == old(self)@.run(Instruction::Ret).1,
            r matches Ok(v) ==> v.1 <= 150000,
    {
        let cost: usize = self.ret();
        Ok((true, cost))
    }

    /// RETI: four cycles.
    fn run_reti(&mut self) -> (r: Result<(bool, usize), VmError>)
        ensures
            final(self)@ == old(self)@.run(Instruction::Reti).0,
            r == old(self)@.run(Instruction::Reti).1,
            r matches Ok(v) ==> v.1 <= 150000,
    {
        self.return_from_interrupt();
        Ok((true, 4))
    }

    /// CALL.
    fn run_call(&mut self, kind: ArgKind) -> (r: Result<(bool, usize), VmError>)
        ensures
            final(self)@ == old(self)@.run(Instruction::Call(kind)).0,
            r == old(self)@.run(Instruction::Call(kind)).1,
            r matches Ok(v) ==> v.1 <= 150000,
    {
        let step: Result<usize, VmError> = self.call(kind);
        go(step)
    }

    /// CPY.
    fn run_copy(&mut self, width: Width, dst: ArgKind, src: ArgKind) -> (r: Result<(bool, usize), VmError>)
        ensures
            final(self)@ == old(self)@.run(Instruction::Copy(width, dst, src)).0,
            r == old(self)@.run(Instruction::Copy(width, dst, src)).1,
            r matches Ok(v) ==> v.1 <= 150000,
    {
        let step: Result<usize, VmError> = self.copy(width, dst, src);
        stay(step)
    }

    /// Arithmetic and logic on two operands.
    fn run_binary(&mut self, op: BinaryOp, width: Width, dst: ArgKind, src: ArgKind) -> (r: Result<(bool, usize), VmError>)
        ensures
            final(self)@ == old(self)@.run(Instruction::Binary(op, width, dst, src)).0,
            r == old(self)@.run(Instruction::Binary(op, width, dst, src)).1,
            r matches Ok(v) ==> v.1 <= 150000,
    {
        let step: Result<usize, VmError> = self.binary(op, width, dst, src);
        stay(step)
    }

    /// INC, DEC and NOT.
    fn run_unary(&mut self, op: UnaryOp, width: Width, kind: ArgKind) -> (r: Result<(bool, usize), VmError>)
        ensures
            final(self)@ == old(self)@.run(Instruction::Unary(op, width, kind)).0,
            r == old(self)@.run(Instruction::Unary(op, width, kind)).1,
            r matches Ok(v) ==> v.1 <= 150000,
    {
        let step: Result<usize, VmError> = self.unary(op, width, kind);
        stay(step)
    }

    /// CMP and CMPS.
    fn run_compare(&mut self, signed: bool, width: Width, src: ArgKind) -> (r: Result<(bool, usize), VmError>)
        ensures
            final(self)@ == old(self)@.run(Instruction::Compare(signed, width, src)).0,
            r == old(self)@.run(Instruction::Compare(signed, width, src)).1,
            r matches Ok(v) ==> v.1 <= 150000,
    {
        let step: Result<usize, VmError> = self.compare(signed, width, src);
        stay(step)
    }

    /// Shifts and rotates.
    fn run_shift(&mut self, op: ShiftOp, width: Width, form: ShiftForm) -> (r: Result<(bool, usize), VmError>)
        ensures
            final(self)@ == old(self)@.run(Instruction::Shift(op, width, form)).0,
            r == old(self)@.run(Instruction::Shift(op, width, form)).1,
            r matches Ok(v) ==> v.1 <= 150000,
    {
        let step: Result<usize, VmError> = self.shift(op, width, form);
        stay(step)
    }

    /// Jumps on a condition.
    fn run_jump(&mut self, condition: Condition, kind: ArgKind) -> (r: Result<(bool, usize), VmError>)
        ensures
            final(self)@ == old(self)@.run(Instruction::Jump(condition, kind)).0,
            r == old(self)@.run(Instruction::Jump(condition, kind)).1,
            r matches Ok(v) ==> v.1 <= 150000,
    {
        self.jump(condition, kind)
    }

    /// JRF and JRB.
    fn run_jump_relative(&mut self, forward: bool) -> (r: Result<(bool, usize), VmError>)
        ensures
            final(self)@ == old(self)@.run(Instruction::JumpRelative(forward)).0,
            r == old(self)@.run(Instruction::JumpRelative(forward)).1,
            r matches Ok(v) ==> v.1 <= 150000,
    {
        Ok(self.jump_relative(forward))
    }

    /// JBS and JBC.
    fn run_jump_on_flags(&mut self, required: bool, dst: ArgKind, mask: ArgKind) -> (r: Result<(bool, usize), VmError>)
        ensures
            final(self)@ == old(self)@.run(Instruction::JumpOnFlags(required, dst, mask)).0,
            r == old(self)@.run(Instruction::JumpOnFlags(required, dst, mask)).1,
            r matches Ok(v) ==> v.1 <= 150000,
    {
        self.jump_on_flags(required, dst, mask)
    }

    /// PUSH.
    fn run_push(&mut self, width: Width, kind: ArgKind) -> (r: Result<(bool, usize), VmError>)
        ensures
            final(self)@ == old(self)@.run(Instruction::Push(width, kind)).0,
            r == old(self)@.run(Instruction::Push(width, kind)).1,
            r matches Ok(v) ==> v.1 <= 150000,
    {
        let step: Result<usize, VmError> = self.push(width, kind);
        stay(step)
    }

    /// POP.
    fn run_pop(&mut self, width: Width) -> (r: Result<(bool, usize), VmError>)
        ensures
            final(self)@ == old(self)@.run(Instruction::Pop(width)).0,
            r == old(self)@.run(Instruction::Pop(width)).1,
            r matches Ok(v) ==> v.1 <= 150000,
    {
        let step: Result<usize, VmError> = self.pop(width);
        stay(step)
    }

    /// MEM_CPY and MSWP.
    fn run_block(&mut self, op: BlockOp, dst: ArgKind, src: ArgKind, count: ArgKind) -> (r: Result<(bool, usize), VmError>)
        ensures
            final(self)@ == old(self)@.run(Instruction::Block(op, dst, src, count)).0,
            r == old(self)@.run(Instruction::Block(op, dst, src, count)).1,
            r matches Ok(v) ==> v.1 <= 150000,
    {
        let step: Result<usize, VmError> = self.block(op, dst, src, count);
        stay(step)
    }

    /// SWAP.
    fn run_swap(&mut self, width: Width) -> (r: Result<(bool, usize), VmError>)
        ensures
            final(self)@ == old(self)@.run(Instruction::Swap(width)).0,
            r == old(self)@.run(Instruction::Swap(width)).1,
            r matches Ok(v) ==> v.1 <= 150000,
    {
        let step: Result<usize, VmError> = self.swap(width);
        stay(step)
    }

    /// Executes one instruction. Returns whether the instruction has set the
    /// program counter, and the cycles used.
    pub fn run(&mut self, instruction: Instruction) -> (r: Result<(bool, usize), VmError>)
        ensures
            final(self)@ == old(self)@.run(instruction).0,
            r == old(self)@.run(instruction).1,
            r matches Ok(v) ==> v.1 <= 150000,
    {
        match instruction {
            Instruction::Nop => self.run_nop(),
            Instruction::Halt => self.run_halt(),
            Instruction::Ehalt => self.run_ehalt(),
            Instruction::Ret => self.run_ret(),
            Instruction::Reti => self.run_reti(),
            Instruction::Call(kind) => self.run_call(kind),
            Instruction::Copy(width, dst, src) => self.run_copy(width, dst, src),
            Instruction::Binary(op, width, dst, src) => self.run_binary(op, width, dst, src),
            Instruction::Unary(op, width, kind) => self.run_unary(op, width, kind),
            Instruction::Compare(signed, width, src) => self.run_compare(signed, width, src),
            Instruction::Shift(op, width, form) => self.run_shift(op, width, form),
            Instruction::Jump(condition, kind) => self.run_jump(condition, kind),
            Instruction::JumpRelative(forward) => self.run_jump_relative(forward),
            Instruction::JumpOnFlags(required, dst, mask) => self.run_jump_on_flags(required, dst, mask),
            Instruction::Push(width, kind) => self.run_push(width, kind),
            Instruction::Pop(width) => self.run_pop(width),
            Instruction::Block(op, dst, src, count) => self.run_block(op, dst, src, count),
            Instruction::Swap(width) => self.run_swap(width),
        }
    }

    /// Executes the instruction with the opcode `op`, whose operands start
    /// at the operand pointer. Returns whether the instruction has set the
    /// program counter, so that the machine is not to advance it, and the
    /// cycles used.
    pub fn execute(&mut self, op: u8) -> (r: Result<(bool, usize), VmError>)
        ensures
            final(self)@ == old(self)@.execute(op).0,
            r == old(self)@.execute(op).1,
            r matches Ok(v) ==> v.1 <= 150000,
    {
        match decode(op) {
            Some(instruction) => self.run(instruction),
            None => Err(VmError::UnsupportedOp(op)),
        }
    }
}

} // verus!
