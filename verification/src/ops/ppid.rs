//! Pre and post adjustment of operands, and the offsets of indexed modes.

use vstd::prelude::*;
use crate::error::VmError;
use crate::model::Machine;
use crate::register::Register;
use crate::types::{Byte, Word};
use crate::vm::VM;

verus! {

impl VM {
    /// Applies the adjustment of an operand that falls on one side of the
    /// access: the register moves by `op_size`, modulo its own width.
    /// Returns the cycles used.
    pub fn process_arg(&mut self, reg: &Register, op_size: u8, is_post: bool) -> (cost: usize)
        requires
            reg.wf(),
        ensures
            final(self)@ == old(self)@.process_arg(*reg, op_size, is_post).0,
            cost == old(self)@.process_arg(*reg, op_size, is_post).1,
            cost <= 2,
    {
        proof {
            reveal(Machine::process_arg);
        }
        if reg.is_calc && reg.is_post == is_post {
            if reg.size == 2 {
                let value: Word = Word(
                    self.registers[reg.addr] as u16 * 256 + self.registers[reg.addr + 1] as u16,
                );
                let step: Word = Word(op_size as u16);
                let next: Word = if reg.is_inc {
                    value.wrapping_add(step)
                } else {
                    value.wrapping_sub(step)
                };
                match self.write_word_reg_value(reg, next.0) {
                    Ok(cost) => cost,
                    Err(_) => 2,
                }
            } else {
                let value: Byte = Byte(self.registers[reg.addr]);
                let step: Byte = Byte(op_size);
                let next: Byte = if reg.is_inc {
                    value.wrapping_add(step)
                } else {
                    value.wrapping_sub(step)
                };
                self.write_byte_reg_value(reg, next.0)
            }
        } else {
            0
        }
    }

    /// Runs what comes before the access through an operand: the
    /// pre-adjustment, and the reading of the offset of an indexed mode.
    /// Returns the offset and the cycles used.
    pub fn pre_process(&mut self, reg: &Register, op_size: u8) -> (r: Result<(i16, usize), VmError>)
        requires
            reg.wf(),
        ensures
            final(self)@ == old(self)@.pre_process(*reg, op_size).0,
            r == old(self)@.pre_process(*reg, op_size).1,
            r matches Ok(v) ==> v.1 <= 4,
    {
        proof {
            reveal(Machine::pre_process);
        }
        let process_cost: usize = self.process_arg(reg, op_size, false);
        if reg.is_offset_num {
            let word: u16 = self.read_arg_word();
            Ok((Self::to_signed(word), process_cost))
        } else if reg.is_offset_reg {
            let offset_reg: Register = self.read_arg_register()?;
            let value: (u8, usize) = self.read_byte_reg_value(&offset_reg);
            Ok((value.0 as i16, value.1 + process_cost))
        } else if reg.is_offset_ext_reg {
            let offset_reg: Register = self.read_arg_register()?;
            let value: (u16, usize) = self.read_word_reg_value(&offset_reg)?;
            Ok((Self::to_signed(value.0), value.1 + process_cost))
        } else {
            Ok((0, process_cost))
        }
    }

    /// Runs what comes after the access through an operand: the
    /// post-adjustment. Returns the cycles used.
    pub fn post_process(&mut self, reg: &Register, op_size: u8) -> (cost: usize)
        requires
            reg.wf(),
        ensures
            final(self)@ == old(self)@.post_process(*reg, op_size).0,
            cost == old(self)@.post_process(*reg, op_size).1,
            cost <= 2,
    {
        self.process_arg(reg, op_size, true)
    }
}

} // verus!
