//! SWAP, and the interrupt entry and return.

use vstd::prelude::*;
use crate::constants::registers::flags::INTERRUPTS;
use crate::error::VmError;
use crate::flags::flag_set;
use crate::mem::address;
use crate::mem::interrupt;
use crate::mem::interrupt_flags;
use crate::model::{overlay, Machine};
use crate::ops::operand::{ArgKind, Operand, Pair, Width};
use crate::vm::{copy_bank, VM};

verus! {

/// The address that the program counter is set to when an interrupt is
/// accepted; none for a value that names no interrupt.
pub open spec fn vector_of(interrupt_id: u8) -> Option<u16> {
    if interrupt_id == interrupt_flags::IRQ_CONTROLLER {
        Some(interrupt::IRQ_CONTROLLER)
    } else if interrupt_id == interrupt_flags::IRQ_DATETIME {
        Some(interrupt::IRQ_DATETIME)
    } else if interrupt_id == interrupt_flags::IRQ_INPUT {
        Some(interrupt::IRQ_INPUT)
    } else if interrupt_id == interrupt_flags::IRQ_LINE_DRAW {
        Some(interrupt::IRQ_LINE_DRAW)
    } else if interrupt_id == interrupt_flags::IRQ_SCREEN_DRAW {
        Some(interrupt::IRQ_SCREEN_DRAW)
    } else if interrupt_id == interrupt_flags::IRQ_TIMER {
        Some(interrupt::IRQ_TIMER)
    } else {
        None
    }
}

impl Machine {
    /// SWAP: the values of two register operands are exchanged. Between two
    /// registers addressed directly it takes one cycle and those of the
    /// post-adjustments; otherwise the cycles of every step.
    #[verifier::opaque]
    pub open spec fn swap(self, width: Width) -> (Machine, Result<usize, VmError>) {
        let (m1, setup) = self.setup_two(ArgKind::Reg, ArgKind::Reg, width);
        match setup {
            Err(e) => (m1, Err(e)),
            Ok(pair) => match m1.load(pair.dst, width, pair.dst_offset) {
                Err(e) => (m1, Err(e)),
                Ok(lhs) => match m1.load(pair.src, width, pair.src_offset) {
                    Err(e) => (m1, Err(e)),
                    Ok(rhs) => {
                        let (m2, first) = m1.save(pair.dst, width, pair.dst_offset, rhs.0);
                        match first {
                            Err(e) => (m2, Err(e)),
                            Ok(c1) => {
                                let (m3, second) = m2.save(pair.src, width, pair.src_offset, lhs.0);
                                match second {
                                    Err(e) => (m3, Err(e)),
                                    Ok(c2) => {
                                        let (m4, post_dst) = m3.finish(pair.dst, width);
                                        let (m5, post_src) = m4.finish(pair.src, width);
                                        let access: int = if pair.dst.is_direct_register()
                                            && pair.src.is_direct_register() {
                                            1
                                        } else {
                                            pair.cost + lhs.1 + rhs.1 + c1 + c2
                                        };
                                        (m5, Ok((access + post_dst + post_src) as usize))
                                    },
                                }
                            },
                        }
                    },
                },
            },
        }
    }

    /// Whether an interrupt would be accepted: interrupts are enabled, and
    /// every bit of the id is set in the interrupt control byte.
    pub open spec fn accepts(self, interrupt_id: u8) -> bool {
        self.check_flag(INTERRUPTS) && flag_set(
            self.memory[address::IRQ_CONTROL as int],
            interrupt_id,
        )
    }

    /// Entering an interrupt: the register file is copied to the dump area,
    /// the program counter is stored in the return slot, INTERRUPTS is
    /// cleared, and the program counter is set to the vector.
    pub open spec fn enter_interrupt(self, vector: u16) -> Machine {
        Machine {
            memory: overlay(self.memory, address::IRQ_REG_DUMP as int, self.registers),
            ..self
        }.store_word(address::IRQ_RET_ADDR as u16, self.pc).update_flag(INTERRUPTS, false).goto(
            vector,
        )
    }

    /// RETI: the register file is restored from the dump area, and the
    /// program counter from the return slot.
    #[verifier::opaque]
    pub open spec fn return_from_interrupt(self) -> Machine {
        Machine {
            registers: self.memory.subrange(
                address::IRQ_REG_DUMP as int,
                address::IRQ_REG_DUMP + 9,
            ),
            pc: self.read_word_mem(address::IRQ_RET_ADDR as u16),
            ..self
        }
    }
}

impl VM {
    /// Executes a SWAP. Returns the cycles used.
    pub fn swap(&mut self, width: Width) -> (r: Result<usize, VmError>)
        ensures
            final(self)@ == old(self)@.swap(width).0,
            r == old(self)@.swap(width).1,
            r matches Ok(cost) ==> cost <= 200,
    {
        proof {
            reveal(Machine::swap);
        }
        let pair: Pair = self.setup_two(ArgKind::Reg, ArgKind::Reg, width)?;
        let lhs: (u16, usize) = self.load(&pair.dst, width, pair.dst_offset)?;
        let rhs: (u16, usize) = self.load(&pair.src, width, pair.src_offset)?;
        let c1: usize = self.save(&pair.dst, width, pair.dst_offset, rhs.0)?;
        let c2: usize = self.save(&pair.src, width, pair.src_offset, lhs.0)?;
        let post_dst: usize = self.finish(&pair.dst, width);
        let post_src: usize = self.finish(&pair.src, width);
        let direct: bool = match (pair.dst, pair.src) {
            (Operand::Reg(d), Operand::Reg(s)) => !d.is_indirect && !s.is_indirect,
            _ => false,
        };
        let access: usize = if direct {
            1
        } else {
            pair.cost + lhs.1 + rhs.1 + c1 + c2
        };
        Ok(access + post_dst + post_src)
    }

    /// The vector of an interrupt.
    pub fn vector(interrupt_id: u8) -> (r: Option<u16>)
        ensures
            r == vector_of(interrupt_id),
    {
        match interrupt_id {
            interrupt_flags::IRQ_CONTROLLER => Some(interrupt::IRQ_CONTROLLER),
            interrupt_flags::IRQ_DATETIME => Some(interrupt::IRQ_DATETIME),
            interrupt_flags::IRQ_INPUT => Some(interrupt::IRQ_INPUT),
            interrupt_flags::IRQ_LINE_DRAW => Some(interrupt::IRQ_LINE_DRAW),
            interrupt_flags::IRQ_SCREEN_DRAW => Some(interrupt::IRQ_SCREEN_DRAW),
            interrupt_flags::IRQ_TIMER => Some(interrupt::IRQ_TIMER),
            _ => None,
        }
    }

    /// Whether an interrupt would be accepted.
    pub fn accepts(&self, interrupt_id: u8) -> (r: bool)
        ensures
            r == self@.accepts(interrupt_id),
    {
        self.check_flag(INTERRUPTS) && crate::flags::check(
            self.memory[address::IRQ_CONTROL],
            interrupt_id,
        )
    }

    /// Enters an interrupt at its vector.
    pub fn enter_interrupt(&mut self, vector: u16)
        ensures
            final(self)@ == old(self)@.enter_interrupt(vector),
    {
        copy_bank(&mut self.memory, address::IRQ_REG_DUMP, &self.registers);
        assert(self@ =~= (Machine {
            memory: overlay(old(self)@.memory, address::IRQ_REG_DUMP as int, old(self)@.registers),
            ..old(self)@
        }));
        let back: u16 = self.pc;
        self.store_word(address::IRQ_RET_ADDR as u16, back);
        self.clear_flag(INTERRUPTS);
        self.goto(vector);
    }

    /// Restores the registers and the program counter that the last
    /// interrupt saved.
    pub fn return_from_interrupt(&mut self)
        ensures
            final(self)@ == old(self)@.return_from_interrupt(),
    {
        proof {
            reveal(Machine::return_from_interrupt);
        }
        let mut i: usize = 0;
        while i < 9
            invariant
                i <= 9,
                self.memory == old(self).memory,
                self.pc == old(self).pc,
                self.ram_banks == old(self).ram_banks,
                self.code_banks == old(self).code_banks,
                self.save_banks == old(self).save_banks,
                self.atlas_banks == old(self).atlas_banks,
                self.save_dirty_flag == old(self).save_dirty_flag,
                self.error == old(self).error,
                self.fault == old(self).fault,
                self.halted == old(self).halted,
                self.op_executed == old(self).op_executed,
                self.cycles_executed == old(self).cycles_executed,
                self.arg_ptr == old(self).arg_ptr,
                self.sound_writes == old(self).sound_writes,
                forall|j: int| 0 <= j < i ==> self.registers@[j] == self.memory@[address::IRQ_REG_DUMP + j],
            decreases 9 - i,
        {
            self.registers[i] = self.memory[address::IRQ_REG_DUMP + i];
            i = i + 1;
        }
        self.pc = self.read_word_mem(address::IRQ_RET_ADDR as u16).0;
        assert(self@ =~= old(self)@.return_from_interrupt());
    }
}

} // verus!
