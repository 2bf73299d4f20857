//! Control transfer: jumps on the outcome of the last comparison, relative
//! jumps, and jumps on the bits of the flags register.

use vstd::prelude::*;
use crate::constants::registers::flags::{GREATER_THAN, LESS_THAN};
use crate::error::VmError;
use crate::flags::flag_set;
use crate::model::Machine;
use crate::ops::operand::{ArgKind, Operand, Single, Width};
use crate::vm::VM;

verus! {

/// When a jump is taken.
#[derive(Copy, Clone, Debug, Eq, PartialEq, Structural)]
pub enum Condition {
    Always,
    Equal,
    NotEqual,
    Less,
    Greater,
    LessOrEqual,
    GreaterOrEqual,
}

impl Condition {
    /// Whether the condition holds of a flags byte. Equal is neither
    /// LESS_THAN nor GREATER_THAN; the other conditions are a flag or its
    /// negation.
    pub open spec fn holds(self, flags: u8) -> bool {
        let less = flag_set(flags, LESS_THAN);
        let greater = flag_set(flags, GREATER_THAN);
        match self {
            Condition::Always => true,
            Condition::Equal => !less && !greater,
            Condition::NotEqual => less || greater,
            Condition::Less => less,
            Condition::Greater => greater,
            Condition::LessOrEqual => !greater,
            Condition::GreaterOrEqual => !less,
        }
    }
}

impl Machine {
    /// The machine with the program counter replaced.
    pub open spec fn goto(self, target: u16) -> Machine {
        Machine { pc: target, ..self }
    }

    /// The target that a jump operand names: an address itself, or the word
    /// that a register operand gives. With the cycles of reading it.
    #[verifier::opaque]
    pub open spec fn target(self, operand: Operand, offset: i16) -> Result<(u16, usize), VmError> {
        match operand {
            Operand::Reg(_) => self.load(operand, Width::Word, offset),
            Operand::Addr(addr) => Ok((addr, 0usize)),
            Operand::Num(value) => Ok((value, 0usize)),
        }
    }

    /// A jump to an address, or to the word that a register operand gives.
    /// The operand is read whether the jump is taken or not. The result
    /// tells whether the program counter was set.
    #[verifier::opaque]
    pub open spec fn jump(self, condition: Condition, kind: ArgKind) -> (Machine, Result<(bool, usize), VmError>) {
        let taken = condition.holds(self.flags());
        let (m1, setup) = self.setup_one(kind, Width::Word);
        match setup {
            Err(e) => (m1, Err(e)),
            Ok(single) => match m1.target(single.dst, single.dst_offset) {
                Err(e) => (m1, Err(e)),
                Ok(target) => {
                    let m2 = if taken {
                        m1.goto(target.0)
                    } else {
                        m1
                    };
                    let (m3, post) = m2.finish(single.dst, Width::Word);
                    let base: int = if kind == ArgKind::Reg {
                        0
                    } else {
                        1
                    };
                    (m3, Ok((taken, (base + single.cost + target.1 + post) as usize)))
                },
            },
        }
    }

    /// JRF and JRB: the program counter moves forward or backward by an
    /// immediate byte, wrapping at either end of memory, in one cycle.
    #[verifier::opaque]
    pub open spec fn jump_relative(self, forward: bool) -> (Machine, (bool, usize)) {
        let (m1, distance) = self.read_arg_byte();
        let target = if forward {
            ((self.pc + distance) % 65536) as u16
        } else {
            ((self.pc - distance) % 65536) as u16
        };
        (m1.goto(target), (true, 1usize))
    }

    /// JBS and JBC: a jump that is taken when the bits of a mask are all set
    /// in the flags register (`required`) or are not (`!required`). The mask
    /// is an immediate byte or the byte that a register operand gives. A
    /// jump that is taken costs one cycle more; between an address and an
    /// immediate it costs two, and nothing when it is not taken.
    #[verifier::opaque]
    pub open spec fn jump_on_flags(self, required: bool, dst_kind: ArgKind, mask_kind: ArgKind) -> (Machine, Result<(bool, usize), VmError>) {
        let (m1, fetched_dst) = self.fetch(dst_kind, Width::Word);
        match fetched_dst {
            Err(e) => (m1, Err(e)),
            Ok(dst) => {
                let (m2, fetched_mask) = m1.fetch(mask_kind, Width::Byte);
                match fetched_mask {
                    Err(e) => (m2, Err(e)),
                    Ok(mask) => {
                        let (m3, prepared_mask) = m2.prepare(mask, Width::Byte);
                        match prepared_mask {
                            Err(e) => (m3, Err(e)),
                            Ok(pm) => {
                                let (m4, prepared_dst) = m3.prepare(dst, Width::Word);
                                match prepared_dst {
                                    Err(e) => (m4, Err(e)),
                                    Ok(pd) => match m4.load(mask, Width::Byte, pm.0) {
                                        Err(e) => (m4, Err(e)),
                                        Ok(mask_value) => match m4.target(dst, pd.0) {
                                            Err(e) => (m4, Err(e)),
                                            Ok(target) => {
                                                let (m5, post_mask) = m4.finish(mask, Width::Byte);
                                                let (m6, post_dst) = m5.finish(dst, Width::Word);
                                                let cost = pm.1 + pd.1 + mask_value.1 + target.1
                                                    + post_mask + post_dst;
                                                let bonus: int = if dst_kind != ArgKind::Reg
                                                    && mask_kind != ArgKind::Reg {
                                                    2
                                                } else {
                                                    1
                                                };
                                                if required == m6.check_flag(mask_value.0 as u8) {
                                                    (
                                                        m6.goto(target.0),
                                                        Ok((true, (cost + bonus) as usize)),
                                                    )
                                                } else {
                                                    (m6, Ok((false, cost as usize)))
                                                }
                                            },
                                        },
                                    },
                                }
                            },
                        }
                    },
                }
            },
        }
    }
}

impl VM {
    /// Whether a jump condition holds of the flags register.
    pub fn condition_holds(&self, condition: Condition) -> (r: bool)
        ensures
            r == condition.holds(self@.flags()),
    {
        let less: bool = self.check_flag(LESS_THAN);
        let greater: bool = self.check_flag(GREATER_THAN);
        match condition {
            Condition::Always => true,
            Condition::Equal => !less && !greater,
            Condition::NotEqual => less || greater,
            Condition::Less => less,
            Condition::Greater => greater,
            Condition::LessOrEqual => !greater,
            Condition::GreaterOrEqual => !less,
        }
    }

    /// Sets the program counter.
    pub fn goto(&mut self, target: u16)
        ensures
            final(self)@ == old(self)@.goto(target),
    {
        self.pc = target;
    }

    /// The target that a jump operand names, and the cycles of reading it.
    pub fn target(&self, operand: &Operand, offset: i16) -> (r: Result<(u16, usize), VmError>)
        requires
            operand.wf(),
        ensures
            r == self@.target(*operand, offset),
            r matches Ok(v) ==> v.1 <= 4,
    {
        proof {
            reveal(Machine::target);
        }
        match operand {
            Operand::Reg(_) => self.load(operand, Width::Word, offset),
            Operand::Addr(addr) => Ok((*addr, 0)),
            Operand::Num(value) => Ok((*value, 0)),
        }
    }

    /// Executes a jump on a condition. Returns whether the program counter
    /// was set, and the cycles used.
    pub fn jump(&mut self, condition: Condition, kind: ArgKind) -> (r: Result<(bool, usize), VmError>)
        ensures
            final(self)@ == old(self)@.jump(condition, kind).0,
            r == old(self)@.jump(condition, kind).1,
            r matches Ok(v) ==> v.1 <= 100,
    {
        proof {
            reveal(Machine::jump);
        }
        let taken: bool = self.condition_holds(condition);
        let single: Single = self.setup_one(kind, Width::Word)?;
        let target: (u16, usize) = self.target(&single.dst, single.dst_offset)?;
        if taken {
            self.goto(target.0);
        }
        let post: usize = self.finish(&single.dst, Width::Word);
        let base: usize = match kind {
            ArgKind::Reg => 0,
            _ => 1,
        };
        Ok((taken, base + single.cost + target.1 + post))
    }

    /// Executes a relative jump. Returns that the program counter was set,
    /// and the cycles used.
    pub fn jump_relative(&mut self, forward: bool) -> (r: (bool, usize))
        ensures
            final(self)@ == old(self)@.jump_relative(forward).0,
            r == old(self)@.jump_relative(forward).1,
            r == (true, 1usize),
    {
        proof {
            reveal(Machine::jump_relative);
        }
        let distance: u8 = self.read_arg_byte();
        let moved: u32 = if forward {
            self.pc as u32 + distance as u32
        } else {
            65536 + self.pc as u32 - distance as u32
        };
        self.goto((moved % 65536) as u16);
        (true, 1)
    }

    /// Executes a jump on the bits of the flags register. Returns whether
    /// the program counter was set, and the cycles used.
    pub fn jump_on_flags(&mut self, required: bool, dst_kind: ArgKind, mask_kind: ArgKind) -> (r:
        Result<(bool, usize), VmError>)
        ensures
            final(self)@ == old(self)@.jump_on_flags(required, dst_kind, mask_kind).0,
            r == old(self)@.jump_on_flags(required, dst_kind, mask_kind).1,
            r matches Ok(v) ==> v.1 <= 100,
    {
        proof {
            reveal(Machine::jump_on_flags);
        }
        let dst: Operand = self.fetch(dst_kind, Width::Word)?;
        let mask: Operand = self.fetch(mask_kind, Width::Byte)?;
        let pm: (i16, usize) = self.prepare(&mask, Width::Byte)?;
        let pd: (i16, usize) = self.prepare(&dst, Width::Word)?;
        let mask_value: (u16, usize) = self.load(&mask, Width::Byte, pm.0)?;
        let target: (u16, usize) = self.target(&dst, pd.0)?;
        let post_mask: usize = self.finish(&mask, Width::Byte);
        let post_dst: usize = self.finish(&dst, Width::Word);
        let cost: usize = pm.1 + pd.1 + mask_value.1 + target.1 + post_mask + post_dst;
        let both_plain: bool = match (dst_kind, mask_kind) {
            (ArgKind::Reg, _) => false,
            (_, ArgKind::Reg) => false,
            _ => true,
        };
        let bonus: usize = if both_plain { 2 } else { 1 };
        if required == self.check_flag(mask_value.0 as u8) {
            self.goto(target.0);
            Ok((true, cost + bonus))
        } else {
            Ok((false, cost))
        }
    }
}

} // verus!
