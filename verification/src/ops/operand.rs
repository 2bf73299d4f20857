//! Operands: how an instruction reads what it works on from the bytes that
//! follow its opcode, and how it reads and writes through them.

use vstd::prelude::*;
use crate::error::VmError;
use crate::model::Machine;
use crate::register::Register;
use crate::vm::VM;

verus! {

/// The width of an operation.
#[derive(Copy, Clone, Debug, Eq, PartialEq, Structural)]
pub enum Width {
    Byte,
    Word,
}

/// The three forms that an operand takes in an instruction.
#[derive(Copy, Clone, Debug, Eq, PartialEq, Structural)]
pub enum ArgKind {
    /// One operand byte that names a register and an addressing mode.
    Reg,
    /// A big-endian address.
    Addr,
    /// An immediate of the width of the operation.
    Num,
}

/// An operand as read from the instruction.
#[derive(Copy, Clone, Debug, Eq, PartialEq, Structural)]
pub enum Operand {
    Reg(Register),
    Addr(u16),
    Num(u16),
}

impl Width {
    /// Bytes in a value of this width.
    pub open spec fn bytes(self) -> u8 {
        match self {
            Width::Byte => 1,
            Width::Word => 2,
        }
    }

    /// One more than the largest value of this width.
    pub open spec fn modulus(self) -> int {
        match self {
            Width::Byte => 256,
            Width::Word => 65536,
        }
    }

    /// Whether a value lies in this width.
    pub open spec fn fits(self, value: u16) -> bool {
        value < self.modulus()
    }

    /// Whether the sign bit of a value of this width is set.
    pub open spec fn top(self, value: u16) -> bool {
        value >= self.modulus() / 2
    }

    /// Bytes in a value of this width.
    pub fn size(self) -> (r: u8)
        ensures
            r == self.bytes(),
    {
        match self {
            Width::Byte => 1,
            Width::Word => 2,
        }
    }
}

impl Operand {
    /// A register operand holds a well-formed descriptor.
    pub open spec fn wf(self) -> bool {
        match self {
            Operand::Reg(reg) => reg.wf(),
            _ => true,
        }
    }

    /// Whether the operand is a register addressed directly.
    pub open spec fn is_direct_register(self) -> bool {
        match self {
            Operand::Reg(reg) => !reg.is_indirect,
            _ => false,
        }
    }
}

/// Two operands after everything that precedes the access.
#[derive(Copy, Clone, Debug, Eq, PartialEq, Structural)]
pub struct Pair {
    pub dst: Operand,
    pub src: Operand,
    pub dst_offset: i16,
    pub src_offset: i16,
    /// Cycles used so far.
    pub cost: usize,
}

/// One operand after everything that precedes the access.
#[derive(Copy, Clone, Debug, Eq, PartialEq, Structural)]
pub struct Single {
    pub dst: Operand,
    pub dst_offset: i16,
    /// Cycles used so far.
    pub cost: usize,
}

impl Machine {
    /// Reading an operand of one form from the instruction.
    #[verifier::opaque]
    pub open spec fn fetch(self, kind: ArgKind, width: Width) -> (Machine, Result<Operand, VmError>) {
        match kind {
            ArgKind::Reg => {
                let (after, decoded) = self.read_arg_register();
                match decoded {
                    Ok(reg) => (after, Ok(Operand::Reg(reg))),
                    Err(e) => (after, Err(e)),
                }
            },
            ArgKind::Addr => {
                let (after, addr) = self.read_arg_word();
                (after, Ok(Operand::Addr(addr)))
            },
            ArgKind::Num => match width {
                Width::Byte => {
                    let (after, byte) = self.read_arg_byte();
                    (after, Ok(Operand::Num(byte as u16)))
                },
                Width::Word => {
                    let (after, word) = self.read_arg_word();
                    (after, Ok(Operand::Num(word)))
                },
            },
        }
    }

    /// What precedes the access through an operand: for a register, its
    /// pre-adjustment and offset; nothing for an address or an immediate.
    #[verifier::opaque]
    pub open spec fn prepare(self, operand: Operand, width: Width) -> (Machine, Result<(i16, usize), VmError>) {
        match operand {
            Operand::Reg(reg) => self.pre_process(reg, width.bytes()),
            _ => (self, Ok((0i16, 0usize))),
        }
    }

    /// The value that an operand gives, and the cycles that reading it
    /// takes: none for an immediate.
    #[verifier::opaque]
    pub open spec fn load(self, operand: Operand, width: Width, offset: i16) -> Result<(u16, usize), VmError> {
        match operand {
            Operand::Reg(reg) => match width {
                Width::Byte => match self.read_byte_reg(reg, offset) {
                    Ok(v) => Ok((v.0 as u16, v.1)),
                    Err(e) => Err(e),
                },
                Width::Word => self.read_word_reg(reg, offset),
            },
            Operand::Addr(addr) => match width {
                Width::Byte => Ok((self.read_byte_mem(addr) as u16, 1usize)),
                Width::Word => Ok((self.read_word_mem(addr), 2usize)),
            },
            Operand::Num(value) => Ok((value, 0usize)),
        }
    }

    /// Writing a value through an operand. An immediate takes no value.
    #[verifier::opaque]
    pub open spec fn save(self, operand: Operand, width: Width, offset: i16, value: u16) -> (Machine, Result<usize, VmError>) {
        match operand {
            Operand::Reg(reg) => match width {
                Width::Byte => self.write_byte_reg(reg, offset, value as u8),
                Width::Word => self.write_word_reg(reg, offset, value),
            },
            Operand::Addr(addr) => match width {
                Width::Byte => self.write_byte_mem(addr, value as u8),
                Width::Word => self.write_word_mem(addr, value),
            },
            Operand::Num(_) => (self, Ok(0usize)),
        }
    }

    /// What follows the access through an operand: for a register, its
    /// post-adjustment.
    #[verifier::opaque]
    pub open spec fn finish(self, operand: Operand, width: Width) -> (Machine, usize) {
        match operand {
            Operand::Reg(reg) => self.post_process(reg, width.bytes()),
            _ => (self, 0usize),
        }
    }

    /// Reading one operand and running what precedes its access.
    #[verifier::opaque]
    pub open spec fn setup_one(self, kind: ArgKind, width: Width) -> (Machine, Result<Single, VmError>) {
        let (m1, fetched) = self.fetch(kind, width);
        match fetched {
            Err(e) => (m1, Err(e)),
            Ok(dst) => {
                let (m2, prepared) = m1.prepare(dst, width);
                match prepared {
                    Err(e) => (m2, Err(e)),
                    Ok(p) => (m2, Ok(Single { dst, dst_offset: p.0, cost: p.1 })),
                }
            },
        }
    }

    /// Reading two operands, destination first, and then running what
    /// precedes the access of each, destination first.
    #[verifier::opaque]
    pub open spec fn setup_two(self, dst_kind: ArgKind, src_kind: ArgKind, width: Width) -> (Machine, Result<Pair, VmError>) {
        let (m1, fetched_dst) = self.fetch(dst_kind, width);
        match fetched_dst {
            Err(e) => (m1, Err(e)),
            Ok(dst) => {
                let (m2, fetched_src) = m1.fetch(src_kind, width);
                match fetched_src {
                    Err(e) => (m2, Err(e)),
                    Ok(src) => {
                        let (m3, prepared_dst) = m2.prepare(dst, width);
                        match prepared_dst {
                            Err(e) => (m3, Err(e)),
                            Ok(p) => {
                                let (m4, prepared_src) = m3.prepare(src, width);
                                match prepared_src {
                                    Err(e) => (m4, Err(e)),
                                    Ok(q) => (
                                        m4,
                                        Ok(
                                            Pair {
                                                dst,
                                                src,
                                                dst_offset: p.0,
                                                src_offset: q.0,
                                                cost: (p.1 + q.1) as usize,
                                            },
                                        ),
                                    ),
                                }
                            },
                        }
                    },
                }
            },
        }
    }
}

impl VM {
    /// Reads an operand of one form from the instruction.
    pub fn fetch(&mut self, kind: ArgKind, width: Width) -> (r: Result<Operand, VmError>)
        ensures
            final(self)@ == old(self)@.fetch(kind, width).0,
            r == old(self)@.fetch(kind, width).1,
            r matches Ok(operand) ==> operand.wf(),
            r matches Ok(Operand::Num(value)) ==> width.fits(value),
    {
        proof {
            reveal(Machine::fetch);
        }
        match kind {
            ArgKind::Reg => {
                let reg: Register = self.read_arg_register()?;
                Ok(Operand::Reg(reg))
            },
            ArgKind::Addr => {
                let addr: u16 = self.read_arg_word();
                Ok(Operand::Addr(addr))
            },
            ArgKind::Num => match width {
                Width::Byte => {
                    let byte: u8 = self.read_arg_byte();
                    Ok(Operand::Num(byte as u16))
                },
                Width::Word => {
                    let word: u16 = self.read_arg_word();
                    Ok(Operand::Num(word))
                },
            },
        }
    }

    /// Runs what precedes the access through an operand. Returns the offset
    /// and the cycles used.
    pub fn prepare(&mut self, operand: &Operand, width: Width) -> (r: Result<(i16, usize), VmError>)
        requires
            operand.wf(),
        ensures
            final(self)@ == old(self)@.prepare(*operand, width).0,
            r == old(self)@.prepare(*operand, width).1,
            r matches Ok(v) ==> v.1 <= 4,
    {
        proof {
            reveal(Machine::prepare);
        }
        match operand {
            Operand::Reg(reg) => self.pre_process(reg, width.size()),
            _ => Ok((0, 0)),
        }
    }

    /// Reads the value that an operand gives. Returns the value and the
    /// cycles used.
    pub fn load(&self, operand: &Operand, width: Width, offset: i16) -> (r: Result<(u16, usize), VmError>)
        requires
            operand.wf(),
            operand matches Operand::Num(value) ==> width.fits(*value),
        ensures
            r == self@.load(*operand, width, offset),
            r matches Ok(v) ==> width.fits(v.0) && v.1 <= 4,
    {
        proof {
            reveal(Machine::load);
        }
        match operand {
            Operand::Reg(reg) => match width {
                Width::Byte => {
                    let v: (u8, usize) = self.read_byte_reg(reg, offset)?;
                    Ok((v.0 as u16, v.1))
                },
                Width::Word => self.read_word_reg(reg, offset),
            },
            Operand::Addr(addr) => match width {
                Width::Byte => {
                    let v: (u8, usize) = self.read_byte_mem(*addr);
                    Ok((v.0 as u16, v.1))
                },
                Width::Word => Ok(self.read_word_mem(*addr)),
            },
            Operand::Num(value) => Ok((*value, 0)),
        }
    }

    /// Writes a value through an operand. Returns the cycles used.
    pub fn save(&mut self, operand: &Operand, width: Width, offset: i16, value: u16) -> (r: Result<
        usize,
        VmError,
    >)
        requires
            operand.wf(),
            width.fits(value),
        ensures
            final(self)@ == old(self)@.save(*operand, width, offset, value).0,
            r == old(self)@.save(*operand, width, offset, value).1,
            r matches Ok(cost) ==> cost <= 46,
    {
        proof {
            reveal(Machine::save);
        }
        match operand {
            Operand::Reg(reg) => match width {
                Width::Byte => self.write_byte_reg(reg, offset, value as u8),
                Width::Word => self.write_word_reg(reg, offset, value),
            },
            Operand::Addr(addr) => match width {
                Width::Byte => self.write_byte_mem(*addr, value as u8),
                Width::Word => self.write_word_mem(*addr, value),
            },
            Operand::Num(_) => Ok(0),
        }
    }

    /// Runs what follows the access through an operand. Returns the cycles
    /// used.
    pub fn finish(&mut self, operand: &Operand, width: Width) -> (cost: usize)
        requires
            operand.wf(),
        ensures
            final(self)@ == old(self)@.finish(*operand, width).0,
            cost == old(self)@.finish(*operand, width).1,
            cost <= 2,
    {
        proof {
            reveal(Machine::finish);
        }
        match operand {
            Operand::Reg(reg) => self.post_process(reg, width.size()),
            _ => 0,
        }
    }

    /// Reads one operand and runs what precedes its access.
    pub fn setup_one(&mut self, kind: ArgKind, width: Width) -> (r: Result<Single, VmError>)
        ensures
            final(self)@ == old(self)@.setup_one(kind, width).0,
            r == old(self)@.setup_one(kind, width).1,
            r matches Ok(s) ==> s.dst.wf() && s.cost <= 4 && (s.dst matches Operand::Num(value)
                ==> width.fits(value)),
    {
        proof {
            reveal(Machine::setup_one);
        }
        let dst: Operand = self.fetch(kind, width)?;
        let prepared: (i16, usize) = self.prepare(&dst, width)?;
        Ok(Single { dst, dst_offset: prepared.0, cost: prepared.1 })
    }

    /// Reads two operands, destination first, and runs what precedes the
    /// access of each.
    pub fn setup_two(&mut self, dst_kind: ArgKind, src_kind: ArgKind, width: Width) -> (r: Result<
        Pair,
        VmError,
    >)
        ensures
            final(self)@ == old(self)@.setup_two(dst_kind, src_kind, width).0,
            r == old(self)@.setup_two(dst_kind, src_kind, width).1,
            r matches Ok(p) ==> p.dst.wf() && p.src.wf() && p.cost <= 8 && (p.dst matches Operand::Num(
                value,
            ) ==> width.fits(value)) && (p.src matches Operand::Num(value) ==> width.fits(value)),
    {
        proof {
            reveal(Machine::setup_two);
        }
        let dst: Operand = self.fetch(dst_kind, width)?;
        let src: Operand = self.fetch(src_kind, width)?;
        let p: (i16, usize) = self.prepare(&dst, width)?;
        let q: (i16, usize) = self.prepare(&src, width)?;
        Ok(Pair { dst, src, dst_offset: p.0, src_offset: q.0, cost: p.1 + q.1 })
    }
}

} // verus!
