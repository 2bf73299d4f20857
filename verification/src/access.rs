//! Access to registers and memory by the types of the values: the same
//! reads and writes as those of the machine, with bytes, words and
//! addresses in place of plain integers.

use vstd::prelude::*;
use crate::error::VmError;
use crate::model::{hi_byte, lo_byte, word_of, Machine};
use crate::register::Register;
use crate::types::{Address, Byte, Word};
use crate::vm::VM;

verus! {

/// Reads and writes of memory by values of type `T`.
pub trait MemoryAccess<T> {
    /// The state that the reads and writes work on.
    spec fn memory_model(&self) -> Machine;

    /// The value at an address.
    spec fn stored(m: Machine, addr: Address) -> T;

    /// The write of a value to an address, with every effect of a write.
    spec fn written(m: Machine, addr: Address, value: T) -> (Machine, Result<usize, VmError>);

    /// Reads the value at an address.
    fn read_mem(&self, addr: Address) -> (r: T)
        ensures
            r == Self::stored(self.memory_model(), addr),
    ;

    /// Writes a value to an address, with every effect of a write. Returns
    /// the cycles used.
    fn write_mem(&mut self, addr: Address, value: T) -> (r: Result<usize, VmError>)
        ensures
            final(self).memory_model() == Self::written(old(self).memory_model(), addr, value).0,
            r == Self::written(old(self).memory_model(), addr, value).1,
    ;
}

impl MemoryAccess<Byte> for VM {
    open spec fn memory_model(&self) -> Machine {
        self@
    }

    open spec fn stored(m: Machine, addr: Address) -> Byte {
        Byte(m.read_byte_mem(addr.0))
    }

    open spec fn written(m: Machine, addr: Address, value: Byte) -> (Machine, Result<usize, VmError>) {
        m.write_byte_mem(addr.0, value.0)
    }

    fn read_mem(&self, addr: Address) -> (r: Byte) {
        Byte(self.read_byte_mem(addr.0).0)
    }

    fn write_mem(&mut self, addr: Address, value: Byte) -> (r: Result<usize, VmError>) {
        self.write_byte_mem(addr.0, value.0)
    }
}

impl MemoryAccess<Word> for VM {
    open spec fn memory_model(&self) -> Machine {
        self@
    }

    open spec fn stored(m: Machine, addr: Address) -> Word {
        Word(m.read_word_mem(addr.0))
    }

    open spec fn written(m: Machine, addr: Address, value: Word) -> (Machine, Result<usize, VmError>) {
        m.write_word_mem(addr.0, value.0)
    }

    fn read_mem(&self, addr: Address) -> (r: Word) {
        Word(self.read_word_mem(addr.0).0)
    }

    fn write_mem(&mut self, addr: Address, value: Word) -> (r: Result<usize, VmError>) {
        self.write_word_mem(addr.0, value.0)
    }
}

/// Reads and writes of the register file by values of type `T`, at an index
/// into the file.
pub trait DirectRegisterAccess<T> {
    /// The state that the reads and writes work on.
    spec fn register_model(&self) -> Machine;

    /// Whether a value of the type lies in the register file at an index.
    spec fn in_file(addr: usize) -> bool;

    /// The value in the register file at an index.
    spec fn held(m: Machine, addr: usize) -> T;

    /// The state with the value in the register file at an index replaced.
    spec fn replaced(m: Machine, addr: usize, value: T) -> Machine;

    /// Reads the value in the register file at an index.
    fn read_register(&self, addr: usize) -> (r: T)
        requires
            Self::in_file(addr),
        ensures
            r == Self::held(self.register_model(), addr),
    ;

    /// Replaces the value in the register file at an index.
    fn write_register(&mut self, addr: usize, value: T)
        requires
            Self::in_file(addr),
        ensures
            final(self).register_model() == Self::replaced(old(self).register_model(), addr, value),
    ;
}

impl DirectRegisterAccess<Byte> for VM {
    open spec fn register_model(&self) -> Machine {
        self@
    }

    open spec fn in_file(addr: usize) -> bool {
        addr < 9
    }

    open spec fn held(m: Machine, addr: usize) -> Byte {
        Byte(m.registers[addr as int])
    }

    open spec fn replaced(m: Machine, addr: usize, value: Byte) -> Machine {
        Machine { registers: m.registers.update(addr as int, value.0), ..m }
    }

    fn read_register(&self, addr: usize) -> (r: Byte) {
        Byte(self.registers[addr])
    }

    fn write_register(&mut self, addr: usize, value: Byte) {
        self.registers[addr] = value.0;
        assert(self@ =~= <VM as DirectRegisterAccess<Byte>>::replaced(old(self)@, addr, value));
    }
}

impl DirectRegisterAccess<Word> for VM {
    open spec fn register_model(&self) -> Machine {
        self@
    }

    open spec fn in_file(addr: usize) -> bool {
        addr < 8
    }

    open spec fn held(m: Machine, addr: usize) -> Word {
        Word(word_of(m.registers[addr as int], m.registers[addr + 1]))
    }

    open spec fn replaced(m: Machine, addr: usize, value: Word) -> Machine {
        Machine {
            registers: m.registers.update(addr as int, hi_byte(value.0)).update(
                addr + 1,
                lo_byte(value.0),
            ),
            ..m
        }
    }

    fn read_register(&self, addr: usize) -> (r: Word) {
        Word(self.registers[addr] as u16 * 256 + self.registers[addr + 1] as u16)
    }

    fn write_register(&mut self, addr: usize, value: Word) {
        self.registers[addr] = (value.0 / 256) as u8;
        self.registers[addr + 1] = (value.0 % 256) as u8;
        assert(self@ =~= <VM as DirectRegisterAccess<Word>>::replaced(old(self)@, addr, value));
    }
}

/// Reads and writes through a register operand by values of type `T`: the
/// register itself, or the memory that it points at.
pub trait WrappedRegisterAccess<T>: DirectRegisterAccess<T> {
    /// What a read through an operand gives.
    spec fn read_through(m: Machine, src: Register) -> Result<T, VmError>;

    /// What a write through an operand does.
    spec fn written_through(m: Machine, dst: Register, value: T) -> (Machine, Result<usize, VmError>);

    /// Writes a value through an operand. Returns the cycles used.
    fn write(&mut self, dst: &Register, value: T) -> (r: Result<usize, VmError>)
        requires
            dst.wf(),
        ensures
            final(self).register_model() == Self::written_through(
                old(self).register_model(),
                *dst,
                value,
            ).0,
            r == Self::written_through(old(self).register_model(), *dst, value).1,
    ;

    /// Reads a value through an operand.
    fn read(&self, src: &Register) -> (r: Result<T, VmError>)
        requires
            src.wf(),
        ensures
            r == Self::read_through(self.register_model(), *src),
    ;
}

impl WrappedRegisterAccess<Byte> for VM {
    open spec fn read_through(m: Machine, src: Register) -> Result<Byte, VmError> {
        match m.read_byte_reg(src, 0) {
            Ok(v) => Ok(Byte(v.0)),
            Err(e) => Err(e),
        }
    }

    open spec fn written_through(m: Machine, dst: Register, value: Byte) -> (Machine, Result<usize, VmError>) {
        m.write_byte_reg(dst, 0, value.0)
    }

    fn write(&mut self, dst: &Register, value: Byte) -> (r: Result<usize, VmError>) {
        self.write_byte_reg(dst, 0, value.0)
    }

    fn read(&self, src: &Register) -> (r: Result<Byte, VmError>) {
        let v: (u8, usize) = self.read_byte_reg(src, 0)?;
        Ok(Byte(v.0))
    }
}

impl WrappedRegisterAccess<Word> for VM {
    open spec fn read_through(m: Machine, src: Register) -> Result<Word, VmError> {
        match m.read_word_reg(src, 0) {
            Ok(v) => Ok(Word(v.0)),
            Err(e) => Err(e),
        }
    }

    open spec fn written_through(m: Machine, dst: Register, value: Word) -> (Machine, Result<usize, VmError>) {
        m.write_word_reg(dst, 0, value.0)
    }

    fn write(&mut self, dst: &Register, value: Word) -> (r: Result<usize, VmError>) {
        self.write_word_reg(dst, 0, value.0)
    }

    fn read(&self, src: &Register) -> (r: Result<Word, VmError>) {
        let v: (u16, usize) = self.read_word_reg(src, 0)?;
        Ok(Word(v.0))
    }
}

} // verus!
