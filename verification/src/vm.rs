//! The machine: its state, and the layer through which every instruction
//! reaches registers and memory.

use vstd::prelude::*;
use crate::constants::registers::offset::FLAGS;
use crate::error::VmError;
use crate::flags;
use crate::mem::address;
use crate::mem::sizes;
use crate::mem::{
    is_inside_atlas1_bank, is_inside_atlas2_bank, is_inside_atlas3_bank, is_inside_atlas4_bank,
    is_inside_code_bank_1, is_inside_code_bank_2, is_inside_ram_bank_1, is_inside_ram_bank_2,
    is_inside_save_bank,
};
use crate::model::{index_of, next_addr, overlay, Machine};
use crate::platform::is_special_memory;
use crate::register::Register;
use crate::types::signed_word;

verus! {

/// The state of the machine. The host may read every field; memory is to
/// be changed through [`VM::debug_set_mem`] only, so that banks follow.
pub struct VM {
    /// AH, AL, BH, BL, CH, CL, DH, DL, FLAGS. A word register is its high
    /// and low byte in that order.
    pub registers: [u8; 9],
    /// Address of the instruction being executed.
    pub pc: u16,
    pub memory: [u8; 65536],
    pub ram_banks: Vec<[u8; 4200]>,
    pub code_banks: Vec<[u8; 4200]>,
    pub save_banks: Vec<[u8; 4096]>,
    /// Where a flag is true, the host is to persist that save bank and clear
    /// the flag.
    pub save_dirty_flag: [bool; 16],
    pub atlas_banks: Vec<[u8; 4000]>,
    /// The message of the error that halted the machine.
    pub error: Option<String>,
    /// The error that halted the machine.
    pub fault: Option<VmError>,
    /// The machine has stopped and executes nothing more.
    pub halted: bool,
    /// Instructions executed.
    pub op_executed: usize,
    /// Cycles executed.
    pub cycles_executed: usize,
    /// Address of the next operand byte.
    pub arg_ptr: u16,
    /// The writes that wait to be forwarded to the sound unit, oldest first.
    pub sound_writes: Vec<(u16, u8)>,
}

/// A list of banks as a sequence of byte sequences.
pub open spec fn banks_view<const N: usize>(banks: Seq<[u8; N]>) -> Seq<Seq<u8>> {
    Seq::new(banks.len(), |i: int| banks[i]@)
}

/// The view of an optional string.
pub open spec fn text_view(text: Option<String>) -> Option<Seq<char>> {
    match text {
        Some(s) => Some(s@),
        None => None,
    }
}

impl View for VM {
    type V = Machine;

    open spec fn view(&self) -> Machine {
        Machine {
            registers: self.registers@,
            pc: self.pc,
            memory: self.memory@,
            ram_banks: banks_view(self.ram_banks@),
            code_banks: banks_view(self.code_banks@),
            save_banks: banks_view(self.save_banks@),
            save_dirty_flag: self.save_dirty_flag@,
            atlas_banks: banks_view(self.atlas_banks@),
            error: text_view(self.error),
            fault: self.fault,
            halted: self.halted,
            op_executed: self.op_executed,
            cycles_executed: self.cycles_executed,
            arg_ptr: self.arg_ptr,
            sound_writes: self.sound_writes@,
        }
    }
}

/// Copies a bank over the `N` bytes of memory from `base` on.
pub(crate) fn copy_bank<const N: usize>(memory: &mut [u8; 65536], base: usize, bank: &[u8; N])
    requires
        base + N <= 65536,
    ensures
        final(memory)@ == overlay(old(memory)@, base as int, bank@),
{
    let mut i: usize = 0;
    while i < N
        invariant
            i <= N,
            base + N <= 65536,
            forall|j: int| 0 <= j < 65536 ==> memory@[j] == (if base <= j < base + i {
                bank@[j - base]
            } else {
                old(memory)@[j]
            }),
        decreases N - i,
    {
        memory[base + i] = bank[i];
        i = i + 1;
    }
    assert(memory@ =~= overlay(old(memory)@, base as int, bank@));
}

impl VM {
    /// The view of every machine has the lengths that its types fix.
    pub proof fn lemma_view_wf(&self)
        ensures
            self@.wf(),
    {
    }

    // Flags

    /// Whether every bit of `flag` is set in the flags register.
    pub fn check_flag(&self, flag: u8) -> (r: bool)
        ensures
            r == self@.check_flag(flag),
    {
        flags::check(self.registers[FLAGS], flag)
    }

    /// Sets the bits of `flag` in the flags register.
    pub fn set_flag(&mut self, flag: u8)
        ensures
            final(self)@ == old(self)@.update_flag(flag, true),
    {
        self.registers[FLAGS] = flags::update(self.registers[FLAGS], flag, true);
        assert(self@ =~= old(self)@.update_flag(flag, true));
    }

    /// Clears the bits of `flag` in the flags register.
    pub fn clear_flag(&mut self, flag: u8)
        ensures
            final(self)@ == old(self)@.update_flag(flag, false),
    {
        self.registers[FLAGS] = flags::update(self.registers[FLAGS], flag, false);
        assert(self@ =~= old(self)@.update_flag(flag, false));
    }

    /// Sets the bits of `flag` if `condition` holds, and clears them if not.
    pub fn update_flag_conditionally(&mut self, flag: u8, condition: bool)
        ensures
            final(self)@ == old(self)@.update_flag(flag, condition),
    {
        if condition {
            self.set_flag(flag);
        } else {
            self.clear_flag(flag);
        }
    }

    /// Replaces the flags register.
    pub fn set_flags_register(&mut self, value: u8)
        ensures
            final(self)@ == old(self)@.with_flags(value),
    {
        self.registers[FLAGS] = value;
        assert(self@ =~= old(self)@.with_flags(value));
    }

    // Memory

    /// The byte at `addr`, in one cycle.
    pub fn read_byte_mem(&self, addr: u16) -> (r: (u8, usize))
        ensures
            r.0 == self@.read_byte_mem(addr),
            r.1 == 1,
    {
        (self.memory[addr as usize], 1)
    }

    /// The big-endian word at `addr`, in two cycles.
    pub fn read_word_mem(&self, addr: u16) -> (r: (u16, usize))
        ensures
            r.0 == self@.read_word_mem(addr),
            r.1 == 2,
    {
        let hi: u8 = self.memory[addr as usize];
        let lo: u8 = self.memory[Self::after(addr) as usize];
        (hi as u16 * 256 + lo as u16, 2)
    }

    /// The address after `addr`, wrapping at the top of memory.
    pub fn after(addr: u16) -> (r: u16)
        ensures
            r == next_addr(addr),
    {
        if addr == 65535 {
            0
        } else {
            addr + 1
        }
    }

    /// Stores one byte, with none of the effects of a write.
    pub(crate) fn store(&mut self, addr: u16, value: u8)
        ensures
            final(self)@ == old(self)@.store(addr, value),
    {
        self.memory[addr as usize] = value;
        assert(self@ =~= old(self)@.store(addr, value));
    }

    /// Stores a big-endian word, with none of the effects of a write.
    pub(crate) fn store_word(&mut self, addr: u16, value: u16)
        ensures
            final(self)@ == old(self)@.store_word(addr, value),
    {
        self.store(addr, (value / 256) as u8);
        self.store(Self::after(addr), (value % 256) as u8);
    }

    /// Where a write has changed a byte inside a bank window, writes the
    /// byte to the bank behind the window too: a switch of banks overwrites
    /// the window, and the bank is all that is left of it. Returns the
    /// cycles used.
    pub fn write_mem_change_to_bank(&mut self, addr: u16, value: u8) -> (cost: usize)
        ensures
            final(self)@ == old(self)@.mirror(addr, value),
            cost == old(self)@.mirror_cost(addr),
    {
        let at: usize = addr as usize;
        if is_inside_code_bank_1(at) {
            let id: usize = self.memory[address::CODE_BANK_1_ID] as usize;
            if id < self.code_banks.len() {
                self.code_banks[id][at - address::CODE_BANK_1] = value;
                assert(self@ =~~= old(self)@.mirror(addr, value));
                return 1;
            }
        } else if is_inside_code_bank_2(at) {
            let id: usize = self.memory[address::CODE_BANK_2_ID] as usize;
            if id < self.code_banks.len() {
                self.code_banks[id][at - address::CODE_BANK_2] = value;
                assert(self@ =~~= old(self)@.mirror(addr, value));
                return 1;
            }
        } else if is_inside_ram_bank_1(at) {
            let id: usize = self.memory[address::RAM_BANK_1_ID] as usize;
            if id < self.ram_banks.len() {
                self.ram_banks[id][at - address::RAM_BANK_1] = value;
                assert(self@ =~~= old(self)@.mirror(addr, value));
                return 1;
            }
        } else if is_inside_ram_bank_2(at) {
            let id: usize = self.memory[address::RAM_BANK_2_ID] as usize;
            if id < self.ram_banks.len() {
                self.ram_banks[id][at - address::RAM_BANK_2] = value;
                assert(self@ =~~= old(self)@.mirror(addr, value));
                return 1;
            }
        } else if is_inside_save_bank(at) {
            let id: usize = self.memory[address::SAVE_BANK_ID] as usize;
            if id < self.save_banks.len() {
                self.save_banks[id][at - address::SAVE_BANK] = value;
                if id < 16 {
                    self.save_dirty_flag[id] = true;
                }
                assert(self@ =~~= old(self)@.mirror(addr, value));
                return 1;
            }
        } else if is_inside_atlas1_bank(at) {
            let id: usize = self.memory[address::ATLAS1_BANK_ID] as usize;
            if id < self.atlas_banks.len() {
                self.atlas_banks[id][at - address::ATLAS1] = value;
                assert(self@ =~~= old(self)@.mirror(addr, value));
                return 1;
            }
        } else if is_inside_atlas2_bank(at) {
            let id: usize = self.memory[address::ATLAS2_BANK_ID] as usize;
            if id < self.atlas_banks.len() {
                self.atlas_banks[id][at - address::ATLAS2] = value;
                assert(self@ =~~= old(self)@.mirror(addr, value));
                return 1;
            }
        } else if is_inside_atlas3_bank(at) {
            let id: usize = self.memory[address::ATLAS3_BANK_ID] as usize;
            if id < self.atlas_banks.len() {
                self.atlas_banks[id][at - address::ATLAS3] = value;
                assert(self@ =~~= old(self)@.mirror(addr, value));
                return 1;
            }
        } else if is_inside_atlas4_bank(at) {
            let id: usize = self.memory[address::ATLAS4_BANK_ID] as usize;
            if id < self.atlas_banks.len() {
                self.atlas_banks[id][at - address::ATLAS4] = value;
                assert(self@ =~~= old(self)@.mirror(addr, value));
                return 1;
            }
        }
        0
    }

    /// Where `addr` is a bank-select byte, copies the bank with the id
    /// `value` into its window, in 20 cycles; the id of a bank that was not
    /// provisioned is an error.
    pub fn load_banks(&mut self, addr: u16, value: u8) -> (r: Result<usize, VmError>)
        ensures
            final(self)@ == old(self)@.select(addr, value).0,
            r == old(self)@.select(addr, value).1,
    {
        let at: usize = addr as usize;
        let id: usize = value as usize;
        if at == address::CODE_BANK_1_ID {
            if id < self.code_banks.len() {
                copy_bank(&mut self.memory, address::CODE_BANK_1, &self.code_banks[id]);
            } else {
                return Err(VmError::BankOutOfRange(addr, value));
            }
        } else if at == address::CODE_BANK_2_ID {
            if id < self.code_banks.len() {
                copy_bank(&mut self.memory, address::CODE_BANK_2, &self.code_banks[id]);
            } else {
                return Err(VmError::BankOutOfRange(addr, value));
            }
        } else if at == address::RAM_BANK_1_ID {
            if id < self.ram_banks.len() {
                copy_bank(&mut self.memory, address::RAM_BANK_1, &self.ram_banks[id]);
            } else {
                return Err(VmError::BankOutOfRange(addr, value));
            }
        } else if at == address::RAM_BANK_2_ID {
            if id < self.ram_banks.len() {
                copy_bank(&mut self.memory, address::RAM_BANK_2, &self.ram_banks[id]);
            } else {
                return Err(VmError::BankOutOfRange(addr, value));
            }
        } else if at == address::SAVE_BANK_ID {
            if id < self.save_banks.len() {
                copy_bank(&mut self.memory, address::SAVE_BANK, &self.save_banks[id]);
            } else {
                return Err(VmError::BankOutOfRange(addr, value));
            }
        } else if at == address::ATLAS1_BANK_ID {
            if id < self.atlas_banks.len() {
                copy_bank(&mut self.memory, address::ATLAS1, &self.atlas_banks[id]);
            } else {
                return Err(VmError::BankOutOfRange(addr, value));
            }
        } else if at == address::ATLAS2_BANK_ID {
            if id < self.atlas_banks.len() {
                copy_bank(&mut self.memory, address::ATLAS2, &self.atlas_banks[id]);
            } else {
                return Err(VmError::BankOutOfRange(addr, value));
            }
        } else if at == address::ATLAS3_BANK_ID {
            if id < self.atlas_banks.len() {
                copy_bank(&mut self.memory, address::ATLAS3, &self.atlas_banks[id]);
            } else {
                return Err(VmError::BankOutOfRange(addr, value));
            }
        } else if at == address::ATLAS4_BANK_ID {
            if id < self.atlas_banks.len() {
                copy_bank(&mut self.memory, address::ATLAS4, &self.atlas_banks[id]);
            } else {
                return Err(VmError::BankOutOfRange(addr, value));
            }
        } else {
            return Ok(0);
        }
        assert(self@ =~~= old(self)@.select(addr, value).0);
        Ok(20)
    }

    /// Queues a write to the sound registers or the wave table for the
    /// sound unit.
    fn forward_sound(&mut self, addr: u16, value: u8)
        ensures
            final(self)@ == old(self)@.hear(addr, value),
    {
        let at: usize = addr as usize;
        if (at >= address::SOUND && at < address::SOUND + sizes::SOUND) || (at >= address::WAVE_TABLE
            && at < address::WAVE_TABLE + sizes::WAVE_TABLE) {
            self.sound_writes.push((addr, value));
            assert(self@ =~~= old(self)@.hear(addr, value));
        }
    }

    /// Writes one byte to memory, with every effect of a write: the bank
    /// behind a window follows, the sound unit is told, and a bank-select
    /// byte switches its window. Returns the cycles used.
    pub fn write_byte_mem(&mut self, addr: u16, value: u8) -> (r: Result<usize, VmError>)
        ensures
            final(self)@ == old(self)@.write_byte_mem(addr, value).0,
            r == old(self)@.write_byte_mem(addr, value).1,
            r matches Ok(cost) ==> 1 <= cost <= 22,
    {
        proof {
            reveal(Machine::write_byte_mem);
        }
        self.store(addr, value);
        let mirror_cost: usize = self.write_mem_change_to_bank(addr, value);
        self.forward_sound(addr, value);
        let load_cost: usize = if is_special_memory(addr) {
            self.load_banks(addr, value)?
        } else {
            0
        };
        Ok(1 + load_cost + mirror_cost)
    }

    /// Writes a word to memory as two writes of one byte, the most
    /// significant first. Returns the cycles used.
    pub fn write_word_mem(&mut self, addr: u16, value: u16) -> (r: Result<usize, VmError>)
        ensures
            final(self)@ == old(self)@.write_word_mem(addr, value).0,
            r == old(self)@.write_word_mem(addr, value).1,
            r matches Ok(cost) ==> 2 <= cost <= 44,
    {
        proof {
            reveal(Machine::write_word_mem);
        }
        let cost1: usize = self.write_byte_mem(addr, (value / 256) as u8)?;
        let cost2: usize = self.write_byte_mem(Self::after(addr), (value % 256) as u8)?;
        Ok(cost1 + cost2)
    }

    /// The stack pointer.
    pub fn get_sp(&self) -> (r: u16)
        ensures
            r == self@.sp(),
    {
        self.read_word_mem(address::SP as u16).0
    }

    /// The frame pointer.
    pub fn get_fp(&self) -> (r: u16)
        ensures
            r == self@.fp(),
    {
        self.read_word_mem(address::FP as u16).0
    }

    // Operand bytes

    /// Reads the next operand byte.
    pub fn next_byte(&mut self) -> (r: u8)
        ensures
            final(self)@ == old(self)@.read_arg_byte().0,
            r == old(self)@.read_arg_byte().1,
    {
        let byte: u8 = self.memory[self.arg_ptr as usize];
        self.arg_ptr = Self::after(self.arg_ptr);
        assert(self@ =~= old(self)@.read_arg_byte().0);
        byte
    }

    /// Reads an immediate byte.
    pub fn read_arg_byte(&mut self) -> (r: u8)
        ensures
            final(self)@ == old(self)@.read_arg_byte().0,
            r == old(self)@.read_arg_byte().1,
    {
        self.next_byte()
    }

    /// Reads an immediate word or an address, big-endian.
    pub fn read_arg_word(&mut self) -> (r: u16)
        ensures
            final(self)@ == old(self)@.read_arg_word().0,
            r == old(self)@.read_arg_word().1,
    {
        let hi: u8 = self.next_byte();
        let lo: u8 = self.next_byte();
        assert(self@ =~= old(self)@.read_arg_word().0);
        hi as u16 * 256 + lo as u16
    }

    /// Reads and decodes a register operand.
    pub fn read_arg_register(&mut self) -> (r: Result<Register, VmError>)
        ensures
            final(self)@ == old(self)@.read_arg_register().0,
            r == old(self)@.read_arg_register().1,
            r matches Ok(reg) ==> reg.wf(),
    {
        let byte: u8 = self.next_byte();
        Register::from(byte)
    }

    // Registers

    /// The byte in a register, whatever the addressing mode, in one cycle.
    pub fn read_byte_reg_value(&self, reg: &Register) -> (r: (u8, usize))
        requires
            reg.wf(),
        ensures
            r.0 == self@.read_byte_reg_value(*reg),
            r.1 == 1,
    {
        (self.registers[reg.addr], 1)
    }

    /// The word in a word register, whatever the addressing mode, in two
    /// cycles.
    pub fn read_word_reg_value(&self, reg: &Register) -> (r: Result<(u16, usize), VmError>)
        requires
            reg.wf(),
        ensures
            r matches Ok(v) ==> self@.read_word_reg_value(*reg) == Ok::<u16, VmError>(v.0) && v.1 == 2,
            r matches Err(e) ==> self@.read_word_reg_value(*reg) == Err::<u16, VmError>(e),
    {
        if reg.size == 2 {
            let hi: u8 = self.registers[reg.addr];
            let lo: u8 = self.registers[reg.addr + 1];
            Ok((hi as u16 * 256 + lo as u16, 2))
        } else {
            Err(VmError::ExtendedRegisterRequired(reg.id()))
        }
    }

    /// Replaces the byte in a register, in one cycle.
    pub fn write_byte_reg_value(&mut self, reg: &Register, value: u8) -> (cost: usize)
        requires
            reg.wf(),
        ensures
            final(self)@ == old(self)@.write_byte_reg_value(*reg, value),
            cost == 1,
    {
        self.registers[reg.addr] = value;
        assert(self@ =~= old(self)@.write_byte_reg_value(*reg, value));
        1
    }

    /// Replaces the word in a word register, in two cycles.
    pub fn write_word_reg_value(&mut self, reg: &Register, value: u16) -> (r: Result<usize, VmError>)
        requires
            reg.wf(),
        ensures
            final(self)@ == old(self)@.write_word_reg_value(*reg, value).0,
            r == old(self)@.write_word_reg_value(*reg, value).1,
            r matches Ok(cost) ==> cost == 2,
    {
        if reg.size == 2 {
            self.registers[reg.addr] = (value / 256) as u8;
            self.registers[reg.addr + 1] = (value % 256) as u8;
            assert(self@ =~= old(self)@.write_word_reg_value(*reg, value).0);
            Ok(2)
        } else {
            Err(VmError::ExtendedRegisterRequired(reg.id()))
        }
    }

    /// The address `offset` bytes from `addr`, wrapping at either end of
    /// memory.
    pub fn index(addr: u16, offset: i16) -> (r: u16)
        ensures
            r == index_of(addr, offset),
    {
        let sum: i32 = addr as i32 + offset as i32 + 65536;
        let lifted: u32 = sum as u32;
        (lifted % 65536) as u16
    }

    /// The signed value of a word.
    pub fn to_signed(word: u16) -> (r: i16)
        ensures
            r == signed_word(word),
    {
        if word >= 32768 {
            (word as i32 - 65536) as i16
        } else {
            word as i16
        }
    }

    /// Reads a byte through an operand: the register's own byte, or the byte
    /// of memory that the register points at.
    pub fn read_byte_reg(&self, reg: &Register, offset: i16) -> (r: Result<(u8, usize), VmError>)
        requires
            reg.wf(),
        ensures
            r == self@.read_byte_reg(*reg, offset),
            r matches Ok(v) ==> 1 <= v.1 <= 3,
    {
        proof {
            reveal(Machine::read_byte_reg);
        }
        if reg.is_indirect {
            let pointer: (u16, usize) = self.read_word_reg_value(reg)?;
            let result: (u8, usize) = self.read_byte_mem(Self::index(pointer.0, offset));
            Ok((result.0, pointer.1 + result.1))
        } else {
            Ok(self.read_byte_reg_value(reg))
        }
    }

    /// Reads a word through an operand: the register's own word, or the word
    /// of memory that the register points at.
    pub fn read_word_reg(&self, reg: &Register, offset: i16) -> (r: Result<(u16, usize), VmError>)
        requires
            reg.wf(),
        ensures
            r == self@.read_word_reg(*reg, offset),
            r matches Ok(v) ==> 2 <= v.1 <= 4,
    {
        proof {
            reveal(Machine::read_word_reg);
        }
        let value: (u16, usize) = self.read_word_reg_value(reg)?;
        if reg.is_indirect {
            let result: (u16, usize) = self.read_word_mem(Self::index(value.0, offset));
            Ok((result.0, value.1 + result.1))
        } else {
            Ok(value)
        }
    }

    /// Writes a byte through an operand: into the register itself, or into
    /// the memory that the register points at.
    pub fn write_byte_reg(&mut self, reg: &Register, offset: i16, value: u8) -> (r: Result<
        usize,
        VmError,
    >)
        requires
            reg.wf(),
        ensures
            final(self)@ == old(self)@.write_byte_reg(*reg, offset, value).0,
            r == old(self)@.write_byte_reg(*reg, offset, value).1,
            r matches Ok(cost) ==> 1 <= cost <= 24,
    {
        proof {
            reveal(Machine::write_byte_reg);
        }
        if reg.is_indirect {
            let pointer: (u16, usize) = self.read_word_reg_value(reg)?;
            let mem_cost: usize = self.write_byte_mem(Self::index(pointer.0, offset), value)?;
            Ok(pointer.1 + mem_cost)
        } else {
            Ok(self.write_byte_reg_value(reg, value))
        }
    }

    /// Writes a word through an operand: into the register itself, or into
    /// the memory that the register points at.
    pub fn write_word_reg(&mut self, reg: &Register, offset: i16, value: u16) -> (r: Result<
        usize,
        VmError,
    >)
        requires
            reg.wf(),
        ensures
            final(self)@ == old(self)@.write_word_reg(*reg, offset, value).0,
            r == old(self)@.write_word_reg(*reg, offset, value).1,
            r matches Ok(cost) ==> 2 <= cost <= 46,
    {
        proof {
            reveal(Machine::write_word_reg);
        }
        if reg.is_indirect {
            let pointer: (u16, usize) = self.read_word_reg_value(reg)?;
            let mem_cost: usize = self.write_word_mem(Self::index(pointer.0, offset), value)?;
            Ok(pointer.1 + mem_cost)
        } else {
            self.write_word_reg_value(reg, value)
        }
    }
}

} // verus!
