//! The mathematical model of the machine: its state as sequences and plain
//! values, and what each access to registers and memory does to that state.
//! The contracts of the executable machine are stated over this model.

use vstd::prelude::*;
use crate::constants::registers::offset::FLAGS;
use crate::error::VmError;
use crate::flags::{flag_set, with_flag};
use crate::mem::address;
use crate::mem::in_region;
use crate::mem::sizes;
use crate::mem::SAVE_COUNT;
use crate::register::{decode_register, Register};

verus! {

/// The four kinds of bank that a cartridge provisions.
#[derive(Copy, Clone, Debug, Eq, PartialEq, Structural)]
pub enum BankKind {
    Code,
    Ram,
    Save,
    Atlas,
}

/// The nine regions of memory that show one selected bank each.
#[derive(Copy, Clone, Debug, Eq, PartialEq, Structural)]
pub enum Window {
    Code1,
    Code2,
    Ram1,
    Ram2,
    Save,
    Atlas1,
    Atlas2,
    Atlas3,
    Atlas4,
}

impl BankKind {
    /// Bytes in a bank of this kind.
    pub open spec fn bank_size(self) -> int {
        match self {
            BankKind::Code => sizes::CODE_BANK as int,
            BankKind::Ram => sizes::RAM_BANK as int,
            BankKind::Save => sizes::SAVE_BANK as int,
            BankKind::Atlas => sizes::ATLAS as int,
        }
    }
}

impl Window {
    /// The kind of bank that the window shows.
    pub open spec fn kind(self) -> BankKind {
        match self {
            Window::Code1 | Window::Code2 => BankKind::Code,
            Window::Ram1 | Window::Ram2 => BankKind::Ram,
            Window::Save => BankKind::Save,
            _ => BankKind::Atlas,
        }
    }

    /// The first address of the window.
    pub open spec fn base(self) -> int {
        match self {
            Window::Code1 => address::CODE_BANK_1 as int,
            Window::Code2 => address::CODE_BANK_2 as int,
            Window::Ram1 => address::RAM_BANK_1 as int,
            Window::Ram2 => address::RAM_BANK_2 as int,
            Window::Save => address::SAVE_BANK as int,
            Window::Atlas1 => address::ATLAS1 as int,
            Window::Atlas2 => address::ATLAS2 as int,
            Window::Atlas3 => address::ATLAS3 as int,
            Window::Atlas4 => address::ATLAS4 as int,
        }
    }

    /// The address of the byte that selects the window's bank.
    pub open spec fn select_addr(self) -> int {
        match self {
            Window::Code1 => address::CODE_BANK_1_ID as int,
            Window::Code2 => address::CODE_BANK_2_ID as int,
            Window::Ram1 => address::RAM_BANK_1_ID as int,
            Window::Ram2 => address::RAM_BANK_2_ID as int,
            Window::Save => address::SAVE_BANK_ID as int,
            Window::Atlas1 => address::ATLAS1_BANK_ID as int,
            Window::Atlas2 => address::ATLAS2_BANK_ID as int,
            Window::Atlas3 => address::ATLAS3_BANK_ID as int,
            Window::Atlas4 => address::ATLAS4_BANK_ID as int,
        }
    }

    /// Bytes in the window.
    pub open spec fn size(self) -> int {
        self.kind().bank_size()
    }

    /// Whether `addr` lies in the window.
    pub open spec fn contains(self, addr: int) -> bool {
        in_region(addr, self.base(), self.size())
    }
}

/// The window that `addr` lies in, if any. The windows do not overlap.
pub open spec fn window_at(addr: int) -> Option<Window> {
    if Window::Code1.contains(addr) {
        Some(Window::Code1)
    } else if Window::Code2.contains(addr) {
        Some(Window::Code2)
    } else if Window::Ram1.contains(addr) {
        Some(Window::Ram1)
    } else if Window::Ram2.contains(addr) {
        Some(Window::Ram2)
    } else if Window::Save.contains(addr) {
        Some(Window::Save)
    } else if Window::Atlas1.contains(addr) {
        Some(Window::Atlas1)
    } else if Window::Atlas2.contains(addr) {
        Some(Window::Atlas2)
    } else if Window::Atlas3.contains(addr) {
        Some(Window::Atlas3)
    } else if Window::Atlas4.contains(addr) {
        Some(Window::Atlas4)
    } else {
        None
    }
}

/// The window whose bank the byte at `addr` selects, if `addr` is a
/// bank-select byte.
pub open spec fn window_selected_at(addr: int) -> Option<Window> {
    if addr == Window::Code1.select_addr() {
        Some(Window::Code1)
    } else if addr == Window::Code2.select_addr() {
        Some(Window::Code2)
    } else if addr == Window::Ram1.select_addr() {
        Some(Window::Ram1)
    } else if addr == Window::Ram2.select_addr() {
        Some(Window::Ram2)
    } else if addr == Window::Save.select_addr() {
        Some(Window::Save)
    } else if addr == Window::Atlas1.select_addr() {
        Some(Window::Atlas1)
    } else if addr == Window::Atlas2.select_addr() {
        Some(Window::Atlas2)
    } else if addr == Window::Atlas3.select_addr() {
        Some(Window::Atlas3)
    } else if addr == Window::Atlas4.select_addr() {
        Some(Window::Atlas4)
    } else {
        None
    }
}

/// Whether a write to `addr` is forwarded to the sound unit: the sound
/// registers and the wave table.
pub open spec fn is_sound_address(addr: int) -> bool {
    in_region(addr, address::SOUND as int, sizes::SOUND as int) || in_region(
        addr,
        address::WAVE_TABLE as int,
        sizes::WAVE_TABLE as int,
    )
}

/// `memory` with the bytes of `bank` laid over it from `base` on.
pub open spec fn overlay(memory: Seq<u8>, base: int, bank: Seq<u8>) -> Seq<u8> {
    Seq::new(
        memory.len(),
        |i: int|
            if base <= i < base + bank.len() {
                bank[i - base]
            } else {
                memory[i]
            },
    )
}

/// The address `offset` bytes from `addr`, wrapping at either end of memory.
pub open spec fn index_of(addr: u16, offset: i16) -> u16 {
    ((addr + offset) % 65536) as u16
}

/// The address after `addr`, wrapping at the top of memory.
pub open spec fn next_addr(addr: u16) -> u16 {
    ((addr + 1) % 65536) as u16
}

/// The word whose big-endian bytes are `hi` and `lo`.
pub open spec fn word_of(hi: u8, lo: u8) -> u16 {
    (hi * 256 + lo) as u16
}

/// The most significant byte of a word.
pub open spec fn hi_byte(value: u16) -> u8 {
    (value / 256) as u8
}

/// The least significant byte of a word.
pub open spec fn lo_byte(value: u16) -> u8 {
    (value % 256) as u8
}

/// The state of the machine.
#[verifier::ext_equal]
pub struct Machine {
    /// AH, AL, BH, BL, CH, CL, DH, DL, FLAGS.
    pub registers: Seq<u8>,
    /// Address of the instruction being executed.
    pub pc: u16,
    /// The 64KB address space.
    pub memory: Seq<u8>,
    pub ram_banks: Seq<Seq<u8>>,
    pub code_banks: Seq<Seq<u8>>,
    pub save_banks: Seq<Seq<u8>>,
    /// For each save bank, whether it holds writes that were not persisted.
    pub save_dirty_flag: Seq<bool>,
    pub atlas_banks: Seq<Seq<u8>>,
    /// The message of the error that halted the machine.
    pub error: Option<Seq<char>>,
    /// The error that halted the machine.
    pub fault: Option<VmError>,
    pub halted: bool,
    pub op_executed: usize,
    pub cycles_executed: usize,
    /// Address of the next operand byte.
    pub arg_ptr: u16,
    /// The writes that wait to be forwarded to the sound unit, oldest first.
    pub sound_writes: Seq<(u16, u8)>,
}

impl Machine {
    /// The lengths that the types of the executable machine fix.
    pub open spec fn wf(self) -> bool {
        &&& self.registers.len() == 9
        &&& self.memory.len() == 65536
        &&& self.save_dirty_flag.len() == SAVE_COUNT
        &&& forall|i: int| 0 <= i < self.code_banks.len() ==> (#[trigger] self.code_banks[i]).len() == sizes::CODE_BANK
        &&& forall|i: int| 0 <= i < self.ram_banks.len() ==> (#[trigger] self.ram_banks[i]).len() == sizes::RAM_BANK
        &&& forall|i: int| 0 <= i < self.save_banks.len() ==> (#[trigger] self.save_banks[i]).len() == sizes::SAVE_BANK
        &&& forall|i: int| 0 <= i < self.atlas_banks.len() ==> (#[trigger] self.atlas_banks[i]).len() == sizes::ATLAS
    }

    /// The provisioned banks of one kind.
    pub open spec fn banks(self, kind: BankKind) -> Seq<Seq<u8>> {
        match kind {
            BankKind::Code => self.code_banks,
            BankKind::Ram => self.ram_banks,
            BankKind::Save => self.save_banks,
            BankKind::Atlas => self.atlas_banks,
        }
    }

    /// The machine with the banks of one kind replaced.
    pub open spec fn with_banks(self, kind: BankKind, banks: Seq<Seq<u8>>) -> Machine {
        match kind {
            BankKind::Code => Machine { code_banks: banks, ..self },
            BankKind::Ram => Machine { ram_banks: banks, ..self },
            BankKind::Save => Machine { save_banks: banks, ..self },
            BankKind::Atlas => Machine { atlas_banks: banks, ..self },
        }
    }

    /// The id of the bank that a window is set to show.
    pub open spec fn selected(self, window: Window) -> u8 {
        self.memory[window.select_addr()]
    }

    /// Whether a window shows a provisioned bank.
    pub open spec fn is_active(self, window: Window) -> bool {
        self.selected(window) < self.banks(window.kind()).len()
    }

    // Flags

    /// The flags register.
    pub open spec fn flags(self) -> u8 {
        self.registers[FLAGS as int]
    }

    /// The machine with the flags register replaced.
    pub open spec fn with_flags(self, flags: u8) -> Machine {
        Machine { registers: self.registers.update(FLAGS as int, flags), ..self }
    }

    /// Whether every bit of `flag` is set in the flags register.
    pub open spec fn check_flag(self, flag: u8) -> bool {
        flag_set(self.flags(), flag)
    }

    /// The machine with the bits of `flag` set or cleared.
    pub open spec fn update_flag(self, flag: u8, on: bool) -> Machine {
        self.with_flags(with_flag(self.flags(), flag, on))
    }

    // Memory

    /// The byte at an address.
    pub open spec fn read_byte_mem(self, addr: u16) -> u8 {
        self.memory[addr as int]
    }

    /// The big-endian word at an address; its second byte wraps to address 0
    /// at the top of memory.
    pub open spec fn read_word_mem(self, addr: u16) -> u16 {
        word_of(self.memory[addr as int], self.memory[next_addr(addr) as int])
    }

    /// The machine with one byte of memory replaced, and nothing else done.
    pub open spec fn store(self, addr: u16, value: u8) -> Machine {
        Machine { memory: self.memory.update(addr as int, value), ..self }
    }

    /// The machine with a big-endian word stored, and nothing else done.
    pub open spec fn store_word(self, addr: u16, value: u16) -> Machine {
        self.store(addr, hi_byte(value)).store(next_addr(addr), lo_byte(value))
    }

    /// What a write into a window does to the bank behind it: where the
    /// window shows a provisioned bank, the byte is written to that bank too,
    /// and a save bank is marked dirty.
    pub open spec fn mirror(self, addr: u16, value: u8) -> Machine {
        match window_at(addr as int) {
            Some(window) if self.is_active(window) => {
                let kind = window.kind();
                let id = self.selected(window) as int;
                let banks = self.banks(kind);
                let written = self.with_banks(
                    kind,
                    banks.update(id, banks[id].update(addr - window.base(), value)),
                );
                if kind == BankKind::Save && id < SAVE_COUNT {
                    Machine { save_dirty_flag: self.save_dirty_flag.update(id, true), ..written }
                } else {
                    written
                }
            },
            _ => self,
        }
    }

    /// The cycles that the mirroring of a write takes.
    pub open spec fn mirror_cost(self, addr: u16) -> usize {
        match window_at(addr as int) {
            Some(window) if self.is_active(window) => 1,
            _ => 0,
        }
    }

    /// What a write does for the sound unit: a write to the sound registers
    /// or the wave table joins the queue of writes to forward.
    pub open spec fn hear(self, addr: u16, value: u8) -> Machine {
        if is_sound_address(addr as int) {
            Machine { sound_writes: self.sound_writes.push((addr, value)), ..self }
        } else {
            self
        }
    }

    /// What a write to a bank-select byte does: the bank with the id written
    /// is copied into the window, in 20 cycles, and an id that names no
    /// provisioned bank is an error. A write to any other address does
    /// nothing here.
    pub open spec fn select(self, addr: u16, value: u8) -> (Machine, Result<usize, VmError>) {
        match window_selected_at(addr as int) {
            Some(window) => {
                let banks = self.banks(window.kind());
                if value < banks.len() {
                    (
                        Machine {
                            memory: overlay(self.memory, window.base(), banks[value as int]),
                            ..self
                        },
                        Ok(20usize),
                    )
                } else {
                    (self, Err(VmError::BankOutOfRange(addr, value)))
                }
            },
            None => (self, Ok(0usize)),
        }
    }

    /// A write of one byte with all that follows from it: the byte is stored,
    /// mirrored into the bank behind a window, queued for the sound unit, and
    /// a bank-select byte switches its window. The cost is one cycle, one
    /// more for a mirrored write, and twenty more for a bank switch.
    #[verifier::opaque]
    pub open spec fn write_byte_mem(self, addr: u16, value: u8) -> (Machine, Result<usize, VmError>) {
        let written = self.store(addr, value).mirror(addr, value).hear(addr, value);
        let mirror_cost = self.store(addr, value).mirror_cost(addr);
        let (switched, load) = written.select(addr, value);
        match load {
            Ok(load_cost) => (switched, Ok((1 + load_cost + mirror_cost) as usize)),
            Err(e) => (switched, Err(e)),
        }
    }

    /// A write of a word: two writes of one byte, the most significant byte
    /// first. An error in the first stops the second.
    #[verifier::opaque]
    pub open spec fn write_word_mem(self, addr: u16, value: u16) -> (Machine, Result<usize, VmError>) {
        let (first, cost1) = self.write_byte_mem(addr, hi_byte(value));
        match cost1 {
            Err(e) => (first, Err(e)),
            Ok(c1) => {
                let (second, cost2) = first.write_byte_mem(next_addr(addr), lo_byte(value));
                match cost2 {
                    Err(e) => (second, Err(e)),
                    Ok(c2) => (second, Ok((c1 + c2) as usize)),
                }
            },
        }
    }

    // Stack and frame pointers

    /// The stack pointer, the word stored at its fixed address.
    pub open spec fn sp(self) -> u16 {
        self.read_word_mem(address::SP as u16)
    }

    /// The frame pointer, the word stored at its fixed address.
    pub open spec fn fp(self) -> u16 {
        self.read_word_mem(address::FP as u16)
    }

    // Operand bytes

    /// The next operand byte.
    pub open spec fn peek_arg(self) -> u8 {
        self.memory[self.arg_ptr as int]
    }

    /// The machine after `n` operand bytes were consumed.
    pub open spec fn skip_args(self, n: int) -> Machine {
        Machine { arg_ptr: ((self.arg_ptr + n) % 65536) as u16, ..self }
    }

    /// The next two operand bytes as a big-endian word.
    pub open spec fn peek_arg_word(self) -> u16 {
        word_of(self.memory[self.arg_ptr as int], self.memory[next_addr(self.arg_ptr) as int])
    }

    /// Reading one operand byte: the byte, and the machine past it.
    pub open spec fn read_arg_byte(self) -> (Machine, u8) {
        (self.skip_args(1), self.peek_arg())
    }

    /// Reading an operand word: the word, and the machine past it.
    pub open spec fn read_arg_word(self) -> (Machine, u16) {
        (self.skip_args(2), self.peek_arg_word())
    }

    /// Reading a register operand: the operand byte is consumed, decoded or
    /// not.
    pub open spec fn read_arg_register(self) -> (Machine, Result<Register, VmError>) {
        (self.skip_args(1), decode_register(self.peek_arg()))
    }

    // Registers

    /// The byte in a register, whatever the addressing mode.
    pub open spec fn read_byte_reg_value(self, reg: Register) -> u8 {
        self.registers[reg.addr as int]
    }

    /// The word in a word register, whatever the addressing mode.
    pub open spec fn read_word_reg_value(self, reg: Register) -> Result<u16, VmError> {
        if reg.size == 2 {
            Ok(word_of(self.registers[reg.addr as int], self.registers[reg.addr + 1]))
        } else {
            Err(VmError::ExtendedRegisterRequired(reg.id_of()))
        }
    }

    /// The machine with the byte in a register replaced.
    pub open spec fn write_byte_reg_value(self, reg: Register, value: u8) -> Machine {
        Machine { registers: self.registers.update(reg.addr as int, value), ..self }
    }

    /// The machine with the word in a word register replaced.
    pub open spec fn write_word_reg_value(self, reg: Register, value: u16) -> (Machine, Result<usize, VmError>) {
        if reg.size == 2 {
            (
                Machine {
                    registers: self.registers.update(reg.addr as int, hi_byte(value)).update(
                        reg.addr + 1,
                        lo_byte(value),
                    ),
                    ..self
                },
                Ok(2usize),
            )
        } else {
            (self, Err(VmError::ExtendedRegisterRequired(reg.id_of())))
        }
    }

    /// Reading a byte through an operand: the register's own byte, in one
    /// cycle, or the byte of memory that the word register points at, in
    /// three.
    #[verifier::opaque]
    pub open spec fn read_byte_reg(self, reg: Register, offset: i16) -> Result<(u8, usize), VmError> {
        if reg.is_indirect {
            match self.read_word_reg_value(reg) {
                Ok(pointer) => Ok((self.read_byte_mem(index_of(pointer, offset)), 3usize)),
                Err(e) => Err(e),
            }
        } else {
            Ok((self.read_byte_reg_value(reg), 1usize))
        }
    }

    /// Reading a word through an operand, which must name a word register:
    /// the register's own word, in two cycles, or the word of memory that it
    /// points at, in four.
    #[verifier::opaque]
    pub open spec fn read_word_reg(self, reg: Register, offset: i16) -> Result<(u16, usize), VmError> {
        match self.read_word_reg_value(reg) {
            Ok(value) => if reg.is_indirect {
                Ok((self.read_word_mem(index_of(value, offset)), 4usize))
            } else {
                Ok((value, 2usize))
            },
            Err(e) => Err(e),
        }
    }

    /// Writing a byte through an operand: into the register itself, in one
    /// cycle, or into the memory that the word register points at, in two
    /// cycles and those of the write.
    #[verifier::opaque]
    pub open spec fn write_byte_reg(self, reg: Register, offset: i16, value: u8) -> (Machine, Result<usize, VmError>) {
        if reg.is_indirect {
            match self.read_word_reg_value(reg) {
                Ok(pointer) => {
                    let (written, cost) = self.write_byte_mem(index_of(pointer, offset), value);
                    match cost {
                        Ok(c) => (written, Ok((2 + c) as usize)),
                        Err(e) => (written, Err(e)),
                    }
                },
                Err(e) => (self, Err(e)),
            }
        } else {
            (self.write_byte_reg_value(reg, value), Ok(1usize))
        }
    }

    /// Writing a word through an operand, which must name a word register:
    /// into the register itself, in two cycles, or into the memory that it
    /// points at, in two cycles and those of the write.
    #[verifier::opaque]
    pub open spec fn write_word_reg(self, reg: Register, offset: i16, value: u16) -> (Machine, Result<usize, VmError>) {
        if reg.is_indirect {
            match self.read_word_reg_value(reg) {
                Ok(pointer) => {
                    let (written, cost) = self.write_word_mem(index_of(pointer, offset), value);
                    match cost {
                        Ok(c) => (written, Ok((2 + c) as usize)),
                        Err(e) => (written, Err(e)),
                    }
                },
                Err(e) => (self, Err(e)),
            }
        } else {
            self.write_word_reg_value(reg, value)
        }
    }

    // Pre and post adjustment

    /// Whether the adjustment of an operand falls on this side of the access.
    pub open spec fn adjusts(reg: Register, is_post: bool) -> bool {
        reg.is_calc && reg.is_post == is_post
    }

    /// The adjustment of an operand on one side of the access: the register
    /// itself moves by the width of the operation, modulo its own width, at
    /// the cost of writing it.
    #[verifier::opaque]
    pub open spec fn process_arg(self, reg: Register, op_size: u8, is_post: bool) -> (Machine, usize) {
        if Self::adjusts(reg, is_post) {
            let step: int = if reg.is_inc {
                op_size as int
            } else {
                -(op_size as int)
            };
            if reg.size == 2 {
                let value = word_of(self.registers[reg.addr as int], self.registers[reg.addr + 1]);
                (self.write_word_reg_value(reg, ((value + step) % 65536) as u16).0, 2usize)
            } else {
                let value = self.registers[reg.addr as int];
                (self.write_byte_reg_value(reg, ((value + step) % 256) as u8), 1usize)
            }
        } else {
            (self, 0usize)
        }
    }

    /// What comes before the access through an operand: the pre-adjustment,
    /// and then the offset of an indexed mode, which is read from an
    /// immediate word, from the byte register, or from the word register
    /// that a further operand byte names.
    #[verifier::opaque]
    pub open spec fn pre_process(self, reg: Register, op_size: u8) -> (Machine, Result<(i16, usize), VmError>) {
        let (adjusted, cost) = self.process_arg(reg, op_size, false);
        if reg.is_offset_num {
            let (after, word) = adjusted.read_arg_word();
            (after, Ok((crate::types::signed_word(word) as i16, cost)))
        } else if reg.is_offset_reg {
            let (after, decoded) = adjusted.read_arg_register();
            match decoded {
                Ok(offset_reg) => (
                    after,
                    Ok((after.read_byte_reg_value(offset_reg) as i16, (cost + 1) as usize)),
                ),
                Err(e) => (after, Err(e)),
            }
        } else if reg.is_offset_ext_reg {
            let (after, decoded) = adjusted.read_arg_register();
            match decoded {
                Ok(offset_reg) => match after.read_word_reg_value(offset_reg) {
                    Ok(word) => (
                        after,
                        Ok((crate::types::signed_word(word) as i16, (cost + 2) as usize)),
                    ),
                    Err(e) => (after, Err(e)),
                },
                Err(e) => (after, Err(e)),
            }
        } else {
            (adjusted, Ok((0i16, cost)))
        }
    }

    /// What comes after the access through an operand: the post-adjustment.
    pub open spec fn post_process(self, reg: Register, op_size: u8) -> (Machine, usize) {
        self.process_arg(reg, op_size, true)
    }
}

} // verus!
