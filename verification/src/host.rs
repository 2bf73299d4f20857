//! The operations that a host drives the machine with: construction,
//! loading, stepping, interrupts, and writes from outside.

use vstd::prelude::*;
use crate::constants::registers::offset::FLAGS;
use crate::constants::registers::FLG_DEFAULT;
use crate::error::VmError;
use crate::mem::address;
use crate::mem::sizes;
use crate::model::{next_addr, overlay, Machine, Window};
use crate::ops::block::place;
use crate::ops::misc::vector_of;
use crate::vm::{banks_view, copy_bank, VM};

verus! {

/// A counter moved on, stopping at the largest value that it can hold.
pub open spec fn bumped(count: usize, by: usize) -> usize {
    if count + by <= usize::MAX {
        (count + by) as usize
    } else {
        usize::MAX
    }
}

/// The bank that a window shows after initialisation where enough banks are
/// provisioned: the first for the first window of each kind, and the second,
/// third and fourth for the further windows.
pub open spec fn preferred(window: Window) -> u8 {
    match window {
        Window::Code2 | Window::Ram2 | Window::Atlas2 => 1,
        Window::Atlas3 => 2,
        Window::Atlas4 => 3,
        _ => 0,
    }
}

impl Window {
    /// The address of the byte that selects the window's bank.
    pub fn select_at(self) -> (r: u16)
        ensures
            r == self.select_addr(),
    {
        match self {
            Window::Code1 => address::CODE_BANK_1_ID as u16,
            Window::Code2 => address::CODE_BANK_2_ID as u16,
            Window::Ram1 => address::RAM_BANK_1_ID as u16,
            Window::Ram2 => address::RAM_BANK_2_ID as u16,
            Window::Save => address::SAVE_BANK_ID as u16,
            Window::Atlas1 => address::ATLAS1_BANK_ID as u16,
            Window::Atlas2 => address::ATLAS2_BANK_ID as u16,
            Window::Atlas3 => address::ATLAS3_BANK_ID as u16,
            Window::Atlas4 => address::ATLAS4_BANK_ID as u16,
        }
    }

    /// The bank that the window is to show after initialisation.
    pub fn first_choice(self) -> (r: u8)
        ensures
            r == preferred(self),
    {
        match self {
            Window::Code2 | Window::Ram2 | Window::Atlas2 => 1,
            Window::Atlas3 => 2,
            Window::Atlas4 => 3,
            _ => 0,
        }
    }
}

impl Machine {
    /// The machine after reset: every byte zero, but for the flags register,
    /// which holds ZERO and INTERRUPTS, and the stack and frame pointers,
    /// which point at the base of the stack. No banks, no error.
    pub open spec fn fresh() -> Machine {
        (Machine {
            registers: Seq::new(9, |i: int| if i == FLAGS { FLG_DEFAULT } else { 0u8 }),
            pc: 0,
            memory: Seq::new(65536, |i: int| 0u8),
            ram_banks: Seq::empty(),
            code_banks: Seq::empty(),
            save_banks: Seq::empty(),
            save_dirty_flag: Seq::new(16, |i: int| false),
            atlas_banks: Seq::empty(),
            error: None,
            fault: None,
            halted: false,
            op_executed: 0,
            cycles_executed: 0,
            arg_ptr: 0,
            sound_writes: Seq::empty(),
        }).store_word(address::SP as u16, address::STACK as u16).store_word(
            address::FP as u16,
            address::STACK as u16,
        )
    }

    /// The machine after a fatal error: it is halted, and holds the error
    /// and its message with a dump of the state in which it struck.
    pub open spec fn fail(self, err: VmError) -> Machine {
        Machine { error: Some(self.error_text(err)), fault: Some(err), halted: true, ..self }
    }

    /// The machine with new banks, and nothing else changed.
    pub open spec fn load_game(
        self,
        code_banks: Seq<Seq<u8>>,
        ram_banks: Seq<Seq<u8>>,
        atlas_banks: Seq<Seq<u8>>,
        save_banks: Seq<Seq<u8>>,
    ) -> Machine {
        Machine { code_banks, ram_banks, atlas_banks, save_banks, ..self }
    }

    /// The bank that initialisation selects for a window: the preferred one
    /// where it is provisioned, the first one where it is not.
    pub open spec fn initial_bank(self, window: Window) -> u8 {
        if preferred(window) < self.banks(window.kind()).len() {
            preferred(window)
        } else {
            0
        }
    }

    /// The initialisation of one window: its bank is selected by a write to
    /// its bank-select byte. A kind of which no bank is provisioned is left
    /// alone.
    pub open spec fn init_window(self, window: Window) -> Machine {
        if self.banks(window.kind()).len() == 0 {
            self
        } else {
            self.write_byte_mem(window.select_addr() as u16, self.initial_bank(window)).0
        }
    }

    /// Initialisation: every window is set to show its initial bank.
    pub open spec fn init(self) -> Machine {
        self.init_window(Window::Code1).init_window(Window::Code2).init_window(
            Window::Ram1,
        ).init_window(Window::Ram2).init_window(Window::Save).init_window(
            Window::Atlas1,
        ).init_window(Window::Atlas2).init_window(Window::Atlas3).init_window(Window::Atlas4)
    }

    /// One step: a halted machine does nothing. Otherwise the instruction at
    /// the program counter is executed with its operands read from the bytes
    /// after it. Where it has not set the program counter, the counter moves
    /// to the byte after the last operand read; the counters of operations
    /// and cycles move on. An error halts the machine. The result is the
    /// cycles used.
    pub open spec fn step(self) -> (Machine, usize) {
        if self.halted {
            (self, 0usize)
        } else {
            let ready = Machine { arg_ptr: next_addr(self.pc), ..self };
            let (after, result) = ready.execute(self.memory[self.pc as int]);
            match result {
                Ok(done) => (
                    Machine {
                        pc: if done.0 {
                            after.pc
                        } else {
                            after.arg_ptr
                        },
                        cycles_executed: bumped(after.cycles_executed, done.1),
                        op_executed: bumped(after.op_executed, 1),
                        ..after
                    },
                    done.1,
                ),
                Err(e) => (after.fail(e), 0usize),
            }
        }
    }

    /// An instruction from the host: its bytes are stored in the reserved
    /// scratch area and executed from there. The program counter moves only
    /// if the instruction sets it. An error halts the machine.
    pub open spec fn execute_op(self, bytes: Seq<u8>) -> Machine {
        let ready = Machine {
            memory: overlay(self.memory, address::RESERVED as int, bytes),
            arg_ptr: (address::RESERVED + 1) as u16,
            ..self
        };
        let (after, result) = ready.execute(bytes[0]);
        match result {
            Ok(_) => after,
            Err(e) => after.fail(e),
        }
    }

    /// An interrupt from the host. It is accepted only where interrupts are
    /// enabled and the control byte has the bits of the id; a value that is
    /// accepted and names no interrupt halts the machine.
    pub open spec fn trigger_interrupt(self, interrupt_id: u8) -> Machine {
        if self.accepts(interrupt_id) {
            match vector_of(interrupt_id) {
                Some(vector) => self.enter_interrupt(vector),
                None => self.fail(VmError::InvalidInterrupt(interrupt_id)),
            }
        } else {
            self
        }
    }

    /// A write from the host, with every effect of a write. An error halts
    /// the machine.
    pub open spec fn debug_set_mem(self, addr: u16, value: u8) -> Machine {
        let (after, result) = self.write_byte_mem(addr, value);
        match result {
            Ok(_) => after,
            Err(e) => after.fail(e),
        }
    }

    /// The writes of `values[i..]` from the host to `addr + i` on, one after
    /// another. The first error halts the machine and ends the writes.
    pub open spec fn debug_set_mem_from(self, addr: u16, values: Seq<u8>, i: nat) -> Machine
        decreases values.len() - i,
    {
        if i >= values.len() {
            self
        } else {
            let (after, result) = self.write_byte_mem(place(addr, i as int), values[i as int]);
            match result {
                Ok(_) => after.debug_set_mem_from(addr, values, i + 1),
                Err(e) => after.fail(e),
            }
        }
    }

    /// The machine after the host took the queued sound writes.
    pub open spec fn without_sound_writes(self) -> Machine {
        Machine { sound_writes: Seq::empty(), ..self }
    }

    /// The machine after the sound unit signalled a channel reset: the sound
    /// registers are zero.
    pub open spec fn reset_sound_registers(self) -> Machine {
        Machine {
            memory: overlay(
                self.memory,
                address::SOUND as int,
                Seq::new(sizes::SOUND as nat, |i: int| 0u8),
            ),
            ..self
        }
    }
}

impl VM {
    /// A machine after reset.
    pub fn new() -> (vm: VM)
        ensures
            vm@ == Machine::fresh(),
    {
        let mut registers: [u8; 9] = [0;9];
        registers[FLAGS] = FLG_DEFAULT;
        let mut vm: VM = VM {
            registers,
            pc: 0,
            memory: [0;65536],
            ram_banks: Vec::new(),
            code_banks: Vec::new(),
            save_banks: Vec::new(),
            save_dirty_flag: [false;16],
            atlas_banks: Vec::new(),
            error: None,
            fault: None,
            halted: false,
            op_executed: 0,
            cycles_executed: 0,
            arg_ptr: 0,
            sound_writes: Vec::new(),
        };
        vm.store_word(address::SP as u16, address::STACK as u16);
        vm.store_word(address::FP as u16, address::STACK as u16);
        assert(vm@ =~~= Machine::fresh());
        vm
    }

    /// A machine after reset, for tests.
    pub fn new_test() -> (vm: VM)
        ensures
            vm@ == Machine::fresh(),
    {
        VM::new()
    }

    /// Halts the machine on a fatal error and records it.
    pub fn fail(&mut self, err: VmError)
        ensures
            final(self)@ == old(self)@.fail(err),
    {
        let text: String = self.error_text(err);
        self.error = Some(text);
        self.fault = Some(err);
        self.halted = true;
    }

    /// Replaces the banks of the machine. This changes nothing else: the
    /// windows show what they showed until [`VM::init`] is called.
    pub fn load_game(
        &mut self,
        code_banks: Vec<[u8; 4200]>,
        ram_banks: Vec<[u8; 4200]>,
        atlas_banks: Vec<[u8; 4000]>,
        save_banks: Vec<[u8; 4096]>,
    )
        ensures
            final(self)@ == old(self)@.load_game(
                banks_view(code_banks@),
                banks_view(ram_banks@),
                banks_view(atlas_banks@),
                banks_view(save_banks@),
            ),
    {
        self.code_banks = code_banks;
        self.ram_banks = ram_banks;
        self.atlas_banks = atlas_banks;
        self.save_banks = save_banks;
    }

    /// The number of banks provisioned for a window.
    pub fn bank_count(&self, window: Window) -> (r: usize)
        ensures
            r == self@.banks(window.kind()).len(),
    {
        match window {
            Window::Code1 | Window::Code2 => self.code_banks.len(),
            Window::Ram1 | Window::Ram2 => self.ram_banks.len(),
            Window::Save => self.save_banks.len(),
            _ => self.atlas_banks.len(),
        }
    }

    /// Sets one window to show its initial bank.
    pub fn init_window(&mut self, window: Window)
        ensures
            final(self)@ == old(self)@.init_window(window),
    {
        let count: usize = self.bank_count(window);
        if count > 0 {
            let choice: u8 = window.first_choice();
            let id: u8 = if (choice as usize) < count {
                choice
            } else {
                0
            };
            let written: Result<usize, VmError> = self.write_byte_mem(window.select_at(), id);
        }
    }

    /// Sets every window to show its initial bank. To be called once after
    /// [`VM::load_game`] and before the first step.
    pub fn init(&mut self)
        ensures
            final(self)@ == old(self)@.init(),
    {
        self.init_window(Window::Code1);
        self.init_window(Window::Code2);
        self.init_window(Window::Ram1);
        self.init_window(Window::Ram2);
        self.init_window(Window::Save);
        self.init_window(Window::Atlas1);
        self.init_window(Window::Atlas2);
        self.init_window(Window::Atlas3);
        self.init_window(Window::Atlas4);
    }

    /// A counter moved on, stopping at the largest value that it can hold.
    pub fn bump(count: usize, by: usize) -> (r: usize)
        ensures
            r == bumped(count, by),
    {
        if by <= usize::MAX - count {
            count + by
        } else {
            usize::MAX
        }
    }

    /// Advances the machine by one instruction. Returns the cycles used;
    /// the host is to look at [`VM::halted`] after every step.
    pub fn step(&mut self) -> (cycles: usize)
        ensures
            final(self)@ == old(self)@.step().0,
            cycles == old(self)@.step().1,
    {
        if self.halted {
            return 0;
        }
        let op: u8 = self.memory[self.pc as usize];
        self.arg_ptr = Self::after(self.pc);
        match self.execute(op) {
            Ok(done) => {
                if !done.0 {
                    self.pc = self.arg_ptr;
                }
                self.cycles_executed = Self::bump(self.cycles_executed, done.1);
                self.op_executed = Self::bump(self.op_executed, 1);
                done.1
            },
            Err(e) => {
                self.fail(e);
                0
            },
        }
    }

    /// Runs one instruction given by the host, from the reserved scratch
    /// area. The program counter does not advance of itself.
    pub fn execute_op(&mut self, bytes: &[u8])
        requires
            1 <= bytes@.len() <= sizes::RESERVED,
        ensures
            final(self)@ == old(self)@.execute_op(bytes@),
    {
        let mut i: usize = 0;
        while i < bytes.len()
            invariant
                i <= bytes@.len() <= sizes::RESERVED,
                self.registers == old(self).registers,
                self.pc == old(self).pc,
                self.ram_banks == old(self).ram_banks,
                self.code_banks == old(self).code_banks,
                self.save_banks == old(self).save_banks,
                self.atlas_banks == old(self).atlas_banks,
                self.save_dirty_flag == old(self).save_dirty_flag,
                self.error == old(self).error,
                self.fault == old(self).fault,
                self.halted == old(self).halted,
                self.op_executed == old(self).op_executed,
                self.cycles_executed == old(self).cycles_executed,
                self.sound_writes == old(self).sound_writes,
                forall|j: int|
                    0 <= j < 65536 ==> self.memory@[j] == (if address::RESERVED <= j
                        < address::RESERVED + i {
                        bytes@[j - address::RESERVED]
                    } else {
                        old(self).memory@[j]
                    }),
            decreases bytes@.len() - i,
        {
            self.memory[address::RESERVED + i] = bytes[i];
            i = i + 1;
        }
        self.arg_ptr = (address::RESERVED + 1) as u16;
        assert(self@ =~= (Machine {
            memory: overlay(old(self)@.memory, address::RESERVED as int, bytes@),
            arg_ptr: (address::RESERVED + 1) as u16,
            ..old(self)@
        }));
        match self.execute(bytes[0]) {
            Ok(_) => {},
            Err(e) => self.fail(e),
        }
    }

    /// Triggers the interrupt with the id `interrupt_id`, if the machine
    /// accepts it.
    pub fn trigger_interrupt(&mut self, interrupt_id: u8)
        ensures
            final(self)@ == old(self)@.trigger_interrupt(interrupt_id),
    {
        if self.accepts(interrupt_id) {
            match Self::vector(interrupt_id) {
                Some(vector) => self.enter_interrupt(vector),
                None => self.fail(VmError::InvalidInterrupt(interrupt_id)),
            }
        }
    }

    /// Sets one byte of memory from outside, with every effect of a write.
    pub fn debug_set_mem(&mut self, addr: u16, value: u8)
        ensures
            final(self)@ == old(self)@.debug_set_mem(addr, value),
    {
        match self.write_byte_mem(addr, value) {
            Ok(_) => {},
            Err(e) => self.fail(e),
        }
    }

    /// Sets a run of bytes of memory from outside, with every effect of a
    /// write.
    pub fn debug_set_mem_range(&mut self, addr: u16, values: &[u8])
        ensures
            final(self)@ == old(self)@.debug_set_mem_from(addr, values@, 0),
    {
        let mut i: usize = 0;
        let mut at: u16 = addr;
        while i < values.len()
            invariant
                i <= values@.len(),
                at == place(addr, i as int),
                old(self)@.debug_set_mem_from(addr, values@, 0) == self@.debug_set_mem_from(
                    addr,
                    values@,
                    i as nat,
                ),
            decreases values@.len() - i,
        {
            match self.write_byte_mem(at, values[i]) {
                Ok(_) => {},
                Err(e) => {
                    self.fail(e);
                    return ;
                },
            }
            proof {
                vstd::arithmetic::div_mod::lemma_add_mod_noop(addr + i, 1, 65536);
            }
            at = Self::after(at);
            i = i + 1;
        }
    }

    /// Hands the queued sound writes to the host, oldest first, and empties
    /// the queue.
    pub fn take_sound_writes(&mut self) -> (r: Vec<(u16, u8)>)
        ensures
            final(self)@ == old(self)@.without_sound_writes(),
            r@ == old(self)@.sound_writes,
    {
        let mut taken: Vec<(u16, u8)> = Vec::new();
        std::mem::swap(&mut self.sound_writes, &mut taken);
        assert(self@ =~= old(self)@.without_sound_writes());
        taken
    }

    /// Zeroes the sound registers, as the sound unit asks when it signals a
    /// channel reset.
    pub fn reset_sound_registers(&mut self)
        ensures
            final(self)@ == old(self)@.reset_sound_registers(),
    {
        let zeroes: [u8; 30] = [0;30];
        copy_bank(&mut self.memory, address::SOUND, &zeroes);
        assert(self@ =~= old(self)@.reset_sound_registers());
    }
}

} // verus!
