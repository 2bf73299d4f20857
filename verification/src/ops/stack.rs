//! The stack. It grows upward from its base; the stack pointer and the
//! frame pointer are words of memory at fixed addresses.

use vstd::prelude::*;
use crate::error::VmError;
use crate::mem::address;
use crate::model::Machine;
use crate::ops::operand::{ArgKind, Single, Width};
use crate::vm::VM;

verus! {

impl Machine {
    /// The machine with the stack pointer replaced.
    pub open spec fn set_sp(self, value: u16) -> Machine {
        self.store_word(address::SP as u16, value)
    }

    /// The machine with the frame pointer replaced.
    pub open spec fn set_fp(self, value: u16) -> Machine {
        self.store_word(address::FP as u16, value)
    }

    /// Whether the stack has room for `needed` more bytes.
    pub open spec fn has_room(self, needed: u16) -> bool {
        self.sp() < 65535 - needed
    }

    /// A value of a width written at the stack pointer, which then moves up
    /// by the width. Without room for it, nothing changes and the stack
    /// overflows.
    #[verifier::opaque]
    pub open spec fn push_value(self, width: Width, value: u16) -> (Machine, Result<usize, VmError>) {
        if self.has_room(width.bytes() as u16) {
            let sp = self.sp();
            let stored = match width {
                Width::Byte => self.store(sp, value as u8),
                Width::Word => self.store_word(sp, value),
            };
            (stored.set_sp((sp + width.bytes()) as u16), Ok(width.bytes() as usize))
        } else {
            (self, Err(VmError::StackOverflow))
        }
    }

    /// The stack pointer moves down by a width, and the value that it then
    /// points at is read.
    #[verifier::opaque]
    pub open spec fn pop_value(self, width: Width) -> (Machine, u16) {
        let sp = ((self.sp() - width.bytes()) % 65536) as u16;
        let lowered = self.set_sp(sp);
        match width {
            Width::Byte => (lowered, lowered.read_byte_mem(sp) as u16),
            Width::Word => (lowered, lowered.read_word_mem(sp)),
        }
    }

    /// PUSH: the value of a register operand or an immediate is pushed.
    #[verifier::opaque]
    pub open spec fn push(self, width: Width, kind: ArgKind) -> (Machine, Result<usize, VmError>) {
        let (m1, setup) = self.setup_one(kind, width);
        match setup {
            Err(e) => (m1, Err(e)),
            Ok(single) => match m1.load(single.dst, width, single.dst_offset) {
                Err(e) => (m1, Err(e)),
                Ok(read) => {
                    let (m2, pushed) = m1.push_value(width, read.0);
                    match pushed {
                        Err(e) => (m2, Err(e)),
                        Ok(push_cost) => {
                            let (m3, post) = m2.finish(single.dst, width);
                            (m3, Ok((single.cost + read.1 + push_cost + post) as usize))
                        },
                    }
                },
            },
        }
    }

    /// POP: a value is popped and written through a register operand.
    #[verifier::opaque]
    pub open spec fn pop(self, width: Width) -> (Machine, Result<usize, VmError>) {
        let (m1, setup) = self.setup_one(ArgKind::Reg, width);
        match setup {
            Err(e) => (m1, Err(e)),
            Ok(single) => {
                let (m2, value) = m1.pop_value(width);
                let (m3, written) = m2.save(single.dst, width, single.dst_offset, value);
                match written {
                    Err(e) => (m3, Err(e)),
                    Ok(write_cost) => {
                        let (m4, post) = m3.finish(single.dst, width);
                        (m4, Ok((single.cost + width.bytes() + write_cost + post) as usize))
                    },
                }
            },
        }
    }

    /// The address of the instruction after the one being executed, given
    /// where its operand bytes started.
    pub open spec fn return_address(self, args_start: u16) -> u16 {
        ((self.pc + 1 + (self.arg_ptr - args_start) % 65536) % 65536) as u16
    }

    /// CALL: with room for four bytes, the frame pointer and then the
    /// address of the next instruction are pushed, and the program counter
    /// is set to the target. Without room, the stack overflows and neither
    /// the stack nor its pointers change.
    #[verifier::opaque]
    pub open spec fn call(self, kind: ArgKind) -> (Machine, Result<usize, VmError>) {
        let (m1, setup) = self.setup_one(kind, Width::Word);
        match setup {
            Err(e) => (m1, Err(e)),
            Ok(single) => match m1.target(single.dst, single.dst_offset) {
                Err(e) => (m1, Err(e)),
                Ok(target) => {
                    let (m2, post) = m1.finish(single.dst, Width::Word);
                    if m2.has_room(4) {
                        let back = m2.return_address(self.arg_ptr);
                        let m3 = m2.push_value(Width::Word, m2.fp()).0;
                        let m4 = m3.push_value(Width::Word, back).0;
                        (m4.goto(target.0), Ok((single.cost + target.1 + post + 4) as usize))
                    } else {
                        (m2, Err(VmError::StackOverflow))
                    }
                },
            },
        }
    }

    /// RET: the program counter is popped, and then the frame pointer, in
    /// three cycles.
    #[verifier::opaque]
    pub open spec fn ret(self) -> (Machine, usize) {
        let (m1, back) = self.pop_value(Width::Word);
        let (m2, frame) = m1.pop_value(Width::Word);
        (m2.goto(back).set_fp(frame), 3usize)
    }
}

impl VM {
    /// Replaces the stack pointer.
    pub fn set_sp(&mut self, value: u16)
        ensures
            final(self)@ == old(self)@.set_sp(value),
    {
        self.store_word(address::SP as u16, value);
    }

    /// Replaces the frame pointer.
    pub fn set_fp(&mut self, value: u16)
        ensures
            final(self)@ == old(self)@.set_fp(value),
    {
        self.store_word(address::FP as u16, value);
    }

    /// Whether the stack has room for `needed` more bytes.
    pub fn has_room(&self, needed: u16) -> (r: bool)
        ensures
            r == self@.has_room(needed),
    {
        (self.get_sp() as u32) + (needed as u32) < 65535
    }

    /// Pushes a value of a width. Returns the cycles used.
    pub fn push_value(&mut self, width: Width, value: u16) -> (r: Result<usize, VmError>)
        requires
            width.fits(value),
        ensures
            final(self)@ == old(self)@.push_value(width, value).0,
            r == old(self)@.push_value(width, value).1,
            r matches Ok(cost) ==> cost <= 2,
    {
        proof {
            reveal(Machine::push_value);
        }
        let size: u8 = width.size();
        if !self.has_room(size as u16) {
            return Err(VmError::StackOverflow);
        }
        let sp: u16 = self.get_sp();
        match width {
            Width::Byte => self.store(sp, value as u8),
            Width::Word => self.store_word(sp, value),
        }
        self.set_sp(sp + size as u16);
        Ok(size as usize)
    }

    /// Pops a value of a width.
    pub fn pop_value(&mut self, width: Width) -> (r: u16)
        ensures
            final(self)@ == old(self)@.pop_value(width).0,
            r == old(self)@.pop_value(width).1,
            width.fits(r),
    {
        proof {
            reveal(Machine::pop_value);
        }
        let size: u16 = width.size() as u16;
        let current: u16 = self.get_sp();
        let sp: u16 = if current >= size {
            current - size
        } else {
            65535 - (size - current - 1)
        };
        assert(sp == ((current - size) % 65536) as u16);
        self.set_sp(sp);
        match width {
            Width::Byte => self.read_byte_mem(sp).0 as u16,
            Width::Word => self.read_word_mem(sp).0,
        }
    }

    /// Executes a PUSH. Returns the cycles used.
    pub fn push(&mut self, width: Width, kind: ArgKind) -> (r: Result<usize, VmError>)
        ensures
            final(self)@ == old(self)@.push(width, kind).0,
            r == old(self)@.push(width, kind).1,
            r matches Ok(cost) ==> cost <= 100,
    {
        proof {
            reveal(Machine::push);
        }
        let single: Single = self.setup_one(kind, width)?;
        let read: (u16, usize) = self.load(&single.dst, width, single.dst_offset)?;
        let push_cost: usize = self.push_value(width, read.0)?;
        let post: usize = self.finish(&single.dst, width);
        Ok(single.cost + read.1 + push_cost + post)
    }

    /// Executes a POP. Returns the cycles used.
    pub fn pop(&mut self, width: Width) -> (r: Result<usize, VmError>)
        ensures
            final(self)@ == old(self)@.pop(width).0,
            r == old(self)@.pop(width).1,
            r matches Ok(cost) ==> cost <= 100,
    {
        proof {
            reveal(Machine::pop);
        }
        let single: Single = self.setup_one(ArgKind::Reg, width)?;
        let value: u16 = self.pop_value(width);
        let write_cost: usize = self.save(&single.dst, width, single.dst_offset, value)?;
        let post: usize = self.finish(&single.dst, width);
        Ok(single.cost + width.size() as usize + write_cost + post)
    }

    /// The address of the instruction after the one being executed.
    pub fn return_address(&self, args_start: u16) -> (r: u16)
        ensures
            r == self@.return_address(args_start),
    {
        let consumed: u32 = (65536 + self.arg_ptr as u32 - args_start as u32) % 65536;
        ((self.pc as u32 + 1 + consumed) % 65536) as u16
    }

    /// Executes a CALL. Returns the cycles used.
    pub fn call(&mut self, kind: ArgKind) -> (r: Result<usize, VmError>)
        ensures
            final(self)@ == old(self)@.call(kind).0,
            r == old(self)@.call(kind).1,
            r matches Ok(cost) ==> cost <= 100,
    {
        proof {
            reveal(Machine::call);
        }
        let args_start: u16 = self.arg_ptr;
        let single: Single = self.setup_one(kind, Width::Word)?;
        let target: (u16, usize) = self.target(&single.dst, single.dst_offset)?;
        let post: usize = self.finish(&single.dst, Width::Word);
        if !self.has_room(4) {
            return Err(VmError::StackOverflow);
        }
        let back: u16 = self.return_address(args_start);
        let frame: u16 = self.get_fp();
        let pushed_frame: Result<usize, VmError> = self.push_value(Width::Word, frame);
        let pushed_back: Result<usize, VmError> = self.push_value(Width::Word, back);
        self.goto(target.0);
        Ok(single.cost + target.1 + post + 4)
    }

    /// Executes a RET. Returns the cycles used.
    pub fn ret(&mut self) -> (cost: usize)
        ensures
            final(self)@ == old(self)@.ret().0,
            cost == old(self)@.ret().1,
            cost == 3,
    {
        proof {
            reveal(Machine::ret);
        }
        let back: u16 = self.pop_value(Width::Word);
        let frame: u16 = self.pop_value(Width::Word);
        self.goto(back);
        self.set_fp(frame);
        3
    }
}

} // verus!
