//! Text for diagnostics: hexadecimal numbers, the message of each error,
//! and the dump of the machine's registers, stack and code.

use vstd::prelude::*;
use vstd::string::StringExecFns;
use crate::constants::registers::id::{name, name_of};
use crate::error::VmError;
use crate::mem::address;
use crate::model::{hi_byte, lo_byte, Machine};
use crate::vm::VM;

verus! {

/// The upper-case hexadecimal digit for a value below sixteen.
pub open spec fn hex_digit(n: int) -> Seq<char> {
    if n == 0 {
        "0"@
    } else if n == 1 {
        "1"@
    } else if n == 2 {
        "2"@
    } else if n == 3 {
        "3"@
    } else if n == 4 {
        "4"@
    } else if n == 5 {
        "5"@
    } else if n == 6 {
        "6"@
    } else if n == 7 {
        "7"@
    } else if n == 8 {
        "8"@
    } else if n == 9 {
        "9"@
    } else if n == 10 {
        "A"@
    } else if n == 11 {
        "B"@
    } else if n == 12 {
        "C"@
    } else if n == 13 {
        "D"@
    } else if n == 14 {
        "E"@
    } else {
        "F"@
    }
}

/// A byte as two hexadecimal digits.
pub open spec fn hex_byte(b: u8) -> Seq<char> {
    hex_digit(b as int / 16) + hex_digit(b as int % 16)
}

/// A word as four hexadecimal digits.
pub open spec fn hex_word(w: u16) -> Seq<char> {
    hex_byte(hi_byte(w)) + hex_byte(lo_byte(w))
}

/// The first `count` of some bytes in hexadecimal, with one space between
/// neighbours.
pub open spec fn hex_run(bytes: Seq<u8>, count: nat) -> Seq<char>
    decreases count,
{
    if count == 0 {
        Seq::<char>::empty()
    } else if count == 1 {
        hex_byte(bytes[0])
    } else {
        hex_run(bytes, (count - 1) as nat) + " "@ + hex_byte(bytes[count - 1])
    }
}

/// The message of an error.
pub open spec fn message_of(err: VmError) -> Seq<char> {
    match err {
        VmError::InvalidRegister(byte) => "Invalid register: "@ + hex_byte(byte),
        VmError::InvalidAddressingMode(byte) => "Invalid addressing mode: "@ + hex_byte(byte),
        VmError::ExtendedRegisterRequired(reg) => "Can only use extended registers, not "@
            + name_of(reg),
        VmError::BankOutOfRange(addr, bank) => "No bank "@ + hex_byte(bank) + " to select at "@
            + hex_word(addr),
        VmError::StackOverflow => "Stack overflow"@,
        VmError::HaltedByProgram => "Halted by program"@,
        VmError::UnsupportedOp(op) => "Unsupported op: "@ + hex_byte(op),
        VmError::InvalidInterrupt(irq) => "Attempted to trigger invalid interrupt id: "@
            + hex_byte(irq),
        VmError::DivisionByZero => "Division by zero"@,
    }
}

/// Where the dump of the code starts: six bytes before the program counter,
/// or at the bottom of memory.
pub open spec fn code_start(pc: u16) -> int {
    if pc >= 6 {
        pc - 6
    } else {
        0
    }
}

/// Where the dump of the code ends: seven bytes after the program counter,
/// or at the last byte of memory.
pub open spec fn code_end(pc: u16) -> int {
    if pc + 7 <= 65535 {
        pc + 7
    } else {
        65535
    }
}

impl Machine {
    /// The bytes of the stack that are in use: from the base of the stack
    /// up to the stack pointer; none where the pointer is below the base.
    pub open spec fn stack_bytes(self) -> Seq<u8> {
        if self.sp() >= address::STACK {
            self.memory.subrange(address::STACK as int, self.sp() as int)
        } else {
            Seq::<u8>::empty()
        }
    }

    /// The bytes of code around the program counter.
    pub open spec fn code_bytes(self) -> Seq<u8> {
        self.memory.subrange(code_start(self.pc), code_end(self.pc))
    }

    /// The first line of the dump.
    pub open spec fn dump_line1(self) -> Seq<char> {
        "AH: "@ + hex_byte(self.registers[0]) + "  AL: "@ + hex_byte(self.registers[1]) + "  BH: "@
            + hex_byte(self.registers[2]) + "  BL: "@ + hex_byte(self.registers[3])
    }

    /// The second line of the dump.
    pub open spec fn dump_line2(self) -> Seq<char> {
        "CH: "@ + hex_byte(self.registers[4]) + "  CL: "@ + hex_byte(self.registers[5]) + "  DH: "@
            + hex_byte(self.registers[6]) + "  DL: "@ + hex_byte(self.registers[7])
    }

    /// The third line of the dump.
    pub open spec fn dump_line3(self) -> Seq<char> {
        "FLG: "@ + hex_byte(self.registers[8]) + " SP: "@ + hex_word(self.sp()) + " FP: "@
            + hex_word(self.fp()) + " PC: "@ + hex_word(self.pc)
    }

    /// The dump: the registers in hexadecimal on three lines, then the bytes
    /// of the stack, then the bytes of code around the program counter.
    pub open spec fn dump(self) -> Seq<char> {
        self.dump_line1() + "\n"@ + self.dump_line2() + "\n"@ + self.dump_line3() + "\nStack: "@
            + hex_run(self.stack_bytes(), self.stack_bytes().len()) + "\nCode: "@ + hex_run(
            self.code_bytes(),
            self.code_bytes().len(),
        )
    }

    /// The text that is recorded for an error: its message, and the dump of
    /// the machine below it.
    pub open spec fn error_text(self, err: VmError) -> Seq<char> {
        message_of(err) + "\n"@ + self.dump()
    }
}

/// Appending is associative.
pub proof fn lemma_concat3(a: Seq<char>, b: Seq<char>, c: Seq<char>)
    ensures
        (a + b) + c == a + (b + c),
{
    assert((a + b) + c =~= a + (b + c));
}

/// The hexadecimal digit for a value below sixteen.
pub(crate) fn digit(n: u8) -> (r: &'static str)
    requires
        n < 16,
    ensures
        r@ == hex_digit(n as int),
{
    match n {
        0 => "0",
        1 => "1",
        2 => "2",
        3 => "3",
        4 => "4",
        5 => "5",
        6 => "6",
        7 => "7",
        8 => "8",
        9 => "9",
        10 => "A",
        11 => "B",
        12 => "C",
        13 => "D",
        14 => "E",
        _ => "F",
    }
}

/// Appends a byte in hexadecimal.
pub fn push_hex_byte(text: &mut String, b: u8)
    ensures
        final(text)@ == old(text)@ + hex_byte(b),
{
    text.append(digit(b / 16));
    text.append(digit(b % 16));
    assert(text@ =~= old(text)@ + hex_byte(b));
}

/// Appends a word in hexadecimal.
pub fn push_hex_word(text: &mut String, w: u16)
    ensures
        final(text)@ == old(text)@ + hex_word(w),
{
    push_hex_byte(text, (w / 256) as u8);
    push_hex_byte(text, (w % 256) as u8);
    assert(text@ =~= old(text)@ + hex_word(w));
}

/// Appends the bytes of memory from `start` up to `end` in hexadecimal,
/// with one space between neighbours.
pub fn push_hex_run(text: &mut String, memory: &[u8; 65536], start: usize, end: usize)
    requires
        start <= end <= 65536,
    ensures
        final(text)@ == old(text)@ + hex_run(
            memory@.subrange(start as int, end as int),
            (end - start) as nat,
        ),
{
    let ghost bytes = memory@.subrange(start as int, end as int);
    let mut i: usize = start;
    assert(text@ =~= old(text)@ + hex_run(bytes, 0));
    while i < end
        invariant
            start <= i <= end <= 65536,
            bytes == memory@.subrange(start as int, end as int),
            text@ == old(text)@ + hex_run(bytes, (i - start) as nat),
        decreases end - i,
    {
        let ghost before = text@;
        if i > start {
            text.append(" ");
        }
        push_hex_byte(text, memory[i]);
        proof {
            let k = (i - start) as nat;
            assert(bytes[k as int] == memory@[i as int]);
            if k == 0 {
                assert(hex_run(bytes, 1) == hex_byte(bytes[0]));
                assert(hex_run(bytes, 0) =~= Seq::<char>::empty());
                assert(text@ =~= old(text)@ + hex_run(bytes, 1));
            } else {
                assert(hex_run(bytes, k + 1) == hex_run(bytes, k) + " "@ + hex_byte(bytes[k as int]));
                assert(text@ =~= old(text)@ + hex_run(bytes, k + 1));
            }
        }
        i = i + 1;
    }
}

impl VmError {
    /// The message of the error.
    pub fn message(&self) -> (r: String)
        ensures
            r@ == message_of(*self),
    {
        match self {
            VmError::InvalidRegister(byte) => {
                let mut text: String = String::from_str("Invalid register: ");
                push_hex_byte(&mut text, *byte);
                text
            },
            VmError::InvalidAddressingMode(byte) => {
                let mut text: String = String::from_str("Invalid addressing mode: ");
                push_hex_byte(&mut text, *byte);
                text
            },
            VmError::ExtendedRegisterRequired(reg) => {
                let mut text: String = String::from_str("Can only use extended registers, not ");
                text.append(name(*reg));
                text
            },
            VmError::BankOutOfRange(addr, bank) => {
                let mut text: String = String::from_str("No bank ");
                push_hex_byte(&mut text, *bank);
                text.append(" to select at ");
                push_hex_word(&mut text, *addr);
                text
            },
            VmError::StackOverflow => String::from_str("Stack overflow"),
            VmError::HaltedByProgram => String::from_str("Halted by program"),
            VmError::UnsupportedOp(op) => {
                let mut text: String = String::from_str("Unsupported op: ");
                push_hex_byte(&mut text, *op);
                text
            },
            VmError::InvalidInterrupt(irq) => {
                let mut text: String = String::from_str(
                    "Attempted to trigger invalid interrupt id: ",
                );
                push_hex_byte(&mut text, *irq);
                text
            },
            VmError::DivisionByZero => String::from_str("Division by zero"),
        }
    }
}

impl VM {
    /// Appends the first line of the dump.
    fn push_line1(&self, text: &mut String)
        ensures
            final(text)@ == old(text)@ + self@.dump_line1(),
    {
        text.append("AH: ");
        push_hex_byte(text, self.registers[0]);
        text.append("  AL: ");
        push_hex_byte(text, self.registers[1]);
        text.append("  BH: ");
        push_hex_byte(text, self.registers[2]);
        text.append("  BL: ");
        push_hex_byte(text, self.registers[3]);
        assert(text@ =~= old(text)@ + self@.dump_line1());
    }

    /// Appends the second line of the dump.
    fn push_line2(&self, text: &mut String)
        ensures
            final(text)@ == old(text)@ + self@.dump_line2(),
    {
        text.append("CH: ");
        push_hex_byte(text, self.registers[4]);
        text.append("  CL: ");
        push_hex_byte(text, self.registers[5]);
        text.append("  DH: ");
        push_hex_byte(text, self.registers[6]);
        text.append("  DL: ");
        push_hex_byte(text, self.registers[7]);
        assert(text@ =~= old(text)@ + self@.dump_line2());
    }

    /// Appends the third line of the dump.
    fn push_line3(&self, text: &mut String)
        ensures
            final(text)@ == old(text)@ + self@.dump_line3(),
    {
        text.append("FLG: ");
        push_hex_byte(text, self.registers[8]);
        text.append(" SP: ");
        push_hex_word(text, self.get_sp());
        text.append(" FP: ");
        push_hex_word(text, self.get_fp());
        text.append(" PC: ");
        push_hex_word(text, self.pc);
        assert(text@ =~= old(text)@ + self@.dump_line3());
    }

    /// Appends the bytes of the stack.
    fn push_stack(&self, text: &mut String)
        ensures
            final(text)@ == old(text)@ + hex_run(self@.stack_bytes(), self@.stack_bytes().len()),
    {
        let sp: usize = self.get_sp() as usize;
        if sp >= address::STACK {
            push_hex_run(text, &self.memory, address::STACK, sp);
        } else {
            assert(hex_run(self@.stack_bytes(), 0) =~= Seq::<char>::empty());
            assert(text@ =~= old(text)@ + hex_run(self@.stack_bytes(), 0));
        }
    }

    /// Appends the bytes of code around the program counter.
    fn push_code(&self, text: &mut String)
        ensures
            final(text)@ == old(text)@ + hex_run(self@.code_bytes(), self@.code_bytes().len()),
    {
        let start: usize = if self.pc >= 6 { self.pc as usize - 6 } else { 0 };
        let end: usize = if self.pc <= 65528 { self.pc as usize + 7 } else { 65535 };
        push_hex_run(text, &self.memory, start, end);
    }

    /// Appends the dump of the machine.
    pub fn push_dump(&self, text: &mut String)
        ensures
            final(text)@ == old(text)@ + self@.dump(),
    {
        let ghost start = text@;
        self.push_line1(text);
        let ghost a1 = self@.dump_line1();
        text.append("\n");
        let ghost a2 = a1 + "\n"@;
        proof {
            lemma_concat3(start, a1, "\n"@);
        }
        self.push_line2(text);
        let ghost a3 = a2 + self@.dump_line2();
        proof {
            lemma_concat3(start, a2, self@.dump_line2());
        }
        text.append("\n");
        let ghost a4 = a3 + "\n"@;
        proof {
            lemma_concat3(start, a3, "\n"@);
        }
        self.push_line3(text);
        let ghost a5 = a4 + self@.dump_line3();
        proof {
            lemma_concat3(start, a4, self@.dump_line3());
        }
        text.append("\nStack: ");
        let ghost a6 = a5 + "\nStack: "@;
        proof {
            lemma_concat3(start, a5, "\nStack: "@);
        }
        self.push_stack(text);
        let ghost a7 = a6 + hex_run(self@.stack_bytes(), self@.stack_bytes().len());
        proof {
            lemma_concat3(start, a6, hex_run(self@.stack_bytes(), self@.stack_bytes().len()));
        }
        text.append("\nCode: ");
        let ghost a8 = a7 + "\nCode: "@;
        proof {
            lemma_concat3(start, a7, "\nCode: "@);
        }
        self.push_code(text);
        let ghost a9 = a8 + hex_run(self@.code_bytes(), self@.code_bytes().len());
        proof {
            lemma_concat3(start, a8, hex_run(self@.code_bytes(), self@.code_bytes().len()));
        }
        assert(text@ == start + a9);
        assert(a9 == self@.dump());
    }

    /// The registers, the stack and the code around the program counter as
    /// text, for diagnostics.
    pub fn dump(&self) -> (r: String)
        ensures
            r@ == self@.dump(),
    {
        let mut text: String = String::new();
        self.push_dump(&mut text);
        assert(text@ =~= self@.dump());
        text
    }

    /// The text that is recorded for an error.
    pub fn error_text(&self, err: VmError) -> (r: String)
        ensures
            r@ == self@.error_text(err),
    {
        let mut text: String = err.message();
        text.append("\n");
        self.push_dump(&mut text);
        assert(text@ =~= self@.error_text(err));
        text
    }
}

} // verus!
