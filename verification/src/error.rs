//! Why the machine stopped.

use vstd::prelude::*;

verus! {

/// A fatal condition. Each one halts the machine; none is retried.
#[derive(Copy, Clone, Debug, Eq, PartialEq, Structural)]
pub enum VmError {
    /// The low nibble of this operand byte names no register.
    InvalidRegister(u8),
    /// The high nibble of this operand byte names no addressing mode.
    InvalidAddressingMode(u8),
    /// A word was asked of, or a pointer taken from, the byte register with
    /// this id.
    ExtendedRegisterRequired(u8),
    /// The bank-select byte at this address was given the id of a bank that
    /// was never provisioned.
    BankOutOfRange(u16, u8),
    /// The stack has no room left for what was to be pushed.
    StackOverflow,
    /// The program executed EHALT.
    HaltedByProgram,
    /// This byte is no opcode of the machine.
    UnsupportedOp(u8),
    /// This value names no interrupt.
    InvalidInterrupt(u8),
    /// A division by zero.
    DivisionByZero,
}

} // verus!
