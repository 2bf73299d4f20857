//! The bits of the flags register.

use vstd::prelude::*;

verus! {

/// The last arithmetic operation wrapped.
pub const CARRY: u8 = 0x80;

/// The last significant value was zero.
pub const ZERO: u8 = 0x40;

/// The last significant value had its top bit set.
pub const SIGNED: u8 = 0x20;

/// The last arithmetic operation left the signed range.
pub const OVERFLOW: u8 = 0x10;

/// The last comparison found the left side smaller.
pub const LESS_THAN: u8 = 0x08;

/// The last comparison found the left side larger.
pub const GREATER_THAN: u8 = 0x04;

/// Interrupts are accepted.
pub const INTERRUPTS: u8 = 0x01;

} // verus!
