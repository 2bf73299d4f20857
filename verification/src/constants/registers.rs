//! The register file: where each register lives, how operand bytes name it,
//! and the bits of the flags register.

use vstd::prelude::*;

pub mod flags;
pub mod id;
pub mod offset;

verus! {

/// Bytes in the register file.
pub const SIZE: usize = 9;

/// The flags register after reset: ZERO and INTERRUPTS.
pub const FLG_DEFAULT: u8 = 0x41;

} // verus!
