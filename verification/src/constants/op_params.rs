//! Addressing modes: the high nibble of an operand byte.

use vstd::prelude::*;

verus! {

/// The bits of an operand byte that hold the addressing mode.
pub const MASK: u8 = 0xF0;

/// The register itself.
pub const REGISTER: u8 = 0x00;

/// The register itself, incremented after the access.
pub const POST_INC: u8 = 0x40;

/// The register itself, decremented after the access.
pub const POST_DEC: u8 = 0x50;

/// The register itself, incremented before the access.
pub const PRE_INC: u8 = 0x60;

/// The register itself, decremented before the access.
pub const PRE_DEC: u8 = 0x70;

/// The memory that the register points at.
pub const INDIRECT: u8 = 0x80;

/// Indirect, plus the value of the byte register named by the next byte.
pub const IND_OFFSET_REG: u8 = 0x90;

/// Indirect, plus the value of the word register named by the next byte.
pub const IND_OFFSET_EXT_REG: u8 = 0xA0;

/// Indirect, plus the immediate word that follows.
pub const IND_OFFSET_NUM: u8 = 0xB0;

/// Indirect, the pointer incremented after the access.
pub const IND_POST_INC: u8 = 0xC0;

/// Indirect, the pointer decremented after the access.
pub const IND_POST_DEC: u8 = 0xD0;

/// Indirect, the pointer incremented before the access.
pub const IND_PRE_INC: u8 = 0xE0;

/// Indirect, the pointer decremented before the access.
pub const IND_PRE_DEC: u8 = 0xF0;

} // verus!
