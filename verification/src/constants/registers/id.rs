//! The register ids that the low nibble of an operand byte holds.

use vstd::prelude::*;

verus! {

pub const AH: u8 = 0;

pub const AL: u8 = 1;

pub const BH: u8 = 2;

pub const BL: u8 = 3;

pub const CH: u8 = 4;

pub const CL: u8 = 5;

pub const DH: u8 = 6;

pub const DL: u8 = 7;

pub const FLAGS: u8 = 8;

pub const AX: u8 = 9;

pub const BX: u8 = 10;

pub const CX: u8 = 11;

pub const DX: u8 = 12;

/// The assembler's name for a register id, `"?"` for a value that is none.
pub open spec fn name_of(value: u8) -> Seq<char> {
    if value == AH {
        "AH"@
    } else if value == AL {
        "AL"@
    } else if value == BH {
        "BH"@
    } else if value == BL {
        "BL"@
    } else if value == CH {
        "CH"@
    } else if value == CL {
        "CL"@
    } else if value == DH {
        "DH"@
    } else if value == DL {
        "DL"@
    } else if value == AX {
        "AX"@
    } else if value == BX {
        "BX"@
    } else if value == CX {
        "CX"@
    } else if value == DX {
        "DX"@
    } else if value == FLAGS {
        "FLG"@
    } else {
        "?"@
    }
}

/// The assembler's name for a register id.
pub fn name(value: u8) -> (r: &'static str)
    ensures
        r@ == name_of(value),
{
    match value {
        AH => "AH",
        AL => "AL",
        BH => "BH",
        BL => "BL",
        CH => "CH",
        CL => "CL",
        DH => "DH",
        DL => "DL",
        AX => "AX",
        BX => "BX",
        CX => "CX",
        DX => "DX",
        FLAGS => "FLG",
        _ => "?",
    }
}

/// Bytes that the register with this id holds: 2 for the four word
/// registers, 1 otherwise.
pub fn size(value: u8) -> (r: usize)
    ensures
        r == if value == AX || value == BX || value == CX || value == DX { 2usize } else { 1 },
{
    match value {
        AX | BX | CX | DX => 2,
        _ => 1,
    }
}

} // verus!
