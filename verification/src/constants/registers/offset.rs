//! Index of each register in the register file. A word register starts at
//! its high byte.

use vstd::prelude::*;

verus! {

pub const AH: usize = 0;

pub const AL: usize = 1;

pub const BH: usize = 2;

pub const BL: usize = 3;

pub const CH: usize = 4;

pub const CL: usize = 5;

pub const DH: usize = 6;

pub const DL: usize = 7;

pub const FLAGS: usize = 8;

pub const AX: usize = 0;

pub const BX: usize = 2;

pub const CX: usize = 4;

pub const DX: usize = 6;

} // verus!
