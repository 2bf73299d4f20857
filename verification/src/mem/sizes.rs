//! How many bytes each region of memory holds.

use vstd::prelude::*;

verus! {

pub const MAIN_CODE: usize = 9000;

pub const MAIN_RAM: usize = 9000;

pub const CODE_BANK: usize = 4200;

pub const RAM_BANK: usize = 4200;

pub const SOUND: usize = 30;

pub const WAVE_TABLE: usize = 16;

pub const INPUT: usize = 2;

pub const SAVE_BANK: usize = 4096;

pub const ATLAS: usize = 4000;

pub const STACK: usize = 1000;

pub const SP: usize = 2;

pub const FP: usize = 2;

pub const IRQ_RET_ADDR: usize = 2;

pub const IRQ_CONTROL: usize = 1;

pub const RESERVED: usize = 106;

pub const TOTAL: usize = 65536;

} // verus!
