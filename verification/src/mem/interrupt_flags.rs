//! The bit by which each interrupt is named and masked.

use vstd::prelude::*;

verus! {

pub const IRQ_SCREEN_DRAW: u8 = 1;

pub const IRQ_TIMER: u8 = 2;

pub const IRQ_DATETIME: u8 = 4;

pub const IRQ_CONTROLLER: u8 = 8;

pub const IRQ_INPUT: u8 = 16;

pub const IRQ_LINE_DRAW: u8 = 32;

} // verus!
