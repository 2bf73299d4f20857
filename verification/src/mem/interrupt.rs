//! The address that the program counter is set to when an interrupt is
//! accepted, by interrupt.

use vstd::prelude::*;

verus! {

pub const IRQ_INPUT: u16 = 0x0200;

pub const IRQ_SCREEN_DRAW: u16 = 0x0220;

pub const IRQ_TIMER: u16 = 0x0240;

pub const IRQ_CONTROLLER: u16 = 0x0260;

pub const IRQ_DATETIME: u16 = 0x0280;

pub const IRQ_LINE_DRAW: u16 = 0x02A0;

} // verus!
