//! Where each region of memory starts.

use vstd::prelude::*;

verus! {

pub const CODE: usize = 0x0;

pub const CODE_BANK_1: usize = 0x2328;

pub const CODE_BANK_2: usize = 0x3390;

pub const RAM: usize = 0x43F8;

pub const RAM_BANK_1: usize = 0x6720;

pub const RAM_BANK_2: usize = 0x7788;

pub const INPUT: usize = 0x87F0;

pub const SOUND: usize = 0x87F2;

pub const SAVE_BANK_ID: usize = 0x8810;

pub const SAVE_BANK: usize = 0x8811;

pub const ATLAS1: usize = 0x9811;

pub const ATLAS2: usize = 0xA7B1;

pub const ATLAS3: usize = 0xB751;

pub const ATLAS4: usize = 0xC6F1;

pub const PALETTES: usize = 0xD691;

pub const SPRITE_TABLE: usize = 0xD751;

pub const LAYER_HEADERS: usize = 0xDC4C;

pub const LAYERS: usize = 0xDC55;

pub const CODE_BANK_1_ID: usize = 0xFB45;

pub const RAM_BANK_1_ID: usize = 0xFB46;

pub const ATLAS1_BANK_ID: usize = 0xFB47;

pub const ATLAS2_BANK_ID: usize = 0xFB48;

pub const ATLAS3_BANK_ID: usize = 0xFB49;

pub const ATLAS4_BANK_ID: usize = 0xFB4A;

pub const SP: usize = 0xFB4B;

pub const FP: usize = 0xFB4D;

pub const TIMER_CONTROL: usize = 0xFB4F;

pub const TIMER_VALUE1: usize = 0xFB51;

pub const TIMER_VALUE2: usize = 0xFB52;

pub const TIMER_VALUE3: usize = 0xFB53;

pub const TIMER_VALUE4: usize = 0xFB54;

pub const IRQ_RET_ADDR: usize = 0xFB55;

pub const IRQ_REG_DUMP: usize = 0xFB57;

pub const CONTROLLER_PALETTE: usize = 0xFB5F;

pub const CONTROLLER_TABLE: usize = 0xFB77;

pub const IRQ_CONTROL: usize = 0xFB92;

pub const SAVE_CONTROL: usize = 0xFB93;

pub const DATETIME: usize = 0xFB94;

pub const RAND: usize = 0xFB9A;

pub const WAVE_TABLE: usize = 0xFB9B;

pub const CODE_BANK_2_ID: usize = 0xFBAB;

pub const RAM_BANK_2_ID: usize = 0xFBAC;

pub const VLINE: usize = 0xFBAD;

pub const RESERVED: usize = 0xFBAE;

pub const STACK: usize = 0xFC18;

pub const MAX: usize = 0xFFFF;

} // verus!
