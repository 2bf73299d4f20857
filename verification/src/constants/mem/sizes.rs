//! How the two-atlas layout divides the address space: two 8192-byte code
//! and RAM halves, four tile layers, two atlas windows. The machine in this
//! crate runs the four-atlas layout of [`crate::mem`].

use vstd::prelude::*;

verus! {

pub const CODE_BANK: usize = 8192;

pub const RAM_BANK: usize = 8192;

pub const CODE: usize = CODE_BANK + CODE_BANK;

pub const RAM: usize = RAM_BANK + RAM_BANK;

pub const SOUND: usize = 25;

/// One byte of directions and one of actions.
pub const INPUT: usize = 2;

pub const CODE_BANK_ID: usize = 1;

pub const RAM_BANK_ID: usize = 1;

pub const SAVE_BANK_ID: usize = 1;

pub const SAVE_BANK: usize = 4096;

pub const SPRITE: usize = 4;

/// 255 sprites of 4 bytes.
pub const SPRITE_TABLE: usize = 1020;

/// Four layer headers of 3 bytes.
pub const LAYERS_HEADER: usize = 12;

/// Four layers of 44 by 30 tiles of 2 bytes.
pub const LAYERS_CONTENT: usize = 10560;

/// Fifteen colours of 3 bytes.
pub const PALETTE: usize = 45;

pub const PALETTES_TOTAL: usize = 180;

/// 100 by 80 bytes, two palette indices to the byte.
pub const ATLAS: usize = 8000;

pub const ATLAS1_BANK_ID: usize = 1;

pub const ATLAS2_BANK_ID: usize = 1;

pub const STACK: usize = 863;

pub const SP: usize = 2;

pub const FP: usize = 2;

pub const ATLAS_TOTAL: usize = ATLAS + ATLAS + ATLAS1_BANK_ID + ATLAS2_BANK_ID;

pub const LAYER_TOTAL: usize = LAYERS_CONTENT + LAYERS_HEADER;

pub const GRAPHICS_TOTAL: usize = LAYER_TOTAL + SPRITE_TABLE + PALETTES_TOTAL + ATLAS_TOTAL;

pub const SYSTEM_TOTAL: usize = CODE + RAM + CODE_BANK_ID + RAM_BANK_ID + STACK + SP + FP;

pub const HARDWARE_TOTAL: usize = SOUND + INPUT + SAVE_BANK_ID + SAVE_BANK;

pub const TOTAL: usize = GRAPHICS_TOTAL + SYSTEM_TOTAL + HARDWARE_TOTAL;

} // verus!
