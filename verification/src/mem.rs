//! The memory map of the machine: the size and the address of each region
//! of the 64KB address space, and the windows that banks are switched into.

use vstd::prelude::*;

pub mod address;
pub mod interrupt;
pub mod interrupt_flags;
pub mod sizes;

verus! {

/// Save banks that a cartridge can hold.
pub const SAVE_COUNT: usize = 16;

/// Whether `addr` lies in the `size` bytes that start at `base`.
pub open spec fn in_region(addr: int, base: int, size: int) -> bool {
    base <= addr < base + size
}

pub fn is_inside_code_bank_1(addr: usize) -> (r: bool)
    ensures
        r == in_region(addr as int, address::CODE_BANK_1 as int, sizes::CODE_BANK as int),
{
    addr >= address::CODE_BANK_1 && addr < address::CODE_BANK_1 + sizes::CODE_BANK
}

pub fn is_inside_code_bank_2(addr: usize) -> (r: bool)
    ensures
        r == in_region(addr as int, address::CODE_BANK_2 as int, sizes::CODE_BANK as int),
{
    addr >= address::CODE_BANK_2 && addr < address::CODE_BANK_2 + sizes::CODE_BANK
}

pub fn is_inside_ram_bank_1(addr: usize) -> (r: bool)
    ensures
        r == in_region(addr as int, address::RAM_BANK_1 as int, sizes::RAM_BANK as int),
{
    addr >= address::RAM_BANK_1 && addr < address::RAM_BANK_1 + sizes::RAM_BANK
}

pub fn is_inside_ram_bank_2(addr: usize) -> (r: bool)
    ensures
        r == in_region(addr as int, address::RAM_BANK_2 as int, sizes::RAM_BANK as int),
{
    addr >= address::RAM_BANK_2 && addr < address::RAM_BANK_2 + sizes::RAM_BANK
}

/// Whether `addr` lies in either code bank window.
pub fn is_inside_code_bank(addr: usize) -> (r: bool)
    ensures
        r == (in_region(addr as int, address::CODE_BANK_1 as int, sizes::CODE_BANK as int)
            || in_region(addr as int, address::CODE_BANK_2 as int, sizes::CODE_BANK as int)),
{
    is_inside_code_bank_1(addr) || is_inside_code_bank_2(addr)
}

/// Whether `addr` lies in either RAM bank window.
pub fn is_inside_ram_bank(addr: usize) -> (r: bool)
    ensures
        r == (in_region(addr as int, address::RAM_BANK_1 as int, sizes::RAM_BANK as int)
            || in_region(addr as int, address::RAM_BANK_2 as int, sizes::RAM_BANK as int)),
{
    is_inside_ram_bank_1(addr) || is_inside_ram_bank_2(addr)
}

pub fn is_inside_save_bank(addr: usize) -> (r: bool)
    ensures
        r == in_region(addr as int, address::SAVE_BANK as int, sizes::SAVE_BANK as int),
{
    addr >= address::SAVE_BANK && addr < address::SAVE_BANK + sizes::SAVE_BANK
}

pub fn is_inside_atlas1_bank(addr: usize) -> (r: bool)
    ensures
        r == in_region(addr as int, address::ATLAS1 as int, sizes::ATLAS as int),
{
    addr >= address::ATLAS1 && addr < address::ATLAS1 + sizes::ATLAS
}

pub fn is_inside_atlas2_bank(addr: usize) -> (r: bool)
    ensures
        r == in_region(addr as int, address::ATLAS2 as int, sizes::ATLAS as int),
{
    addr >= address::ATLAS2 && addr < address::ATLAS2 + sizes::ATLAS
}

pub fn is_inside_atlas3_bank(addr: usize) -> (r: bool)
    ensures
        r == in_region(addr as int, address::ATLAS3 as int, sizes::ATLAS as int),
{
    addr >= address::ATLAS3 && addr < address::ATLAS3 + sizes::ATLAS
}

pub fn is_inside_atlas4_bank(addr: usize) -> (r: bool)
    ensures
        r == in_region(addr as int, address::ATLAS4 as int, sizes::ATLAS as int),
{
    addr >= address::ATLAS4 && addr < address::ATLAS4 + sizes::ATLAS
}

} // verus!
