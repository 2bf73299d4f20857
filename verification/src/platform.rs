//! What this crate takes on trust from the platform crate.

use vstd::prelude::*;

verus! {

/// The addresses at which a write may cost far more than one cycle: the
/// bank-select bytes, and the first bytes of the timer, save and sound
/// controls.
pub open spec fn is_special(addr: u16) -> bool {
    addr == crate::mem::address::CODE_BANK_1_ID || addr == crate::mem::address::RAM_BANK_1_ID || addr
        == crate::mem::address::CODE_BANK_2_ID || addr == crate::mem::address::RAM_BANK_2_ID || addr
        == crate::mem::address::ATLAS1_BANK_ID || addr == crate::mem::address::ATLAS2_BANK_ID || addr
        == crate::mem::address::ATLAS3_BANK_ID || addr == crate::mem::address::ATLAS4_BANK_ID || addr
        == crate::mem::address::TIMER_CONTROL || addr == crate::mem::address::SAVE_CONTROL || addr == crate::mem::address::SAVE_BANK_ID
        || addr == crate::mem::address::SOUND
}

/// Calls `maikor_platform::mem::address::is_special_memory`, which is a
/// `matches!` over twelve address constants of the platform: it returns true
/// for exactly the addresses of [`is_special`], whose values the tests hold
/// against the platform's own.
#[verifier::external_body]
pub(crate) fn is_special_memory(addr: u16) -> (r: bool)
    ensures
        r == is_special(addr),
{
    maikor_platform::mem::address::is_special_memory(addr)
}

} // verus!
