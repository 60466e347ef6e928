//! Keyboard modifiers of an AppKit event, in the encoding of Ghostty's input
//! API (`ghostty_input_mods_e`).

use vstd::prelude::*;

verus! {

pub const GHOSTTY_MODS_NONE: u32 = 0;
pub const GHOSTTY_MODS_SHIFT: u32 = 1;
pub const GHOSTTY_MODS_CTRL: u32 = 2;
pub const GHOSTTY_MODS_ALT: u32 = 4;
pub const GHOSTTY_MODS_SUPER: u32 = 8;
pub const GHOSTTY_MODS_CAPS: u32 = 16;
pub const GHOSTTY_MODS_NUM: u32 = 32;

/// The modifier flags of an AppKit event that Ghostty distinguishes.
pub struct ModifierKeys {
    pub shift: bool,
    pub control: bool,
    pub option: bool,
    pub command: bool,
    pub caps_lock: bool,
    pub numeric_pad: bool,
}

pub open spec fn bit_if(flag: bool, bit: u32) -> u32 {
    if flag { bit } else { 0 }
}

/// The Ghostty modifier set of `keys`: shift, control as ctrl, option as
/// alt, command as super, caps lock as caps, numeric pad as num.
pub open spec fn mods_value(keys: ModifierKeys) -> u32 {
    (bit_if(keys.shift, GHOSTTY_MODS_SHIFT) | bit_if(keys.control, GHOSTTY_MODS_CTRL) | bit_if(
        keys.option,
        GHOSTTY_MODS_ALT,
    ) | bit_if(keys.command, GHOSTTY_MODS_SUPER) | bit_if(keys.caps_lock, GHOSTTY_MODS_CAPS)
        | bit_if(keys.numeric_pad, GHOSTTY_MODS_NUM))
}

fn flag_bit(flag: bool, bit: u32) -> (b: u32)
    ensures
        b == bit_if(flag, bit),
{
    if flag {
        bit
    } else {
        GHOSTTY_MODS_NONE
    }
}

/// The Ghostty modifier set of an event's modifier flags.
pub fn ghostty_mods(keys: &ModifierKeys) -> (mods: u32)
    ensures
        mods == mods_value(*keys),
{
    flag_bit(keys.shift, GHOSTTY_MODS_SHIFT) | flag_bit(keys.control, GHOSTTY_MODS_CTRL) | flag_bit(
        keys.option,
        GHOSTTY_MODS_ALT,
    ) | flag_bit(keys.command, GHOSTTY_MODS_SUPER) | flag_bit(keys.caps_lock, GHOSTTY_MODS_CAPS)
        | flag_bit(keys.numeric_pad, GHOSTTY_MODS_NUM)
}

/// Each modifier flag sets exactly its own Ghostty bit (shift 1, ctrl 2,
/// alt 4, super 8, caps 16, num 32), and no other bit is set.
pub proof fn law_each_modifier_sets_its_bit(keys: ModifierKeys)
    ensures
        (mods_value(keys) & 1u32 != 0) == keys.shift,
        (mods_value(keys) & 2u32 != 0) == keys.control,
        (mods_value(keys) & 4u32 != 0) == keys.option,
        (mods_value(keys) & 8u32 != 0) == keys.command,
        (mods_value(keys) & 16u32 != 0) == keys.caps_lock,
        (mods_value(keys) & 32u32 != 0) == keys.numeric_pad,
        mods_value(keys) < 64,
{
    let a = keys.shift;
    let b = keys.control;
    let c = keys.option;
    let d = keys.command;
    let e = keys.caps_lock;
    let f = keys.numeric_pad;
    let m = mods_value(keys);
    assert(m == ((if a { 1u32 } else { 0u32 }) | (if b { 2u32 } else { 0u32 }) | (if c { 4u32 } else { 0u32 })
        | (if d { 8u32 } else { 0u32 }) | (if e { 16u32 } else { 0u32 }) | (if f { 32u32 } else { 0u32 })));
    assert(
        ((m & 1u32 != 0) == a) && ((m & 2u32 != 0) == b) && ((m & 4u32 != 0) == c) && ((m & 8u32 != 0) == d)
            && ((m & 16u32 != 0) == e) && ((m & 32u32 != 0) == f) && m < 64
    ) by (bit_vector)
        requires
            m == ((if a { 1u32 } else { 0u32 }) | (if b { 2u32 } else { 0u32 }) | (if c { 4u32 } else { 0u32 })
                | (if d { 8u32 } else { 0u32 }) | (if e { 16u32 } else { 0u32 }) | (if f { 32u32 } else { 0u32 })),
    ;
}

} // verus!
