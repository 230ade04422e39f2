//! Virtual keys, modifier masks and keyboard messages of Win32.

use std::collections::HashSet;
use vstd::prelude::*;

verus! {

pub const MOD_ALT: u32 = 0x1;
pub const MOD_CONTROL: u32 = 0x2;
pub const MOD_SHIFT: u32 = 0x4;
pub const MOD_WIN: u32 = 0x8;
pub const MOD_NOREPEAT: u32 = 0x4000;

pub const VK_SHIFT: u32 = 0x10;
pub const VK_CONTROL: u32 = 0x11;
pub const VK_MENU: u32 = 0x12;
pub const VK_LWIN: u32 = 0x5b;
pub const VK_RWIN: u32 = 0x5c;
pub const VK_LSHIFT: u32 = 0xa0;
pub const VK_RSHIFT: u32 = 0xa1;
pub const VK_LCONTROL: u32 = 0xa2;
pub const VK_RCONTROL: u32 = 0xa3;
pub const VK_LMENU: u32 = 0xa4;
pub const VK_RMENU: u32 = 0xa5;

pub const WM_KEYDOWN: u32 = 0x100;
pub const WM_KEYUP: u32 = 0x101;
pub const WM_SYSKEYDOWN: u32 = 0x104;
pub const WM_SYSKEYUP: u32 = 0x105;

/// The bit of a low-level hook event that marks it as synthesised.
pub const LLKHF_INJECTED: u32 = 0x10;

pub open spec fn key_down(message: u32) -> bool {
    message == WM_KEYDOWN || message == WM_SYSKEYDOWN
}

pub open spec fn key_up(message: u32) -> bool {
    message == WM_KEYUP || message == WM_SYSKEYUP
}

pub fn is_keyboard_message(message: u32) -> (r: bool)
    ensures
        r == (key_down(message) || key_up(message)),
{
    is_key_down_message(message) || is_key_up_message(message)
}

pub fn is_key_down_message(message: u32) -> (r: bool)
    ensures
        r == key_down(message),
{
    message == WM_KEYDOWN || message == WM_SYSKEYDOWN
}

pub fn is_key_up_message(message: u32) -> (r: bool)
    ensures
        r == key_up(message),
{
    message == WM_KEYUP || message == WM_SYSKEYUP
}

pub open spec fn control_key(vk: u32) -> bool {
    vk == VK_CONTROL || vk == VK_LCONTROL || vk == VK_RCONTROL
}

pub open spec fn alt_key(vk: u32) -> bool {
    vk == VK_MENU || vk == VK_LMENU || vk == VK_RMENU
}

pub open spec fn shift_key(vk: u32) -> bool {
    vk == VK_SHIFT || vk == VK_LSHIFT || vk == VK_RSHIFT
}

pub open spec fn win_key(vk: u32) -> bool {
    vk == VK_LWIN || vk == VK_RWIN
}

pub fn is_control_vk(vk: u32) -> (r: bool)
    ensures
        r == control_key(vk),
{
    vk == VK_CONTROL || vk == VK_LCONTROL || vk == VK_RCONTROL
}

pub fn is_alt_vk(vk: u32) -> (r: bool)
    ensures
        r == alt_key(vk),
{
    vk == VK_MENU || vk == VK_LMENU || vk == VK_RMENU
}

pub fn is_shift_vk(vk: u32) -> (r: bool)
    ensures
        r == shift_key(vk),
{
    vk == VK_SHIFT || vk == VK_LSHIFT || vk == VK_RSHIFT
}

pub fn is_win_vk(vk: u32) -> (r: bool)
    ensures
        r == win_key(vk),
{
    vk == VK_LWIN || vk == VK_RWIN
}

/// The modifiers that are down while the keys of `pressed` are.
pub open spec fn modifiers(pressed: Set<u32>) -> u32 {
    let control = exists|k: u32| pressed.contains(k) && #[trigger] control_key(k);
    let alt = exists|k: u32| pressed.contains(k) && #[trigger] alt_key(k);
    let shift = exists|k: u32| pressed.contains(k) && #[trigger] shift_key(k);
    let win = exists|k: u32| pressed.contains(k) && #[trigger] win_key(k);
    ((if control {
        MOD_CONTROL as int
    } else {
        0
    }) + (if alt {
        MOD_ALT as int
    } else {
        0
    }) + (if shift {
        MOD_SHIFT as int
    } else {
        0
    }) + (if win {
        MOD_WIN as int
    } else {
        0
    })) as u32
}

/// The modifier mask of a set of pressed keys.
pub fn active_modifier_mask(pressed_keys: &HashSet<u32>) -> (r: u32)
    ensures
        r == modifiers(pressed_keys@),
        r <= 15,
{
    broadcast use vstd::std_specs::hash::group_hash_axioms;

    let mut mask: u32 = 0;
    if pressed_keys.contains(&VK_CONTROL) || pressed_keys.contains(&VK_LCONTROL)
        || pressed_keys.contains(&VK_RCONTROL) {
        assert(control_key(VK_CONTROL) && control_key(VK_LCONTROL) && control_key(VK_RCONTROL));
        mask = mask + MOD_CONTROL;
    }
    if pressed_keys.contains(&VK_MENU) || pressed_keys.contains(&VK_LMENU)
        || pressed_keys.contains(&VK_RMENU) {
        assert(alt_key(VK_MENU) && alt_key(VK_LMENU) && alt_key(VK_RMENU));
        mask = mask + MOD_ALT;
    }
    if pressed_keys.contains(&VK_SHIFT) || pressed_keys.contains(&VK_LSHIFT)
        || pressed_keys.contains(&VK_RSHIFT) {
        assert(shift_key(VK_SHIFT) && shift_key(VK_LSHIFT) && shift_key(VK_RSHIFT));
        mask = mask + MOD_SHIFT;
    }
    if pressed_keys.contains(&VK_LWIN) || pressed_keys.contains(&VK_RWIN) {
        assert(win_key(VK_LWIN) && win_key(VK_RWIN));
        mask = mask + MOD_WIN;
    }
    mask
}

/// Which keys are modifiers, by their codes, and which messages report a key.
pub proof fn law_keys_go_by_their_codes(vk: u32, message: u32)
    ensures
        control_key(vk) <==> vk == 0x11 || vk == 0xa2 || vk == 0xa3,
        alt_key(vk) <==> vk == 0x12 || vk == 0xa4 || vk == 0xa5,
        shift_key(vk) <==> vk == 0x10 || vk == 0xa0 || vk == 0xa1,
        win_key(vk) <==> vk == 0x5b || vk == 0x5c,
        key_down(message) <==> message == 0x100 || message == 0x104,
        key_up(message) <==> message == 0x101 || message == 0x105,
{
}

/// A modifier counts exactly while one of its keys is down, whatever else is.
pub proof fn law_modifiers_are_down_with_their_keys(pressed: Set<u32>)
    ensures
        ({
            let mask = modifiers(pressed);
            &&& mask & 0x1 != 0 <==> pressed.contains(0x12) || pressed.contains(0xa4)
                || pressed.contains(0xa5)
            &&& mask & 0x2 != 0 <==> pressed.contains(0x11) || pressed.contains(0xa2)
                || pressed.contains(0xa3)
            &&& mask & 0x4 != 0 <==> pressed.contains(0x10) || pressed.contains(0xa0)
                || pressed.contains(0xa1)
            &&& mask & 0x8 != 0 <==> pressed.contains(0x5b) || pressed.contains(0x5c)
            &&& mask < 0x10
        }),
{
    let mask = modifiers(pressed);
    assert(control_key(0x11) && control_key(0xa2) && control_key(0xa3));
    assert(alt_key(0x12) && alt_key(0xa4) && alt_key(0xa5));
    assert(shift_key(0x10) && shift_key(0xa0) && shift_key(0xa1));
    assert(win_key(0x5b) && win_key(0x5c));
    assert((mask & 0x1 != 0) == (mask % 2 == 1)) by (bit_vector);
    assert((mask & 0x2 != 0) == ((mask / 2) % 2 == 1)) by (bit_vector);
    assert((mask & 0x4 != 0) == ((mask / 4) % 2 == 1)) by (bit_vector);
    assert((mask & 0x8 != 0) == ((mask / 8) % 2 == 1)) by (bit_vector);
}

} // verus!
