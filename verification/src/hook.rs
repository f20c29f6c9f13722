//! Decisions of the system-wide keyboard hook.
//!
//! The hook callback itself runs in an OS callback context and only sends
//! events into the main loop; everything it decides — which keys are
//! modifier keys to pass over, which messages mean a press or a release,
//! and how the held modifiers combine into a bitset — is the pure
//! function here. The caller hands in the raw hook arguments and the
//! modifier key states it read, and forwards the returned event, if any.

use vstd::prelude::*;

use crate::sequencer::{MOD_ALT, MOD_CTRL, MOD_LOGO, MOD_SHIFT};

verus! {

/// The shift virtual key.
pub const VK_SHIFT: u32 = 0x10;

/// The left control virtual key.
pub const VK_LCONTROL: u32 = 0xA2;

/// The right control virtual key.
pub const VK_RCONTROL: u32 = 0xA3;

/// The left alt virtual key.
pub const VK_LMENU: u32 = 0xA4;

/// The right alt virtual key.
pub const VK_RMENU: u32 = 0xA5;

/// The left logo virtual key.
pub const VK_LWIN: u32 = 0x5B;

/// The right logo virtual key.
pub const VK_RWIN: u32 = 0x5C;

/// The key-down window message.
pub const WM_KEYDOWN: u32 = 0x100;

/// The key-up window message.
pub const WM_KEYUP: u32 = 0x101;

/// The key-down window message for keys pressed with alt held.
pub const WM_SYSKEYDOWN: u32 = 0x104;

/// The key-up window message for keys released with alt held.
pub const WM_SYSKEYUP: u32 = 0x105;

/// A global key event, as the hook reports it into the main loop.
#[derive(Clone, Copy, Debug, PartialEq, Eq, Structural)]
pub struct GlobalKeyEvent {
    pub pressed: bool,
    pub vk_code: u32,
    pub modifiers: u32,
}

/// Whether a virtual key is itself a modifier key: those never become
/// events of their own.
pub open spec fn is_modifier_vk(vk_code: u32) -> bool {
    ||| vk_code == VK_SHIFT
    ||| vk_code == VK_LCONTROL
    ||| vk_code == VK_RCONTROL
    ||| vk_code == VK_LMENU
    ||| vk_code == VK_RMENU
    ||| vk_code == VK_LWIN
    ||| vk_code == VK_RWIN
}

/// The held-modifiers bitset combined from the individual key states;
/// either logo key counts as the logo modifier.
pub open spec fn modifier_bits(
    shift: bool,
    ctrl: bool,
    alt: bool,
    lwin: bool,
    rwin: bool,
) -> u32 {
    (if shift {
        MOD_SHIFT
    } else {
        0
    }) | (if ctrl {
        MOD_CTRL
    } else {
        0
    }) | (if alt {
        MOD_ALT
    } else {
        0
    }) | (if lwin || rwin {
        MOD_LOGO
    } else {
        0
    })
}

/// Decide what a low-level keyboard-hook callback reports: nothing when
/// the hook is told not to process the message (`n_code` negative) or the
/// key is itself a modifier; otherwise a press for a key-down message and
/// a release for a key-up message, each carrying the held-modifiers
/// bitset, and nothing for any other message.
pub fn hook_event(
    n_code: i32,
    message: u32,
    vk_code: u32,
    shift_down: bool,
    ctrl_down: bool,
    alt_down: bool,
    lwin_down: bool,
    rwin_down: bool,
) -> (r: Option<GlobalKeyEvent>)
    ensures
        ({
            let bits = modifier_bits(shift_down, ctrl_down, alt_down, lwin_down, rwin_down);
            if n_code < 0 || is_modifier_vk(vk_code) {
                r is None
            } else if message == WM_KEYDOWN || message == WM_SYSKEYDOWN {
                r == Some(GlobalKeyEvent { pressed: true, vk_code, modifiers: bits })
            } else if message == WM_KEYUP || message == WM_SYSKEYUP {
                r == Some(GlobalKeyEvent { pressed: false, vk_code, modifiers: bits })
            } else {
                r is None
            }
        }),
{
    if n_code < 0 || vk_code == VK_SHIFT || vk_code == VK_LCONTROL || vk_code == VK_RCONTROL
        || vk_code == VK_LMENU || vk_code == VK_RMENU || vk_code == VK_LWIN || vk_code == VK_RWIN {
        return None;
    }
    let modifiers: u32 = (if shift_down {
        MOD_SHIFT
    } else {
        0
    }) | (if ctrl_down {
        MOD_CTRL
    } else {
        0
    }) | (if alt_down {
        MOD_ALT
    } else {
        0
    }) | (if lwin_down || rwin_down {
        MOD_LOGO
    } else {
        0
    });
    if message == WM_KEYDOWN || message == WM_SYSKEYDOWN {
        Some(GlobalKeyEvent { pressed: true, vk_code, modifiers })
    } else if message == WM_KEYUP || message == WM_SYSKEYUP {
        Some(GlobalKeyEvent { pressed: false, vk_code, modifiers })
    } else {
        None
    }
}

} // verus!
