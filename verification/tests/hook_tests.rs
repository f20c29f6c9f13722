use mon3tr_widget::hook::{
    hook_event, GlobalKeyEvent, VK_LCONTROL, VK_SHIFT, WM_KEYDOWN, WM_KEYUP, WM_SYSKEYDOWN,
    WM_SYSKEYUP,
};
use mon3tr_widget::sequencer::{MOD_ALT, MOD_CTRL, MOD_LOGO, MOD_SHIFT};
use mon3tr_widget::window_ext::{click_passthrough_style, WS_EX_LAYERED, WS_EX_TRANSPARENT};

const VK_K: u32 = 0x4B;

#[test]
fn key_messages_become_events() {
    assert_eq!(
        hook_event(0, WM_KEYDOWN, VK_K, false, false, false, false, false),
        Some(GlobalKeyEvent { pressed: true, vk_code: VK_K, modifiers: 0 }),
    );
    assert_eq!(
        hook_event(0, WM_SYSKEYDOWN, VK_K, false, false, true, false, false),
        Some(GlobalKeyEvent { pressed: true, vk_code: VK_K, modifiers: MOD_ALT }),
    );
    assert_eq!(
        hook_event(0, WM_KEYUP, VK_K, false, false, false, false, false),
        Some(GlobalKeyEvent { pressed: false, vk_code: VK_K, modifiers: 0 }),
    );
    assert_eq!(
        hook_event(0, WM_SYSKEYUP, VK_K, false, false, false, false, false),
        Some(GlobalKeyEvent { pressed: false, vk_code: VK_K, modifiers: 0 }),
    );
}

#[test]
fn modifier_keys_and_foreign_messages_pass_through() {
    // A negative hook code means: do not process.
    assert_eq!(hook_event(-1, WM_KEYDOWN, VK_K, false, false, false, false, false), None);
    // Modifier keys never become events of their own.
    assert_eq!(hook_event(0, WM_KEYDOWN, VK_SHIFT, true, false, false, false, false), None);
    assert_eq!(hook_event(0, WM_KEYDOWN, VK_LCONTROL, false, true, false, false, false), None);
    // Unrelated window messages carry no key event.
    assert_eq!(hook_event(0, 0x200, VK_K, false, false, false, false, false), None);
}

#[test]
fn modifier_bitset_combines_held_keys() {
    let event = hook_event(0, WM_KEYDOWN, VK_K, true, true, false, false, true).unwrap();
    assert_eq!(event.modifiers, MOD_SHIFT | MOD_CTRL | MOD_LOGO);
    // Either logo key alone sets the logo bit.
    let left = hook_event(0, WM_KEYDOWN, VK_K, false, false, false, true, false).unwrap();
    let right = hook_event(0, WM_KEYDOWN, VK_K, false, false, false, false, true).unwrap();
    assert_eq!(left.modifiers, MOD_LOGO);
    assert_eq!(right.modifiers, MOD_LOGO);
}

#[test]
fn passthrough_style_sets_and_clears_the_transparent_bit() {
    let style = 0x0001_0000u32;
    let on = click_passthrough_style(style, true);
    assert_eq!(on, style | WS_EX_TRANSPARENT | WS_EX_LAYERED);
    let off = click_passthrough_style(on, false);
    assert_eq!(off & WS_EX_TRANSPARENT, 0);
    assert_ne!(off & WS_EX_LAYERED, 0);
    assert_eq!(off & style, style);
}
