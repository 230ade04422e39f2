//! The keyboard hook without chords of the Windows key alone.

use flowtile_core_daemon::control::WatchCommand;
use flowtile_core_daemon::hotkeys::plain::{HookDecision, LowLevelHotkeyState};
use flowtile_core_daemon::hotkeys::registration::NativeHotkeyRegistration;
use windows_sys::Win32::UI::{
    Input::KeyboardAndMouse::{
        MOD_CONTROL, MOD_NOREPEAT, MOD_WIN, VK_LCONTROL, VK_LSHIFT, VK_LWIN,
    },
    WindowsAndMessaging::{WM_KEYDOWN, WM_KEYUP},
};

#[test]
fn hotkeys_low_level_scroll_state_repeats_while_held_and_suppresses_release() {
    let mut state = LowLevelHotkeyState::new(vec![NativeHotkeyRegistration {
        trigger: "Win+Ctrl+L".to_string(),
        command: WatchCommand::ScrollRight,
        register_modifiers: MOD_CONTROL | MOD_WIN | MOD_NOREPEAT,
        required_modifiers: MOD_CONTROL | MOD_WIN,
        key: u32::from(b'L'),
    }]);

    assert_eq!(
        state.handle_key_event(u32::from(VK_LWIN), WM_KEYDOWN, false),
        HookDecision::default()
    );
    assert_eq!(
        state.handle_key_event(u32::from(VK_LCONTROL), WM_KEYDOWN, false),
        HookDecision::default()
    );

    let trigger = state.handle_key_event(u32::from(b'L'), WM_KEYDOWN, false);
    assert_eq!(
        trigger,
        HookDecision {
            command: Some(WatchCommand::ScrollRight),
            suppress: true,
        }
    );

    assert_eq!(
        state.repeat_command_while_held(),
        Some(WatchCommand::ScrollRight)
    );
    assert_eq!(
        state.handle_key_event(u32::from(b'L'), WM_KEYDOWN, false),
        HookDecision {
            command: None,
            suppress: true,
        }
    );

    assert!(
        state
            .handle_key_event(u32::from(b'L'), WM_KEYUP, false)
            .suppress
    );
    assert_eq!(state.repeat_command_while_held(), None);
    assert!(
        !state
            .handle_key_event(u32::from(VK_LCONTROL), WM_KEYUP, false)
            .suppress
    );
    assert!(
        !state
            .handle_key_event(u32::from(VK_LWIN), WM_KEYUP, false)
            .suppress
    );
}

#[test]
fn hotkeys_low_level_non_repeat_command_fires_once_while_held() {
    let mut state = LowLevelHotkeyState::new(vec![NativeHotkeyRegistration {
        trigger: "Win+Ctrl+F".to_string(),
        command: WatchCommand::ToggleFloating,
        register_modifiers: MOD_CONTROL | MOD_WIN | MOD_NOREPEAT,
        required_modifiers: MOD_CONTROL | MOD_WIN,
        key: u32::from(b'F'),
    }]);

    assert_eq!(
        state.handle_key_event(u32::from(VK_LWIN), WM_KEYDOWN, false),
        HookDecision::default()
    );
    assert_eq!(
        state.handle_key_event(u32::from(VK_LCONTROL), WM_KEYDOWN, false),
        HookDecision::default()
    );

    assert_eq!(
        state.handle_key_event(u32::from(b'F'), WM_KEYDOWN, false),
        HookDecision {
            command: Some(WatchCommand::ToggleFloating),
            suppress: true,
        }
    );
    assert_eq!(
        state.handle_key_event(u32::from(b'F'), WM_KEYDOWN, false),
        HookDecision {
            command: None,
            suppress: true,
        }
    );
    assert_eq!(state.repeat_command_while_held(), None);
}

#[test]
fn hotkeys_low_level_state_does_not_match_with_extra_modifier() {
    let mut state = LowLevelHotkeyState::new(vec![NativeHotkeyRegistration {
        trigger: "Win+Ctrl+L".to_string(),
        command: WatchCommand::ScrollRight,
        register_modifiers: MOD_CONTROL | MOD_WIN | MOD_NOREPEAT,
        required_modifiers: MOD_CONTROL | MOD_WIN,
        key: u32::from(b'L'),
    }]);

    assert_eq!(
        state.handle_key_event(u32::from(VK_LWIN), WM_KEYDOWN, false),
        HookDecision::default()
    );
    assert_eq!(
        state.handle_key_event(u32::from(VK_LCONTROL), WM_KEYDOWN, false),
        HookDecision::default()
    );
    assert_eq!(
        state.handle_key_event(u32::from(VK_LSHIFT), WM_KEYDOWN, false),
        HookDecision::default()
    );

    assert_eq!(
        state.handle_key_event(u32::from(b'L'), WM_KEYDOWN, false),
        HookDecision::default()
    );
}

#[test]
fn hotkeys_low_level_state_ignores_injected_events() {
    let mut state = LowLevelHotkeyState::new(vec![NativeHotkeyRegistration {
        trigger: "Win+Ctrl+L".to_string(),
        command: WatchCommand::ScrollRight,
        register_modifiers: MOD_CONTROL | MOD_WIN | MOD_NOREPEAT,
        required_modifiers: MOD_CONTROL | MOD_WIN,
        key: u32::from(b'L'),
    }]);

    assert_eq!(
        state.handle_key_event(u32::from(b'L'), WM_KEYDOWN, true),
        HookDecision::default()
    );
}

#[test]
fn hotkeys_low_level_state_does_not_suppress_modifier_release_after_match() {
    let mut state = LowLevelHotkeyState::new(vec![NativeHotkeyRegistration {
        trigger: "Win+Ctrl+L".to_string(),
        command: WatchCommand::ScrollRight,
        register_modifiers: MOD_CONTROL | MOD_WIN | MOD_NOREPEAT,
        required_modifiers: MOD_CONTROL | MOD_WIN,
        key: u32::from(b'L'),
    }]);

    assert_eq!(
        state.handle_key_event(u32::from(VK_LWIN), WM_KEYDOWN, false),
        HookDecision::default()
    );
    assert_eq!(
        state.handle_key_event(u32::from(VK_LCONTROL), WM_KEYDOWN, false),
        HookDecision::default()
    );
    assert_eq!(
        state.handle_key_event(u32::from(b'L'), WM_KEYDOWN, false),
        HookDecision {
            command: Some(WatchCommand::ScrollRight),
            suppress: true,
        }
    );

    assert!(
        !state
            .handle_key_event(u32::from(VK_LCONTROL), WM_KEYUP, false)
            .suppress
    );
    assert!(
        !state
            .handle_key_event(u32::from(VK_LWIN), WM_KEYUP, false)
            .suppress
    );
}
