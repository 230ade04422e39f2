//! The keyboard hook that also serves chords of the Windows key alone.

use std::collections::HashSet;

use flowtile_core_daemon::control::WatchCommand;
use flowtile_core_daemon::hotkeys::low_level::{
    is_super_held_by_low_level_runtime, pending_modifier_vks, HookDecision, LowLevelHotkeyState,
    ReplayAction,
};
use flowtile_core_daemon::hotkeys::plain::LowLevelHotkeyState as PlainHotkeyState;
use flowtile_core_daemon::hotkeys::registration::NativeHotkeyRegistration;
use flowtile_core_daemon::hotkeys::replay::replay_action_needs_shell_screenshot_escape;
use windows_sys::Win32::UI::{
    Input::KeyboardAndMouse::{
        MOD_CONTROL, MOD_NOREPEAT, MOD_WIN, VK_LCONTROL, VK_LSHIFT, VK_LWIN, VK_RWIN,
    },
    WindowsAndMessaging::{WM_KEYDOWN, WM_KEYUP},
};

#[test]
fn low_level_low_level_scroll_state_repeats_while_held_and_suppresses_release() {
    let mut state = LowLevelHotkeyState::new(vec![NativeHotkeyRegistration {
        trigger: "Win+Ctrl+L".to_string(),
        command: WatchCommand::ScrollRight,
        register_modifiers: MOD_CONTROL | MOD_WIN | MOD_NOREPEAT,
        required_modifiers: MOD_CONTROL | MOD_WIN,
        key: u32::from(b'L'),
    }]);

    assert_eq!(
        state.handle_key_event(u32::from(VK_LWIN), WM_KEYDOWN, false),
        HookDecision::default()
    );
    assert_eq!(
        state.handle_key_event(u32::from(VK_LCONTROL), WM_KEYDOWN, false),
        HookDecision::default()
    );

    let trigger = state.handle_key_event(u32::from(b'L'), WM_KEYDOWN, false);
    assert_eq!(
        trigger,
        HookDecision {
            command: Some(WatchCommand::ScrollRight),
            suppress: true,
            replay: None,
        }
    );

    assert_eq!(
        state.repeat_command_while_held(),
        Some(WatchCommand::ScrollRight)
    );
    assert_eq!(
        state.handle_key_event(u32::from(b'L'), WM_KEYDOWN, false),
        HookDecision {
            command: None,
            suppress: true,
            replay: None,
        }
    );

    assert!(
        state
            .handle_key_event(u32::from(b'L'), WM_KEYUP, false)
            .suppress
    );
    assert_eq!(state.repeat_command_while_held(), None);
    assert!(
        !state
            .handle_key_event(u32::from(VK_LCONTROL), WM_KEYUP, false)
            .suppress
    );
    assert!(
        !state
            .handle_key_event(u32::from(VK_LWIN), WM_KEYUP, false)
            .suppress
    );
}

#[test]
fn low_level_low_level_non_repeat_command_fires_once_while_held() {
    let mut state = LowLevelHotkeyState::new(vec![NativeHotkeyRegistration {
        trigger: "Win+Ctrl+F".to_string(),
        command: WatchCommand::ToggleFloating,
        register_modifiers: MOD_CONTROL | MOD_WIN | MOD_NOREPEAT,
        required_modifiers: MOD_CONTROL | MOD_WIN,
        key: u32::from(b'F'),
    }]);

    assert_eq!(
        state.handle_key_event(u32::from(VK_LWIN), WM_KEYDOWN, false),
        HookDecision::default()
    );
    assert_eq!(
        state.handle_key_event(u32::from(VK_LCONTROL), WM_KEYDOWN, false),
        HookDecision::default()
    );

    assert_eq!(
        state.handle_key_event(u32::from(b'F'), WM_KEYDOWN, false),
        HookDecision {
            command: Some(WatchCommand::ToggleFloating),
            suppress: true,
            replay: None,
        }
    );
    assert_eq!(
        state.handle_key_event(u32::from(b'F'), WM_KEYDOWN, false),
        HookDecision {
            command: None,
            suppress: true,
            replay: None,
        }
    );
    assert_eq!(state.repeat_command_while_held(), None);
}

#[test]
fn low_level_low_level_state_does_not_match_with_extra_modifier() {
    let mut state = LowLevelHotkeyState::new(vec![NativeHotkeyRegistration {
        trigger: "Win+Ctrl+L".to_string(),
        command: WatchCommand::ScrollRight,
        register_modifiers: MOD_CONTROL | MOD_WIN | MOD_NOREPEAT,
        required_modifiers: MOD_CONTROL | MOD_WIN,
        key: u32::from(b'L'),
    }]);

    assert_eq!(
        state.handle_key_event(u32::from(VK_LWIN), WM_KEYDOWN, false),
        HookDecision::default()
    );
    assert_eq!(
        state.handle_key_event(u32::from(VK_LCONTROL), WM_KEYDOWN, false),
        HookDecision::default()
    );
    assert_eq!(
        state.handle_key_event(u32::from(VK_LSHIFT), WM_KEYDOWN, false),
        HookDecision::default()
    );

    assert_eq!(
        state.handle_key_event(u32::from(b'L'), WM_KEYDOWN, false),
        HookDecision::default()
    );
}

#[test]
fn low_level_low_level_state_ignores_injected_events() {
    let mut state = LowLevelHotkeyState::new(vec![NativeHotkeyRegistration {
        trigger: "Win+Ctrl+L".to_string(),
        command: WatchCommand::ScrollRight,
        register_modifiers: MOD_CONTROL | MOD_WIN | MOD_NOREPEAT,
        required_modifiers: MOD_CONTROL | MOD_WIN,
        key: u32::from(b'L'),
    }]);

    assert_eq!(
        state.handle_key_event(u32::from(b'L'), WM_KEYDOWN, true),
        HookDecision::default()
    );
}

#[test]
fn low_level_low_level_state_does_not_suppress_modifier_release_after_match() {
    let mut state = LowLevelHotkeyState::new(vec![NativeHotkeyRegistration {
        trigger: "Win+Ctrl+L".to_string(),
        command: WatchCommand::ScrollRight,
        register_modifiers: MOD_CONTROL | MOD_WIN | MOD_NOREPEAT,
        required_modifiers: MOD_CONTROL | MOD_WIN,
        key: u32::from(b'L'),
    }]);

    assert_eq!(
        state.handle_key_event(u32::from(VK_LWIN), WM_KEYDOWN, false),
        HookDecision::default()
    );
    assert_eq!(
        state.handle_key_event(u32::from(VK_LCONTROL), WM_KEYDOWN, false),
        HookDecision::default()
    );
    assert_eq!(
        state.handle_key_event(u32::from(b'L'), WM_KEYDOWN, false),
        HookDecision {
            command: Some(WatchCommand::ScrollRight),
            suppress: true,
            replay: None,
        }
    );

    assert!(
        !state
            .handle_key_event(u32::from(VK_LCONTROL), WM_KEYUP, false)
            .suppress
    );
    assert!(
        !state
            .handle_key_event(u32::from(VK_LWIN), WM_KEYUP, false)
            .suppress
    );
}

#[test]
fn pure_win_chord_fires_without_replay_and_suppresses_win_release() {
    let mut state = LowLevelHotkeyState::new(vec![NativeHotkeyRegistration {
        trigger: "Win+H".to_string(),
        command: WatchCommand::FocusPrev,
        register_modifiers: MOD_WIN,
        required_modifiers: MOD_WIN,
        key: u32::from(b'H'),
    }]);

    assert_eq!(
        state.handle_key_event(u32::from(VK_LWIN), WM_KEYDOWN, false),
        HookDecision {
            command: None,
            suppress: true,
            replay: None,
        }
    );
    assert_eq!(
        state.handle_key_event(u32::from(b'H'), WM_KEYDOWN, false),
        HookDecision {
            command: Some(WatchCommand::FocusPrev),
            suppress: true,
            replay: None,
        }
    );
    assert_eq!(
        state.handle_key_event(u32::from(b'H'), WM_KEYUP, false),
        HookDecision {
            command: None,
            suppress: true,
            replay: None,
        }
    );
    assert_eq!(
        state.handle_key_event(u32::from(VK_LWIN), WM_KEYUP, false),
        HookDecision {
            command: None,
            suppress: true,
            replay: None,
        }
    );
}

#[test]
fn pure_win_k_chord_focuses_next_without_input_leakage() {
    let mut state = LowLevelHotkeyState::new(vec![NativeHotkeyRegistration {
        trigger: "Win+K".to_string(),
        command: WatchCommand::FocusNext,
        register_modifiers: MOD_WIN,
        required_modifiers: MOD_WIN,
        key: u32::from(b'K'),
    }]);

    assert_eq!(
        state.handle_key_event(u32::from(VK_LWIN), WM_KEYDOWN, false),
        HookDecision {
            command: None,
            suppress: true,
            replay: None,
        }
    );
    assert_eq!(
        state.handle_key_event(u32::from(b'K'), WM_KEYDOWN, false),
        HookDecision {
            command: Some(WatchCommand::FocusNext),
            suppress: true,
            replay: None,
        }
    );
    assert_eq!(
        state.handle_key_event(u32::from(b'K'), WM_KEYUP, false),
        HookDecision {
            command: None,
            suppress: true,
            replay: None,
        }
    );
    assert_eq!(
        state.handle_key_event(u32::from(VK_LWIN), WM_KEYUP, false),
        HookDecision {
            command: None,
            suppress: true,
            replay: None,
        }
    );
}

#[test]
fn pure_win_u_chord_focuses_workspace_up_without_input_leakage() {
    let mut state = LowLevelHotkeyState::new(vec![NativeHotkeyRegistration {
        trigger: "Win+U".to_string(),
        command: WatchCommand::FocusWorkspaceUp,
        register_modifiers: MOD_WIN,
        required_modifiers: MOD_WIN,
        key: u32::from(b'U'),
    }]);

    assert_eq!(
        state.handle_key_event(u32::from(VK_LWIN), WM_KEYDOWN, false),
        HookDecision {
            command: None,
            suppress: true,
            replay: None,
        }
    );
    assert_eq!(
        state.handle_key_event(u32::from(b'U'), WM_KEYDOWN, false),
        HookDecision {
            command: Some(WatchCommand::FocusWorkspaceUp),
            suppress: true,
            replay: None,
        }
    );
    assert_eq!(
        state.handle_key_event(u32::from(b'U'), WM_KEYUP, false),
        HookDecision {
            command: None,
            suppress: true,
            replay: None,
        }
    );
    assert_eq!(
        state.handle_key_event(u32::from(VK_LWIN), WM_KEYUP, false),
        HookDecision {
            command: None,
            suppress: true,
            replay: None,
        }
    );
}

#[test]
fn pure_win_j_chord_focuses_workspace_down_without_input_leakage() {
    let mut state = LowLevelHotkeyState::new(vec![NativeHotkeyRegistration {
        trigger: "Win+J".to_string(),
        command: WatchCommand::FocusWorkspaceDown,
        register_modifiers: MOD_WIN,
        required_modifiers: MOD_WIN,
        key: u32::from(b'J'),
    }]);

    assert_eq!(
        state.handle_key_event(u32::from(VK_LWIN), WM_KEYDOWN, false),
        HookDecision {
            command: None,
            suppress: true,
            replay: None,
        }
    );
    assert_eq!(
        state.handle_key_event(u32::from(b'J'), WM_KEYDOWN, false),
        HookDecision {
            command: Some(WatchCommand::FocusWorkspaceDown),
            suppress: true,
            replay: None,
        }
    );
    assert_eq!(
        state.handle_key_event(u32::from(b'J'), WM_KEYUP, false),
        HookDecision {
            command: None,
            suppress: true,
            replay: None,
        }
    );
    assert_eq!(
        state.handle_key_event(u32::from(VK_LWIN), WM_KEYUP, false),
        HookDecision {
            command: None,
            suppress: true,
            replay: None,
        }
    );
}

#[test]
fn pure_win_tab_chord_toggles_overview_without_shell_leakage() {
    let mut state = LowLevelHotkeyState::new(vec![NativeHotkeyRegistration {
        trigger: "Win+Tab".to_string(),
        command: WatchCommand::ToggleOverview,
        register_modifiers: MOD_WIN,
        required_modifiers: MOD_WIN,
        key: 0x09,
    }]);

    assert_eq!(
        state.handle_key_event(u32::from(VK_LWIN), WM_KEYDOWN, false),
        HookDecision {
            command: None,
            suppress: true,
            replay: None,
        }
    );
    assert_eq!(
        state.handle_key_event(0x09, WM_KEYDOWN, false),
        HookDecision {
            command: Some(WatchCommand::ToggleOverview),
            suppress: true,
            replay: None,
        }
    );
    assert_eq!(
        state.handle_key_event(0x09, WM_KEYUP, false),
        HookDecision {
            command: None,
            suppress: true,
            replay: None,
        }
    );
    assert_eq!(
        state.handle_key_event(u32::from(VK_LWIN), WM_KEYUP, false),
        HookDecision {
            command: None,
            suppress: true,
            replay: None,
        }
    );
}

#[test]
fn pure_win_t_chord_opens_terminal_without_shell_leakage() {
    let mut state = LowLevelHotkeyState::new(vec![NativeHotkeyRegistration {
        trigger: "Win+T".to_string(),
        command: WatchCommand::OpenTerminal,
        register_modifiers: MOD_WIN,
        required_modifiers: MOD_WIN,
        key: u32::from(b'T'),
    }]);

    assert_eq!(
        state.handle_key_event(u32::from(VK_LWIN), WM_KEYDOWN, false),
        HookDecision {
            command: None,
            suppress: true,
            replay: None,
        }
    );
    assert_eq!(
        state.handle_key_event(u32::from(b'T'), WM_KEYDOWN, false),
        HookDecision {
            command: Some(WatchCommand::OpenTerminal),
            suppress: true,
            replay: None,
        }
    );
    assert_eq!(
        state.handle_key_event(u32::from(b'T'), WM_KEYUP, false),
        HookDecision {
            command: None,
            suppress: true,
            replay: None,
        }
    );
    assert_eq!(
        state.handle_key_event(u32::from(VK_LWIN), WM_KEYUP, false),
        HookDecision {
            command: None,
            suppress: true,
            replay: None,
        }
    );
}

#[test]
fn pure_win_q_chord_closes_window_without_shell_leakage() {
    let mut state = LowLevelHotkeyState::new(vec![NativeHotkeyRegistration {
        trigger: "Win+Q".to_string(),
        command: WatchCommand::CloseWindow,
        register_modifiers: MOD_WIN,
        required_modifiers: MOD_WIN,
        key: u32::from(b'Q'),
    }]);

    assert_eq!(
        state.handle_key_event(u32::from(VK_LWIN), WM_KEYDOWN, false),
        HookDecision {
            command: None,
            suppress: true,
            replay: None,
        }
    );
    assert_eq!(
        state.handle_key_event(u32::from(b'Q'), WM_KEYDOWN, false),
        HookDecision {
            command: Some(WatchCommand::CloseWindow),
            suppress: true,
            replay: None,
        }
    );
    assert_eq!(
        state.handle_key_event(u32::from(b'Q'), WM_KEYUP, false),
        HookDecision {
            command: None,
            suppress: true,
            replay: None,
        }
    );
    assert_eq!(
        state.handle_key_event(u32::from(VK_LWIN), WM_KEYUP, false),
        HookDecision {
            command: None,
            suppress: true,
            replay: None,
        }
    );
}

#[test]
fn unmatched_pure_win_key_replays_prefix_back_to_shell() {
    let mut state = LowLevelHotkeyState::new(vec![NativeHotkeyRegistration {
        trigger: "Win+H".to_string(),
        command: WatchCommand::FocusPrev,
        register_modifiers: MOD_WIN,
        required_modifiers: MOD_WIN,
        key: u32::from(b'H'),
    }]);

    assert_eq!(
        state.handle_key_event(u32::from(VK_LWIN), WM_KEYDOWN, false),
        HookDecision {
            command: None,
            suppress: true,
            replay: None,
        }
    );
    assert_eq!(
        state.handle_key_event(u32::from(b'E'), WM_KEYDOWN, false),
        HookDecision {
            command: None,
            suppress: true,
            replay: Some(ReplayAction::ReplayWinChord {
                win_vk: u32::from(VK_LWIN),
                modifier_vks: Vec::new(),
                key_vk: u32::from(b'E'),
            }),
        }
    );
    assert_eq!(
        state.handle_key_event(u32::from(b'E'), WM_KEYUP, false),
        HookDecision {
            command: None,
            suppress: true,
            replay: None,
        }
    );
    assert_eq!(
        state.handle_key_event(u32::from(VK_LWIN), WM_KEYUP, false),
        HookDecision {
            command: None,
            suppress: true,
            replay: None,
        }
    );
}

#[test]
fn win_l_locks_workstation_without_replaying_or_leaking_stale_super_state() {
    let mut state = LowLevelHotkeyState::new(vec![NativeHotkeyRegistration {
        trigger: "Win+H".to_string(),
        command: WatchCommand::FocusPrev,
        register_modifiers: MOD_WIN,
        required_modifiers: MOD_WIN,
        key: u32::from(b'H'),
    }]);

    assert_eq!(
        state.handle_key_event(u32::from(VK_LWIN), WM_KEYDOWN, false),
        HookDecision {
            command: None,
            suppress: true,
            replay: None,
        }
    );
    assert_eq!(
        state.handle_key_event(u32::from(b'L'), WM_KEYDOWN, false),
        HookDecision {
            command: None,
            suppress: true,
            replay: Some(ReplayAction::LockWorkstation),
        }
    );
    assert_eq!(
        state.handle_key_event(u32::from(b'C'), WM_KEYDOWN, false),
        HookDecision::default()
    );
    assert_eq!(
        state.handle_key_event(u32::from(VK_LWIN), WM_KEYUP, false),
        HookDecision::default()
    );
}

#[test]
fn standalone_win_tap_is_swallowed_when_pure_win_bindings_are_active() {
    let mut state = LowLevelHotkeyState::new(vec![NativeHotkeyRegistration {
        trigger: "Win+H".to_string(),
        command: WatchCommand::FocusPrev,
        register_modifiers: MOD_WIN,
        required_modifiers: MOD_WIN,
        key: u32::from(b'H'),
    }]);

    assert_eq!(
        state.handle_key_event(u32::from(VK_LWIN), WM_KEYDOWN, false),
        HookDecision {
            command: None,
            suppress: true,
            replay: None,
        }
    );
    assert_eq!(
        state.handle_key_event(u32::from(VK_LWIN), WM_KEYUP, false),
        HookDecision {
            command: None,
            suppress: true,
            replay: None,
        }
    );
}

#[test]
fn win_shift_s_replays_full_modifier_chord_instead_of_start_transfer() {
    let mut state = LowLevelHotkeyState::new(vec![NativeHotkeyRegistration {
        trigger: "Win+H".to_string(),
        command: WatchCommand::FocusPrev,
        register_modifiers: MOD_WIN,
        required_modifiers: MOD_WIN,
        key: u32::from(b'H'),
    }]);

    assert_eq!(
        state.handle_key_event(u32::from(VK_LWIN), WM_KEYDOWN, false),
        HookDecision {
            command: None,
            suppress: true,
            replay: None,
        }
    );
    assert_eq!(
        state.handle_key_event(u32::from(VK_LSHIFT), WM_KEYDOWN, false),
        HookDecision {
            command: None,
            suppress: true,
            replay: None,
        }
    );
    assert_eq!(
        state.handle_key_event(u32::from(b'S'), WM_KEYDOWN, false),
        HookDecision {
            command: None,
            suppress: true,
            replay: Some(ReplayAction::ReplayWinChord {
                win_vk: u32::from(VK_LWIN),
                modifier_vks: vec![u32::from(VK_LSHIFT)],
                key_vk: u32::from(b'S'),
            }),
        }
    );
    assert_eq!(
        state.handle_key_event(u32::from(b'S'), WM_KEYUP, false),
        HookDecision {
            command: None,
            suppress: true,
            replay: None,
        }
    );
    assert_eq!(
        state.handle_key_event(u32::from(VK_LSHIFT), WM_KEYUP, false),
        HookDecision {
            command: None,
            suppress: true,
            replay: None,
        }
    );
    assert_eq!(
        state.handle_key_event(u32::from(VK_LWIN), WM_KEYUP, false),
        HookDecision {
            command: None,
            suppress: true,
            replay: None,
        }
    );
}

#[test]
fn pending_win_prefix_keeps_modifier_until_exact_binding_matches() {
    let mut state = LowLevelHotkeyState::new(vec![
        NativeHotkeyRegistration {
            trigger: "Win+H".to_string(),
            command: WatchCommand::FocusPrev,
            register_modifiers: MOD_WIN,
            required_modifiers: MOD_WIN,
            key: u32::from(b'H'),
        },
        NativeHotkeyRegistration {
            trigger: "Win+Ctrl+L".to_string(),
            command: WatchCommand::ScrollRight,
            register_modifiers: MOD_CONTROL | MOD_WIN | MOD_NOREPEAT,
            required_modifiers: MOD_CONTROL | MOD_WIN,
            key: u32::from(b'L'),
        },
    ]);

    assert_eq!(
        state.handle_key_event(u32::from(VK_LWIN), WM_KEYDOWN, false),
        HookDecision {
            command: None,
            suppress: true,
            replay: None,
        }
    );
    assert_eq!(
        state.handle_key_event(u32::from(VK_LCONTROL), WM_KEYDOWN, false),
        HookDecision {
            command: None,
            suppress: true,
            replay: None,
        }
    );
    assert_eq!(
        state.handle_key_event(u32::from(b'L'), WM_KEYDOWN, false),
        HookDecision {
            command: Some(WatchCommand::ScrollRight),
            suppress: true,
            replay: None,
        }
    );
    assert_eq!(
        state.handle_key_event(u32::from(b'L'), WM_KEYUP, false),
        HookDecision {
            command: None,
            suppress: true,
            replay: None,
        }
    );
    assert_eq!(
        state.handle_key_event(u32::from(VK_LCONTROL), WM_KEYUP, false),
        HookDecision {
            command: None,
            suppress: true,
            replay: None,
        }
    );
    assert_eq!(
        state.handle_key_event(u32::from(VK_LWIN), WM_KEYUP, false),
        HookDecision {
            command: None,
            suppress: true,
            replay: None,
        }
    );
}

#[test]
fn shell_screenshot_replay_requests_overview_escape() {
    assert!(replay_action_needs_shell_screenshot_escape(
        &ReplayAction::ReplayWinChord {
            win_vk: u32::from(VK_LWIN),
            modifier_vks: vec![u32::from(VK_LSHIFT)],
            key_vk: u32::from(b'S'),
        }
    ));
    assert!(!replay_action_needs_shell_screenshot_escape(
        &ReplayAction::ReplayWinChord {
            win_vk: u32::from(VK_LWIN),
            modifier_vks: vec![u32::from(VK_LSHIFT)],
            key_vk: u32::from(b'D'),
        }
    ));
    assert!(!replay_action_needs_shell_screenshot_escape(
        &ReplayAction::ReplayWinChord {
            win_vk: u32::from(VK_LWIN),
            modifier_vks: vec![u32::from(VK_LCONTROL)],
            key_vk: u32::from(b'S'),
        }
    ));
}

#[test]
fn win_s_transfers_to_start_menu_without_search_leakage() {
    let mut state = LowLevelHotkeyState::new(vec![NativeHotkeyRegistration {
        trigger: "Win+H".to_string(),
        command: WatchCommand::FocusPrev,
        register_modifiers: MOD_WIN,
        required_modifiers: MOD_WIN,
        key: u32::from(b'H'),
    }]);

    assert_eq!(
        state.handle_key_event(u32::from(VK_LWIN), WM_KEYDOWN, false),
        HookDecision {
            command: None,
            suppress: true,
            replay: None,
        }
    );
    assert_eq!(
        state.handle_key_event(u32::from(b'S'), WM_KEYDOWN, false),
        HookDecision {
            command: None,
            suppress: true,
            replay: Some(ReplayAction::WinTap {
                win_vk: u32::from(VK_LWIN),
            }),
        }
    );
    assert_eq!(
        state.handle_key_event(u32::from(b'S'), WM_KEYDOWN, false),
        HookDecision {
            command: None,
            suppress: true,
            replay: None,
        }
    );
    assert_eq!(
        state.handle_key_event(u32::from(b'S'), WM_KEYUP, false),
        HookDecision {
            command: None,
            suppress: true,
            replay: None,
        }
    );
    assert_eq!(
        state.handle_key_event(u32::from(VK_LWIN), WM_KEYUP, false),
        HookDecision {
            command: None,
            suppress: true,
            replay: None,
        }
    );
}

#[test]
fn configured_pure_win_s_binding_takes_precedence_over_start_menu_transfer() {
    let mut state = LowLevelHotkeyState::new(vec![NativeHotkeyRegistration {
        trigger: "Win+S".to_string(),
        command: WatchCommand::FocusPrev,
        register_modifiers: MOD_WIN,
        required_modifiers: MOD_WIN,
        key: u32::from(b'S'),
    }]);

    assert_eq!(
        state.handle_key_event(u32::from(VK_LWIN), WM_KEYDOWN, false),
        HookDecision {
            command: None,
            suppress: true,
            replay: None,
        }
    );
    assert_eq!(
        state.handle_key_event(u32::from(b'S'), WM_KEYDOWN, false),
        HookDecision {
            command: Some(WatchCommand::FocusPrev),
            suppress: true,
            replay: None,
        }
    );
    assert_eq!(
        state.handle_key_event(u32::from(b'S'), WM_KEYUP, false),
        HookDecision {
            command: None,
            suppress: true,
            replay: None,
        }
    );
    assert_eq!(
        state.handle_key_event(u32::from(VK_LWIN), WM_KEYUP, false),
        HookDecision {
            command: None,
            suppress: true,
            replay: None,
        }
    );
}

fn pure_win_binding(key: u8, command: WatchCommand) -> NativeHotkeyRegistration {
    NativeHotkeyRegistration {
        trigger: format!("Win+{}", char::from(key)),
        command,
        register_modifiers: MOD_WIN,
        required_modifiers: MOD_WIN,
        key: u32::from(key),
    }
}

const SWALLOWED: HookDecision = HookDecision {
    command: None,
    suppress: true,
    replay: None,
};

#[test]
fn a_settled_chord_leaves_an_idle_keyboard() {
    let mut state = LowLevelHotkeyState::new(vec![pure_win_binding(b'H', WatchCommand::FocusPrev)]);
    for _ in 0..2 {
        state.handle_key_event(u32::from(VK_LWIN), WM_KEYDOWN, false);
        assert!(is_super_held_by_low_level_runtime(&state));
        let fired = state.handle_key_event(u32::from(b'H'), WM_KEYDOWN, false);
        assert_eq!(fired.command, Some(WatchCommand::FocusPrev));
        state.handle_key_event(u32::from(b'H'), WM_KEYUP, false);
        state.handle_key_event(u32::from(VK_LWIN), WM_KEYUP, false);
        assert!(!is_super_held_by_low_level_runtime(&state));
        assert!(state.pressed_keys.is_empty());
        assert!(state.suppressed_held_keys.is_empty());
        assert!(state.suppressed_key_releases.is_empty());
        assert!(state.pending_win_prefix.is_none());
        assert!(state.active_trigger.is_none());
    }
}

#[test]
fn nothing_passes_while_the_windows_key_is_held_back() {
    let mut state = LowLevelHotkeyState::new(vec![pure_win_binding(b'H', WatchCommand::FocusPrev)]);
    state.handle_key_event(u32::from(VK_LWIN), WM_KEYDOWN, false);
    for vk in [VK_LSHIFT, VK_LCONTROL, VK_RWIN, VK_LWIN] {
        assert_eq!(
            state.handle_key_event(u32::from(vk), WM_KEYDOWN, false),
            SWALLOWED
        );
    }
    assert_eq!(
        state.handle_key_event(u32::from(VK_LSHIFT), WM_KEYUP, false),
        SWALLOWED
    );
    assert!(state.pending_win_prefix.is_some());
}

#[test]
fn replayed_modifiers_are_sorted() {
    let pressed = HashSet::from([0xa5_u32, 0x5b, 0x41, 0x11, 0xa0]);
    assert_eq!(pending_modifier_vks(&pressed, 0x5b), vec![0x11, 0xa0, 0xa5]);
}

#[test]
fn reset_forgets_every_key() {
    let mut state = LowLevelHotkeyState::new(vec![pure_win_binding(b'H', WatchCommand::FocusPrev)]);
    state.handle_key_event(u32::from(VK_LWIN), WM_KEYDOWN, false);
    state.handle_key_event(u32::from(b'E'), WM_KEYDOWN, false);
    state.reset();
    assert!(state.pressed_keys.is_empty());
    assert!(state.suppressed_held_keys.is_empty());
    assert!(state.suppressed_key_releases.is_empty());
    assert!(!is_super_held_by_low_level_runtime(&state));
    assert!(state.has_pure_win_bindings());
    assert!(state
        .find_registration(u32::from(b'H'), MOD_WIN)
        .is_some());
    assert!(state
        .find_registration(u32::from(b'H'), MOD_CONTROL)
        .is_none());
}

#[test]
fn the_windows_key_stays_known_across_hooks() {
    let binding = || vec![pure_win_binding(b'H', WatchCommand::FocusPrev)];
    let mut former = LowLevelHotkeyState::new(binding());
    assert!(!is_super_held_by_low_level_runtime(&former));
    former.handle_key_event(u32::from(VK_LWIN), WM_KEYDOWN, false);
    let held = is_super_held_by_low_level_runtime(&former);
    assert!(held);

    let mut later = LowLevelHotkeyState::with_super_held(binding(), held);
    assert!(is_super_held_by_low_level_runtime(&later));
    assert!(later.pressed_keys.is_empty());
    later.handle_key_event(u32::from(b'E'), WM_KEYDOWN, false);
    assert!(is_super_held_by_low_level_runtime(&later));
    later.handle_key_event(u32::from(VK_LWIN), WM_KEYUP, true);
    assert!(is_super_held_by_low_level_runtime(&later));
    later.handle_key_event(u32::from(VK_LWIN), WM_KEYUP, false);
    assert!(!is_super_held_by_low_level_runtime(&later));
    former.carry_super_held(false);
    assert!(!is_super_held_by_low_level_runtime(&former));
}

#[test]
fn both_hooks_agree_without_a_binding_of_the_windows_key_alone() {
    let registration = NativeHotkeyRegistration {
        trigger: "Win+Ctrl+L".to_string(),
        command: WatchCommand::ScrollRight,
        register_modifiers: MOD_CONTROL | MOD_WIN | MOD_NOREPEAT,
        required_modifiers: MOD_CONTROL | MOD_WIN,
        key: u32::from(b'L'),
    };
    let mut holding = LowLevelHotkeyState::new(vec![registration.clone()]);
    let mut plain = PlainHotkeyState::new(vec![registration]);
    for (vk, message) in [
        (u32::from(VK_LWIN), WM_KEYDOWN),
        (u32::from(VK_LCONTROL), WM_KEYDOWN),
        (u32::from(b'L'), WM_KEYDOWN),
        (u32::from(b'L'), WM_KEYDOWN),
        (u32::from(b'X'), WM_KEYDOWN),
        (u32::from(VK_LCONTROL), WM_KEYUP),
        (u32::from(b'L'), WM_KEYUP),
        (u32::from(VK_LWIN), WM_KEYUP),
    ] {
        let one = holding.handle_key_event(vk, message, false);
        let other = plain.handle_key_event(vk, message, false);
        assert_eq!((one.command, one.suppress), (other.command, other.suppress));
        assert_eq!(one.replay, None);
    }
}
