//! Triggers, their keys and the plan of a hotkey listener.

use flowtile_core_daemon::control::WatchCommand;
use flowtile_core_daemon::hotkeys::keys;
use flowtile_core_daemon::hotkeys::listener::{
    active_registration_count, collect_registrations, command_for_hotkey_id,
    ensure_bind_control_mode_supported, hotkey_id, map_command_name, partition_registrations,
    script_event_action, script_registrations, watch_command_name, BindControlMode, HotkeyBinding,
    HotkeyListenerError, HotkeyScriptEvent, ScriptEventAction,
};
use flowtile_core_daemon::hotkeys::low_level::{
    hook_event_is_injected, hook_event_is_inspected, ReplayAction,
};
use flowtile_core_daemon::hotkeys::registration::NativeHotkeyRegistration;
use flowtile_core_daemon::hotkeys::repeat::{
    repeat_loop_step, sync_repeat_loop, LowLevelRuntimeRegistry, RepeatLoopChange,
    RepeatLoopEvent, RepeatLoopStep,
};
use flowtile_core_daemon::hotkeys::replay::{
    self, is_shell_screenshot_overlay_chord, replay_action, ReplayPlan,
};
use flowtile_core_daemon::hotkeys::script::{
    plan_script_listener, script_command_sent, script_error_line, script_event, script_line,
    script_outputs, ScriptStep,
};
use flowtile_core_daemon::hotkeys::trigger::{parse_trigger, resolve_virtual_key};
use windows_sys::Win32::UI::Input::KeyboardAndMouse::{
    KEYEVENTF_EXTENDEDKEY, KEYEVENTF_KEYUP, MOD_ALT, MOD_CONTROL, MOD_NOREPEAT, MOD_SHIFT,
    MOD_WIN, VK_CONTROL, VK_LCONTROL, VK_LMENU, VK_LSHIFT, VK_LWIN, VK_MENU, VK_RCONTROL,
    VK_RMENU, VK_RSHIFT, VK_RWIN, VK_SHIFT,
};
use windows_sys::Win32::UI::WindowsAndMessaging::{
    LLKHF_INJECTED, WM_KEYDOWN, WM_KEYUP, WM_SYSKEYDOWN, WM_SYSKEYUP,
};

#[test]
fn parses_super_control_hotkey() {
    let parsed = parse_trigger("Win+Ctrl+L").expect("trigger should parse");
    assert_eq!(parsed.required_modifiers, MOD_CONTROL | MOD_WIN);
    assert_eq!(
        parsed.register_modifiers,
        MOD_CONTROL | MOD_WIN | MOD_NOREPEAT
    );
    assert_eq!(parsed.key, u32::from(b'L'));
}

#[test]
fn rejects_multiple_non_modifier_tokens() {
    let error = parse_trigger("Win+Ctrl+L+K").expect_err("trigger should fail");
    assert!(error.contains("more than one non-modifier"));
}

#[test]
fn resolves_function_keys() {
    assert_eq!(resolve_virtual_key("F1").expect("F1 should parse"), 0x70);
    assert_eq!(resolve_virtual_key("F24").expect("F24 should parse"), 0x87);
}

#[test]
fn rejects_unsupported_bind_control_mode_until_deeper_runtime_exists() {
    let error = ensure_bind_control_mode_supported(BindControlMode::ManagedShell)
        .expect_err("managed-shell should be rejected for now");
    assert!(error.message().contains("managed-shell"));
}

fn binding(trigger: &str, command: &str) -> HotkeyBinding {
    HotkeyBinding {
        trigger: trigger.to_string(),
        command: command.to_string(),
    }
}

#[test]
fn key_codes_and_messages_are_those_of_the_system() {
    assert_eq!(keys::MOD_ALT, MOD_ALT);
    assert_eq!(keys::MOD_CONTROL, MOD_CONTROL);
    assert_eq!(keys::MOD_SHIFT, MOD_SHIFT);
    assert_eq!(keys::MOD_WIN, MOD_WIN);
    assert_eq!(keys::MOD_NOREPEAT, MOD_NOREPEAT);
    assert_eq!(keys::VK_SHIFT, u32::from(VK_SHIFT));
    assert_eq!(keys::VK_CONTROL, u32::from(VK_CONTROL));
    assert_eq!(keys::VK_MENU, u32::from(VK_MENU));
    assert_eq!(keys::VK_LWIN, u32::from(VK_LWIN));
    assert_eq!(keys::VK_RWIN, u32::from(VK_RWIN));
    assert_eq!(keys::VK_LSHIFT, u32::from(VK_LSHIFT));
    assert_eq!(keys::VK_RSHIFT, u32::from(VK_RSHIFT));
    assert_eq!(keys::VK_LCONTROL, u32::from(VK_LCONTROL));
    assert_eq!(keys::VK_RCONTROL, u32::from(VK_RCONTROL));
    assert_eq!(keys::VK_LMENU, u32::from(VK_LMENU));
    assert_eq!(keys::VK_RMENU, u32::from(VK_RMENU));
    assert_eq!(keys::WM_KEYDOWN, WM_KEYDOWN);
    assert_eq!(keys::WM_KEYUP, WM_KEYUP);
    assert_eq!(keys::WM_SYSKEYDOWN, WM_SYSKEYDOWN);
    assert_eq!(keys::WM_SYSKEYUP, WM_SYSKEYUP);
    assert_eq!(keys::LLKHF_INJECTED, LLKHF_INJECTED);
    assert_eq!(replay::KEYEVENTF_EXTENDEDKEY, KEYEVENTF_EXTENDEDKEY);
    assert_eq!(replay::KEYEVENTF_KEYUP, KEYEVENTF_KEYUP);
}

#[test]
fn modifiers_are_recognised_in_any_case_and_order() {
    let parsed = parse_trigger(" l + SHIFT + Windows + control + aLt ").expect("should parse");
    assert_eq!(
        parsed.required_modifiers,
        MOD_ALT | MOD_CONTROL | MOD_SHIFT | MOD_WIN
    );
    assert_eq!(parsed.key, u32::from(b'L'));

    let repeated = parse_trigger("Ctrl+Control+5").expect("should parse");
    assert_eq!(repeated.required_modifiers, MOD_CONTROL);
    assert_eq!(repeated.key, u32::from(b'5'));
}

#[test]
fn empty_pieces_of_a_trigger_do_not_count() {
    let parsed = parse_trigger("++Win++ +Tab+").expect("should parse");
    assert_eq!(parsed.required_modifiers, MOD_WIN);
    assert_eq!(parsed.key, 0x09);
}

#[test]
fn triggers_that_name_no_key_are_refused() {
    assert_eq!(parse_trigger(""), Err("empty hotkey trigger".to_string()));
    assert_eq!(
        parse_trigger(" + + "),
        Err("empty hotkey trigger".to_string())
    );
    assert_eq!(
        parse_trigger("Win+Shift"),
        Err("hotkey trigger 'Win+Shift' does not contain a key".to_string())
    );
    assert_eq!(
        parse_trigger("Win+Plus"),
        Err("unsupported hotkey key token 'Plus'".to_string())
    );
    assert_eq!(
        parse_trigger("a+b"),
        Err("hotkey trigger 'a+b' contains more than one non-modifier token".to_string())
    );
}

#[test]
fn named_keys_have_their_codes() {
    for (name, code) in [
        ("Space", 0x20),
        ("tab", 0x09),
        ("ENTER", 0x0d),
        ("esc", 0x1b),
        ("Escape", 0x1b),
        ("backspace", 0x08),
        ("delete", 0x2e),
        ("del", 0x2e),
        ("home", 0x24),
        ("end", 0x23),
        ("pageup", 0x21),
        ("pgup", 0x21),
        ("pagedown", 0x22),
        ("pgdn", 0x22),
        ("left", 0x25),
        ("up", 0x26),
        ("right", 0x27),
        ("down", 0x28),
        ("a", 0x41),
        ("Z", 0x5a),
        ("0", 0x30),
        ("f", 0x46),
        ("f12", 0x7b),
        ("F+7", 0x76),
        ("FF3", 0x72),
        ("f007", 0x76),
    ] {
        assert_eq!(resolve_virtual_key(name), Ok(code), "{name}");
    }
}

#[test]
fn unknown_key_tokens_are_refused() {
    for token in ["F0", "F25", "F99999999999", "FF", "FX", "ß", "", "-", "F-1"] {
        assert_eq!(
            resolve_virtual_key(token),
            Err(format!("unsupported hotkey key token '{token}'"))
        );
    }
}

#[test]
fn only_coexistence_with_the_shell_is_supported() {
    assert!(ensure_bind_control_mode_supported(BindControlMode::Coexistence).is_ok());
    let error = ensure_bind_control_mode_supported(BindControlMode::ManagedShell)
        .expect_err("the mode is not supported");
    assert_eq!(
        error.message(),
        "bind control mode 'managed-shell' is not supported by this build yet; only \
         'coexistence' is available"
    );
    let error = ensure_bind_control_mode_supported(BindControlMode::Other("kiosk".to_string()))
        .expect_err("the mode is not supported");
    assert!(error.message().starts_with("bind control mode 'kiosk' is not supported"));
}

#[test]
fn listener_errors_have_messages() {
    for (error, message) in [
        (HotkeyListenerError::Io("broken".to_string()), "broken"),
        (HotkeyListenerError::Json("bad".to_string()), "bad"),
        (HotkeyListenerError::Startup("late".to_string()), "late"),
        (
            HotkeyListenerError::MissingStdout,
            "hotkey listener missing stdout pipe",
        ),
        (
            HotkeyListenerError::MissingStderr,
            "hotkey listener missing stderr pipe",
        ),
    ] {
        assert_eq!(error.message(), message);
    }
}

#[test]
fn bindings_become_registrations_or_warnings() {
    let plan = collect_registrations(&[
        binding("Win+Ctrl+L", "scroll-strip-right"),
        binding("Win+Ctrl+L+K", "focus-next"),
        binding("Win+X", "no-such-command"),
        binding("Win+H", "focus-prev"),
    ]);
    assert_eq!(
        plan.registrations,
        vec![
            NativeHotkeyRegistration {
                trigger: "Win+Ctrl+L".to_string(),
                command: WatchCommand::ScrollRight,
                register_modifiers: MOD_CONTROL | MOD_WIN | MOD_NOREPEAT,
                required_modifiers: MOD_CONTROL | MOD_WIN,
                key: u32::from(b'L'),
            },
            NativeHotkeyRegistration {
                trigger: "Win+H".to_string(),
                command: WatchCommand::FocusPrev,
                register_modifiers: MOD_WIN | MOD_NOREPEAT,
                required_modifiers: MOD_WIN,
                key: u32::from(b'H'),
            },
        ]
    );
    assert_eq!(
        plan.warnings,
        vec![
            "hotkey warning for Win+Ctrl+L+K (focus-next): hotkey trigger 'Win+Ctrl+L+K' \
             contains more than one non-modifier token"
                .to_string()
        ]
    );
}

#[test]
fn hotkey_command_names_lead_back_to_their_commands() {
    for command in [
        WatchCommand::FocusNext,
        WatchCommand::FocusPrev,
        WatchCommand::ScrollLeft,
        WatchCommand::ScrollRight,
        WatchCommand::ToggleFloating,
        WatchCommand::ToggleTabbed,
        WatchCommand::ToggleMaximized,
        WatchCommand::ToggleFullscreen,
        WatchCommand::ToggleOverview,
        WatchCommand::ReloadConfig,
        WatchCommand::Unwind,
    ] {
        assert_eq!(map_command_name(watch_command_name(command)), Some(command));
    }
    assert_eq!(map_command_name("quit"), None);
    assert_eq!(map_command_name("Focus-Next"), None);
    assert_eq!(watch_command_name(WatchCommand::Quit), "quit");
    assert_eq!(watch_command_name(WatchCommand::Snapshot), "snapshot");
    assert_eq!(watch_command_name(WatchCommand::Rescan), "rescan");
}

#[test]
fn registrations_that_the_system_refused_go_to_the_hook() {
    let plan = collect_registrations(&[
        binding("Win+1", "focus-next"),
        binding("Win+2", "focus-prev"),
        binding("Win+3", "toggle-tabbed"),
    ]);
    let split = partition_registrations(plan.registrations, &vec![true, false, true]);
    assert_eq!(
        split.command_by_id,
        vec![(1, WatchCommand::FocusNext), (3, WatchCommand::ToggleTabbed)]
    );
    assert_eq!(split.fallback.len(), 1);
    assert_eq!(split.fallback[0].trigger, "Win+2");
    assert_eq!(
        command_for_hotkey_id(&split.command_by_id, 3),
        Some(WatchCommand::ToggleTabbed)
    );
    assert_eq!(command_for_hotkey_id(&split.command_by_id, 2), None);
    assert_eq!(hotkey_id(0), 1);
    assert_eq!(hotkey_id(usize::MAX), i32::MAX);
}

#[test]
fn a_listener_without_hotkeys_is_an_error() {
    assert_eq!(active_registration_count(2, 3, true), Ok(5));
    assert_eq!(active_registration_count(2, 3, false), Ok(2));
    assert_eq!(active_registration_count(0, 3, true), Ok(3));
    for (fallback, installed) in [(3, false), (0, true), (0, false)] {
        assert_eq!(
            active_registration_count(0, fallback, installed),
            Err("no hotkeys could be activated".to_string())
        );
    }
}

#[test]
fn the_script_is_handed_bindings_of_known_commands() {
    let bindings = [
        binding("Win+1", "focus-next"),
        binding("Win+2", "open-terminal"),
        binding("not a trigger", "reload-config"),
    ];
    assert_eq!(
        script_registrations(&bindings),
        vec![bindings[0].clone(), bindings[2].clone()]
    );
}

#[test]
fn script_events_are_sent_or_reported() {
    let event = |kind: &str, command: Option<&str>| HotkeyScriptEvent {
        kind: kind.to_string(),
        trigger: None,
        command: command.map(str::to_string),
        message: None,
    };
    assert_eq!(
        script_event_action(&event("command", Some("focus-next"))),
        ScriptEventAction::Send(WatchCommand::FocusNext)
    );
    assert_eq!(
        script_event_action(&event("command", None)),
        ScriptEventAction::Report(
            "hotkey listener emitted command event without command".to_string()
        )
    );
    assert_eq!(
        script_event_action(&event("command", Some("dance"))),
        ScriptEventAction::Report(
            "hotkey listener emitted unsupported command 'dance'".to_string()
        )
    );
    assert_eq!(
        script_event_action(&event("warning", None)),
        ScriptEventAction::Report("hotkey warning for ? (?): unknown hotkey warning".to_string())
    );
    assert_eq!(
        script_event_action(&event("noise", Some("focus-next"))),
        ScriptEventAction::Report(
            "hotkey listener emitted unsupported event kind 'noise'".to_string()
        )
    );
}

#[test]
fn lines_of_the_script_are_sorted() {
    assert_eq!(script_line(Ok(" \t ".to_string())), ScriptStep::ReadOn);
    assert_eq!(script_line(Ok(String::new())), ScriptStep::ReadOn);
    assert_eq!(
        script_line(Ok("  {\"kind\": 1} \r".to_string())),
        ScriptStep::Parse("{\"kind\": 1}".to_string())
    );
    assert_eq!(
        script_line(Err("closed".to_string())),
        ScriptStep::Stop(Some(
            "failed to read hotkey listener stdout: closed".to_string()
        ))
    );
    assert_eq!(
        script_error_line(Ok("  ".to_string())),
        ScriptStep::ReadOn
    );
    assert_eq!(
        script_error_line(Ok(" oops ".to_string())),
        ScriptStep::Report("hotkey listener: oops".to_string())
    );
    assert_eq!(
        script_error_line(Err("closed".to_string())),
        ScriptStep::Stop(Some(
            "failed to read hotkey listener stderr: closed".to_string()
        ))
    );
}

#[test]
fn events_of_the_script_are_sent_or_reported() {
    let event = |kind: &str, command: Option<&str>| HotkeyScriptEvent {
        kind: kind.to_string(),
        command: command.map(str::to_string),
        trigger: None,
        message: None,
    };
    assert_eq!(
        script_event(Ok(event("command", Some("toggle-overview")))),
        ScriptStep::Send(WatchCommand::ToggleOverview)
    );
    assert_eq!(
        script_event(Ok(event("command", Some("dance")))),
        ScriptStep::Report("hotkey listener emitted unsupported command 'dance'".to_string())
    );
    assert_eq!(
        script_event(Err("expected value".to_string())),
        ScriptStep::Stop(Some(
            "hotkey listener returned invalid json: expected value".to_string()
        ))
    );
    assert_eq!(script_command_sent(true), ScriptStep::ReadOn);
    assert_eq!(script_command_sent(false), ScriptStep::Stop(None));
}

#[test]
fn a_script_needs_hotkeys_and_both_outputs() {
    let binding = |command: &str| HotkeyBinding {
        trigger: "Win+L".to_string(),
        command: command.to_string(),
    };
    assert_eq!(plan_script_listener(&[]), None);
    assert_eq!(plan_script_listener(&[binding("dance")]), None);
    assert_eq!(
        plan_script_listener(&[binding("dance"), binding("focus-next")]),
        Some(vec![binding("focus-next")])
    );
    assert!(script_outputs(true, true).is_ok());
    assert!(matches!(
        script_outputs(false, true),
        Err(HotkeyListenerError::MissingStdout)
    ));
    assert!(matches!(
        script_outputs(false, false),
        Err(HotkeyListenerError::MissingStdout)
    ));
    assert!(matches!(
        script_outputs(true, false),
        Err(HotkeyListenerError::MissingStderr)
    ));
}

#[test]
fn a_chord_is_played_back_in_mirrored_order() {
    let chord = ReplayAction::ReplayWinChord {
        win_vk: keys::VK_LWIN,
        modifier_vks: vec![keys::VK_LSHIFT, keys::VK_LCONTROL],
        key_vk: 0x44,
    };
    let ReplayPlan::Strokes(strokes) = replay_action(&chord) else {
        panic!("a chord consists of strokes");
    };
    let order: Vec<(u32, bool)> = strokes.iter().map(|s| (s.vk, s.key_up)).collect();
    assert_eq!(
        order,
        vec![
            (keys::VK_LWIN, false),
            (keys::VK_LSHIFT, false),
            (keys::VK_LCONTROL, false),
            (0x44, false),
            (0x44, true),
            (keys::VK_LCONTROL, true),
            (keys::VK_LSHIFT, true),
            (keys::VK_LWIN, true),
        ]
    );
    assert_eq!(strokes[0].flags(), KEYEVENTF_EXTENDEDKEY);
    assert_eq!(strokes[1].flags(), 0);
    assert_eq!(strokes[6].flags(), KEYEVENTF_KEYUP);
    assert_eq!(strokes[7].flags(), KEYEVENTF_EXTENDEDKEY | KEYEVENTF_KEYUP);

    let ReplayPlan::Strokes(tap) = replay_action(&ReplayAction::WinTap {
        win_vk: keys::VK_RWIN,
    }) else {
        panic!("a tap consists of strokes");
    };
    assert_eq!(tap.len(), 2);
    assert!(!tap[0].key_up && tap[1].key_up);
    assert!(matches!(
        replay_action(&ReplayAction::LockWorkstation),
        ReplayPlan::LockWorkstation
    ));
}

#[test]
fn only_shift_keys_before_s_open_the_screenshot_overlay() {
    assert!(is_shell_screenshot_overlay_chord(
        &[keys::VK_LSHIFT, keys::VK_RSHIFT],
        0x53
    ));
    assert!(!is_shell_screenshot_overlay_chord(&[], 0x53));
    assert!(!is_shell_screenshot_overlay_chord(
        &[keys::VK_LSHIFT, keys::VK_LMENU],
        0x53
    ));
}

#[test]
fn the_repeating_thread_waits_sends_and_stops() {
    assert_eq!(
        repeat_loop_step(RepeatLoopEvent::Started),
        RepeatLoopStep::WaitForStop { millis: 180 }
    );
    assert_eq!(
        repeat_loop_step(RepeatLoopEvent::WaitElapsed),
        RepeatLoopStep::SendCommand
    );
    assert_eq!(
        repeat_loop_step(RepeatLoopEvent::CommandSent),
        RepeatLoopStep::WaitForStop { millis: 45 }
    );
    assert_eq!(
        repeat_loop_step(RepeatLoopEvent::StopRequested),
        RepeatLoopStep::Exit
    );
    assert_eq!(
        repeat_loop_step(RepeatLoopEvent::ReceiverGone),
        RepeatLoopStep::Exit
    );
}

#[test]
fn the_repeating_thread_follows_the_held_command() {
    let left = Some(WatchCommand::ScrollLeft);
    let right = Some(WatchCommand::ScrollRight);
    assert_eq!(sync_repeat_loop(None, None), RepeatLoopChange::Keep);
    assert_eq!(sync_repeat_loop(left, left), RepeatLoopChange::Keep);
    assert_eq!(sync_repeat_loop(left, None), RepeatLoopChange::Stop);
    assert_eq!(
        sync_repeat_loop(None, right),
        RepeatLoopChange::Start(WatchCommand::ScrollRight)
    );
    assert_eq!(
        sync_repeat_loop(left, right),
        RepeatLoopChange::Restart(WatchCommand::ScrollRight)
    );
}

#[test]
fn hook_runtimes_are_found_by_their_thread() {
    let mut registry = LowLevelRuntimeRegistry::new();
    assert_eq!(registry.lookup_low_level_runtime(1), None);
    registry.register_low_level_runtime(1, 10);
    assert_eq!(registry.lookup_low_level_runtime(1), Some(10));
    assert_eq!(registry.lookup_low_level_runtime(9), Some(10));
    registry.register_low_level_runtime(2, 20);
    assert_eq!(registry.lookup_low_level_runtime(2), Some(20));
    assert_eq!(registry.lookup_low_level_runtime(9), None);
    registry.register_low_level_runtime(1, 11);
    assert_eq!(registry.lookup_low_level_runtime(1), Some(11));
    registry.unregister_low_level_runtime(1);
    assert_eq!(registry.lookup_low_level_runtime(1), Some(20));
    registry.unregister_low_level_runtime(2);
    assert_eq!(registry.lookup_low_level_runtime(2), None);
}

#[test]
fn the_hook_looks_at_keyboard_messages_only() {
    assert!(hook_event_is_inspected(0, 1, WM_KEYDOWN));
    assert!(hook_event_is_inspected(0, 1, WM_SYSKEYUP));
    assert!(!hook_event_is_inspected(-1, 1, WM_KEYDOWN));
    assert!(!hook_event_is_inspected(0, 0, WM_KEYDOWN));
    assert!(!hook_event_is_inspected(0, 1, 0x200));
    assert!(hook_event_is_injected(LLKHF_INJECTED | 1));
    assert!(!hook_event_is_injected(1));
}
