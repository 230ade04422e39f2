//! What is done to other windows, the terminal, the log and the process.

use flowtile_core_daemon::diag::log_line;
use flowtile_core_daemon::overview_surface::shell::normalized_process_name;
use flowtile_core_daemon::process::{self, ensure_process_dpi_awareness};
use flowtile_core_daemon::terminal::{open_default_terminal, DEFAULT_TERMINAL_SHORTCUT_PATH};
use flowtile_core_daemon::window_actions::{
    activate_window, activation_calls, close_wallpaper_selector_window, close_window,
    detach_order, is_wallpaper_selector_window, normalize_hwnd, plan_thread_pairs, show_command,
    ActivationCall,
};
use windows_sys::Win32::Foundation::ERROR_ACCESS_DENIED;
use windows_sys::Win32::UI::WindowsAndMessaging::{SW_RESTORE, SW_SHOW};

#[test]
fn uses_explicit_powershell_shortcut_target() {
    assert_eq!(
        DEFAULT_TERMINAL_SHORTCUT_PATH,
        r"C:\Users\mayo\AppData\Roaming\Microsoft\Windows\Start Menu\Programs\PowerShell.lnk"
    );
}

#[test]
fn rejects_zero_hwnd() {
    let error = normalize_hwnd(0).expect_err("zero hwnd should be rejected");
    assert_eq!(error, "focused window has no valid HWND binding");
}

#[test]
fn normalizes_process_name_without_exe_suffix() {
    assert_eq!(
        normalized_process_name(Some("FlowShellWallpaper.UI.exe")).as_deref(),
        Some("flowshellwallpaper.ui")
    );
}

#[test]
fn matches_wallpaper_selector_by_process_or_title() {
    assert!(is_wallpaper_selector_window(
        Some("FlowShellWallpaper.UI.exe"),
        "Other title"
    ));
    assert!(is_wallpaper_selector_window(None, "FlowShellWallpaper.UI"));
    assert!(!is_wallpaper_selector_window(
        Some("notepad.exe"),
        "Notepad"
    ));
}

#[test]
fn handles_are_read_as_signed_numbers() {
    assert_eq!(normalize_hwnd(0x1234), Ok(0x1234));
    assert_eq!(normalize_hwnd(u64::MAX), Ok(-1));
    assert_eq!(normalize_hwnd(1 << 63), Ok(i64::MIN));
}

#[test]
fn closing_a_window_can_fail_in_three_ways() {
    assert_eq!(close_window(7, true, true, 0), Ok(()));
    assert_eq!(
        close_window(0, true, true, 0),
        Err("focused window has no valid HWND binding".to_string())
    );
    assert_eq!(
        close_window(7, false, true, 0),
        Err("focused window hwnd 7 is no longer valid".to_string())
    );
    assert_eq!(
        close_window(7, true, false, 1400),
        Err("PostMessageW(WM_CLOSE) failed with Win32 error 1400".to_string())
    );
}

#[test]
fn a_selector_that_is_not_there_is_not_closed() {
    assert_eq!(close_wallpaper_selector_window(None), Ok(false));
    assert_eq!(close_wallpaper_selector_window(Some(Ok(()))), Ok(true));
    assert_eq!(
        close_wallpaper_selector_window(Some(Err("gone".to_string()))),
        Err("gone".to_string())
    );
}

#[test]
fn activation_reports_what_went_wrong() {
    assert_eq!(activate_window(9, true, true), Ok(()));
    assert_eq!(
        activate_window(0, true, true),
        Err("focused window has no valid HWND binding".to_string())
    );
    assert_eq!(
        activate_window(9, false, false),
        Err("target window hwnd 9 is no longer valid".to_string())
    );
    assert_eq!(
        activate_window(9, true, false),
        Err("platform activation path failed to foreground hwnd 9".to_string())
    );
    assert_eq!(show_command(true), SW_RESTORE);
    assert_eq!(show_command(false), SW_SHOW);
}

#[test]
fn threads_are_joined_in_pairs_and_parted_in_reverse() {
    let pairs = plan_thread_pairs(1, 2, 3);
    assert_eq!(pairs, vec![(1, 2), (1, 3), (2, 3)]);
    assert_eq!(detach_order(&pairs), vec![(2, 3), (1, 3), (1, 2)]);
    assert_eq!(plan_thread_pairs(1, 1, 3), vec![(1, 3), (1, 3)]);
    assert_eq!(plan_thread_pairs(1, 2, 0), vec![(1, 2)]);
    assert_eq!(plan_thread_pairs(0, 0, 0), vec![]);
}

#[test]
fn process_names_are_lowered_and_trimmed() {
    assert_eq!(
        normalized_process_name(Some("  Explorer.EXE ")).as_deref(),
        Some("explorer")
    );
    assert_eq!(normalized_process_name(Some(".exe")).as_deref(), Some(""));
    assert_eq!(
        normalized_process_name(Some("tool.exe.exe")).as_deref(),
        Some("tool.exe")
    );
    assert_eq!(normalized_process_name(Some(" \t")), None);
    assert_eq!(normalized_process_name(None), None);
}

#[test]
fn the_terminal_reports_a_missing_shortcut_and_shell_errors() {
    assert_eq!(open_default_terminal(true, 33), Ok(()));
    assert_eq!(
        open_default_terminal(false, 42),
        Err(format!(
            "failed to open terminal shortcut {DEFAULT_TERMINAL_SHORTCUT_PATH}: shortcut path \
             does not exist"
        ))
    );
    for code in [32, 0, -5] {
        assert_eq!(
            open_default_terminal(true, code),
            Err(format!(
                "failed to open terminal shortcut {DEFAULT_TERMINAL_SHORTCUT_PATH}: \
                 ShellExecuteW failed with shell code {code}"
            ))
        );
    }
}

#[test]
fn log_lines_begin_with_their_time() {
    assert_eq!(log_line(1234, "watch: start"), "[1234] watch: start\n");
    assert_eq!(log_line(0, ""), "[0] \n");
}

#[test]
fn the_process_may_be_aware_already() {
    assert_eq!(process::ERROR_ACCESS_DENIED, ERROR_ACCESS_DENIED);
    assert_eq!(ensure_process_dpi_awareness(true, 87), Ok(()));
    assert_eq!(
        ensure_process_dpi_awareness(false, ERROR_ACCESS_DENIED),
        Ok(())
    );
    assert_eq!(
        ensure_process_dpi_awareness(false, 87),
        Err("SetProcessDpiAwarenessContext failed with Win32 error 87".to_string())
    );
}

#[test]
fn a_window_is_raised_twice() {
    assert_eq!(
        activation_calls(true),
        vec![
            ActivationCall::Show {
                command: SW_RESTORE
            },
            ActivationCall::BringToTop,
            ActivationCall::SetActive,
            ActivationCall::SetFocus,
            ActivationCall::SetForeground,
            ActivationCall::BringToTop,
            ActivationCall::SetForeground,
        ]
    );
    assert_eq!(
        activation_calls(false)[0],
        ActivationCall::Show { command: SW_SHOW }
    );
}
