//! Values that are exchanged with the system, and texts.

use flowtile_core_daemon::control::WatchCommand;
use flowtile_core_daemon::geometry::Rect;
use flowtile_core_daemon::text::{
    chars_of, contains_text, decimal_text, is_white_space, lower_chars, signed_decimal_text,
    text_of, trim_chars,
};
use flowtile_core_daemon::win32::{
    class_registration_result, format_rect, hresult_check, hresult_message, hwnd_from_raw,
    last_error_message, point_from_lparam, rect_from_win32, rect_to_win32, rgb_color, widestring,
    Win32Rect,
};
use flowtile_core_daemon::wm_state::{
    FocusState, OverviewState, RuntimeMode, WindowLayer, WindowNode, WmState,
};
use flowtile_core_daemon::ids::{WindowId, WorkspaceId};
use windows_sys::Win32::Foundation::ERROR_CLASS_ALREADY_EXISTS;

#[test]
fn wide_strings_agree_with_the_standard_library() {
    for text in ["", "Flowtile", "Ножницы", "a\u{1f600}b", "\u{ffff}\u{10000}\u{10ffff}"] {
        let expected: Vec<u16> = text.encode_utf16().chain(std::iter::once(0)).collect();
        assert_eq!(widestring(text), expected);
    }
}

#[test]
fn numbers_are_written_as_the_standard_library_writes_them() {
    for n in [0_u64, 9, 10, 42, 1_000_000, u64::MAX] {
        assert_eq!(decimal_text(n), n.to_string());
    }
    for n in [0_i64, -1, 17, i64::MIN, i64::MAX] {
        assert_eq!(signed_decimal_text(n), n.to_string());
    }
    for code in [0_i32, 15, 16, -1, i32::MIN, -2_147_024_809] {
        assert_eq!(
            hresult_message("DwmFlush", code),
            format!("DwmFlush failed with HRESULT 0x{code:x}")
        );
        assert_eq!(hresult_check("DwmFlush", code).is_ok(), code >= 0);
    }
    assert_eq!(
        last_error_message("SetWindowPos", 5),
        "SetWindowPos failed with Win32 error 5"
    );
}

#[test]
fn texts_are_trimmed_as_the_standard_library_trims_them() {
    for code in 0..=0x3100_u32 {
        if let Some(c) = char::from_u32(code) {
            assert_eq!(is_white_space(c), c.is_whitespace(), "{code:x}");
        }
    }
    for text in ["", "  ", " a b ", "\u{3000}x\u{85}", "\t\nFOO\r\n"] {
        let chars = chars_of(text);
        assert_eq!(text_of(&trim_chars(&chars)), text.trim());
        assert_eq!(text_of(&lower_chars(&chars)), text.to_ascii_lowercase());
    }
    assert!(contains_text("Screen snipping", "snip"));
    assert!(contains_text("abc", ""));
    assert!(!contains_text("ab", "abc"));
}

#[test]
fn mouse_messages_carry_signed_words() {
    for (x, y) in [(0_i16, 0_i16), (5, 7), (-1, -2), (i16::MIN, i16::MAX)] {
        let lparam = i64::from((u32::from(y as u16) << 16) | u32::from(x as u16));
        assert_eq!(point_from_lparam(lparam), (i32::from(x), i32::from(y)));
    }
    assert_eq!(point_from_lparam(-1), (-1, -1));
}

#[test]
fn edges_give_the_rectangle_back() {
    let rect = Rect::new(-5, 10, 100, 200);
    let edges = rect_to_win32(rect, "label").expect("the edges fit");
    assert_eq!(
        edges,
        Win32Rect {
            left: -5,
            top: 10,
            right: 95,
            bottom: 210,
        }
    );
    assert_eq!(rect_from_win32(edges), rect);
    assert_eq!(
        rect_from_win32(rect_to_win32(Rect::new(1, 2, 0, 0), "label").expect("the edges fit")),
        Rect::new(1, 2, 1, 1)
    );
    assert_eq!(
        rect_from_win32(Win32Rect {
            left: 5,
            top: 5,
            right: 1,
            bottom: 9,
        }),
        Rect::new(5, 5, 0, 4)
    );
    for (rect, error) in [
        (
            Rect::new(0, 0, u32::MAX, 1),
            "label width exceeds Win32 limits",
        ),
        (
            Rect::new(0, 0, 1, u32::MAX),
            "label height exceeds Win32 limits",
        ),
        (Rect::new(i32::MAX, 0, 1, 1), "label right edge overflowed"),
        (Rect::new(0, i32::MAX, 1, 1), "label bottom edge overflowed"),
    ] {
        assert_eq!(rect_to_win32(rect, "label"), Err(error.to_string()));
    }
    assert_eq!(format_rect(rect), "(-5,10 100x200)");
}

#[test]
fn handles_and_colours() {
    assert_eq!(hwnd_from_raw(7), Some(7));
    assert_eq!(hwnd_from_raw(u64::MAX), None);
    assert_eq!(rgb_color(0x4c, 0xa8, 0xff), 0x00ff_a84c);
    assert_eq!(
        flowtile_core_daemon::win32::ERROR_CLASS_ALREADY_EXISTS,
        ERROR_CLASS_ALREADY_EXISTS
    );
    assert_eq!(class_registration_result(0, 1410), Ok(()));
    assert_eq!(class_registration_result(3, 8), Ok(()));
    assert_eq!(
        class_registration_result(0, 8),
        Err("RegisterClassW failed with Win32 error 8".to_string())
    );
}

#[test]
fn command_names() {
    assert_eq!(
        WatchCommand::Unwind.as_hotkey_command_name(),
        "disable-management-and-unwind"
    );
    assert_eq!(WatchCommand::Unwind.as_console_name(), "unwind");
    assert_eq!(WatchCommand::Unwind.as_ipc_command_name(), None);
    assert_eq!(
        WatchCommand::ScrollLeft.as_ipc_command_name(),
        Some("scroll_strip_left")
    );
    assert_eq!(
        WatchCommand::from_input_command("scroll-strip-right"),
        Some(WatchCommand::ScrollRight)
    );
    assert_eq!(WatchCommand::from_input_command("quit"), None);
    assert_eq!(
        WatchCommand::from_stdin_alias("quit"),
        Some(WatchCommand::Quit)
    );
    assert!(WatchCommand::ScrollLeft.repeats_while_held());
    assert!(!WatchCommand::FocusNext.repeats_while_held());
}

#[test]
fn listed_objects_are_found_by_their_identifiers() {
    let window = |raw: u64| WindowNode {
        id: WindowId::new(raw),
        current_hwnd_binding: Some(raw + 100),
        layer: WindowLayer::Tiled,
        workspace_id: WorkspaceId::new(1),
        column_id: None,
        is_managed: true,
        is_floating: false,
        is_fullscreen: false,
    };
    let state = WmState {
        state_version: 1,
        boot_mode: RuntimeMode::WmOnly,
        overview: OverviewState {
            is_open: false,
            monitor_id: None,
            selection: None,
        },
        focus: FocusState {
            focused_window_id: None,
            focused_monitor_id: None,
        },
        monitors: Vec::new(),
        workspace_sets: Vec::new(),
        workspaces: Vec::new(),
        columns: Vec::new(),
        windows: vec![window(1), window(2), window(3)],
        config_version: 1,
        active_rule_count: 0,
    };
    for listed in &state.windows {
        assert_eq!(state.find_window(listed.id), Some(*listed));
    }
    assert_eq!(state.find_window(WindowId::new(9)), None);
}
