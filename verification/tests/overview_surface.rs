//! The windows of the overview: where they stand, what they show and what a pointer does on
//! them.

use std::collections::HashSet;

use flowtile_core_daemon::control::ControlMessage;
use flowtile_core_daemon::geometry::Rect;
use flowtile_core_daemon::ids::WorkspaceId;
use flowtile_core_daemon::overview_engine::frame::{
    OverviewRenderFrame, SceneFrameMode, WindowRenderFrame, WorkspaceRenderFrame,
};
use flowtile_core_daemon::overview_engine::scene::OverviewScene;
use flowtile_core_daemon::overview_engine::targets::{
    hit_test_workspace_drop_targets, ordered_frame_workspaces, preview_target_at_point,
    workspace_drop_targets_for_frame, PreviewClickTarget, WorkspaceDropTarget,
};
use flowtile_core_daemon::overview_surface::backdrop::{
    backdrop_color, paint_backdrop_viewport_column, plan_alpha_rect, preview_background_color,
    snapshot_extent, AlphaPaint, BackdropWindowState,
};
use flowtile_core_daemon::overview_surface::card::{
    fill_is_visible, inset_win32_rect, paint_preview_rect, paint_preview_window_card,
    preview_window_header_rect, win32_rect_height, win32_rect_width, BORDER_COLOR, CONTENT_COLOR, CONTENT_SECONDARY_COLOR,
    CONTROL_COLOR, FILL_COLOR, HEADER_COLOR,
};
use flowtile_core_daemon::overview_surface::placement::{
    finish_position, hide_overlay_window, position_window, position_window_with_order,
    resolve_z_order_target, show_overlay_window, OverlayWindowPlacement, PositionCall,
};
use flowtile_core_daemon::overview_surface::preview::{
    build_preview_window_region, click_request, dispatch_overview_activate_window,
    dispatch_overview_dismiss, dispatch_overview_move_column, finish_preview_workspace_frame,
    host_insert_after, plan_overview_frame, plan_preview_window_region, plan_workspace_surface,
    render_preview_workspace_frame, stale_workspace_ids, CaptureAction, PointerMessage,
    PreviewPointerOutcome, PreviewWindowState, WorkspaceSurfacePlan,
};
use flowtile_core_daemon::overview_surface::settings::{
    overview_env_flag, overview_thumbnail_client_only_enabled,
    overview_thumbnail_diagnostics_enabled,
};
use flowtile_core_daemon::overview_surface::shell::{
    foreground_screenshot_ui, is_shell_screenshot_overlay, is_shell_screenshot_process,
    ShellOverlayEscapeState, ShellScreenshotWindows, SHELL_OVERLAY_PREPARE_TIMEOUT_MS,
};
use flowtile_core_daemon::overview_surface::steps::{SurfaceStep, SurfaceWindow};
use flowtile_core_daemon::overview_surface::sync::{
    desired_hwnds, job_projection, plan_scene_thumbnails, plan_workspace_thumbnails,
    thumbnail_diagnostic, SceneVisibility, ShowStep, ThumbnailCache, ThumbnailJob, WindowSyncStep,
};
use flowtile_core_daemon::overview_surface::thumbnail::{
    FullWindowPreviewGeometry, ThumbnailProjection,
};
use flowtile_core_daemon::overview_surface::worker::{
    animation_finished, animation_mode, OverviewSessionState, ShowMotion,
};
use flowtile_core_daemon::win32::{self, Win32Rect};
use windows_sys::Win32::UI::WindowsAndMessaging::{
    HWND_NOTOPMOST, HWND_TOPMOST, SWP_NOACTIVATE, SWP_NOZORDER, SWP_SHOWWINDOW,
};

fn edges(left: i32, top: i32, right: i32, bottom: i32) -> Win32Rect {
    Win32Rect {
        left,
        top,
        right,
        bottom,
    }
}

fn workspace(id: u64, y: i32, windows: &[(u64, Rect)]) -> WorkspaceRenderFrame {
    WorkspaceRenderFrame {
        workspace_id: WorkspaceId::new(id),
        canvas_rect: Rect::new(0, y, 1600, 320),
        viewport_rect: Rect::new(512, y, 576, 320),
        windows: windows
            .iter()
            .map(|(hwnd, rect)| WindowRenderFrame {
                hwnd: *hwnd,
                rect: *rect,
            })
            .collect(),
    }
}

fn frame(workspaces: Vec<WorkspaceRenderFrame>) -> OverviewRenderFrame {
    OverviewRenderFrame {
        monitor_rect: Rect::new(0, 0, 1600, 900),
        workspaces,
    }
}

fn scene(y: i32) -> OverviewScene {
    OverviewScene {
        monitor_rect: Rect::new(0, y, 1600, 900),
        workspaces: Vec::new(),
    }
}

#[test]
fn window_position_constants_are_those_of_the_system() {
    assert_eq!(win32::SWP_NOZORDER, SWP_NOZORDER);
    assert_eq!(win32::SWP_NOACTIVATE, SWP_NOACTIVATE);
    assert_eq!(win32::SWP_SHOWWINDOW, SWP_SHOWWINDOW);
    assert_eq!(win32::HWND_TOPMOST, HWND_TOPMOST as isize);
    assert_eq!(win32::HWND_NOTOPMOST, HWND_NOTOPMOST as isize);
}

#[test]
fn positioning_settles() {
    let rect = Rect::new(10, 20, 300, 0);
    let mut placement = OverlayWindowPlacement::default();
    let call = position_window(rect, true, &placement)
        .expect("the extent fits")
        .expect("the window is elsewhere");
    assert_eq!(
        call,
        PositionCall {
            insert_after: HWND_TOPMOST as isize,
            x: 10,
            y: 20,
            width: 300,
            height: 1,
            flags: SWP_NOACTIVATE | SWP_SHOWWINDOW,
        }
    );
    assert_eq!(
        finish_position(rect, true, true, None, &mut placement, false, 5),
        Err("SetWindowPos failed with Win32 error 5".to_string())
    );
    assert_eq!(placement, OverlayWindowPlacement::default());
    assert_eq!(
        finish_position(rect, true, true, None, &mut placement, true, 0),
        Ok(())
    );
    assert_eq!(position_window(rect, true, &placement), Ok(None));
    assert!(hide_overlay_window(&mut placement));
    assert!(!hide_overlay_window(&mut placement));
    let again = position_window(rect, true, &placement)
        .expect("the extent fits")
        .expect("the window is hidden");
    assert_eq!(
        again.flags,
        SWP_NOACTIVATE | SWP_SHOWWINDOW | SWP_NOZORDER
    );
}

#[test]
fn windows_leave_and_join_the_topmost_ones() {
    let topmost = OverlayWindowPlacement {
        rect: None,
        visible: true,
        topmost: true,
        child_insert_after: None,
    };
    let mut flags = SWP_NOACTIVATE;
    assert_eq!(
        resolve_z_order_target(None, false, &topmost, &mut flags),
        HWND_NOTOPMOST as isize
    );
    assert_eq!(flags, SWP_NOACTIVATE);
    assert_eq!(resolve_z_order_target(None, true, &topmost, &mut flags), 0);
    assert_eq!(flags, SWP_NOACTIVATE | SWP_NOZORDER);
    let mut flags = SWP_NOACTIVATE;
    assert_eq!(
        resolve_z_order_target(Some(7), false, &topmost, &mut flags),
        0
    );
    assert_eq!(flags, SWP_NOACTIVATE);
}

#[test]
fn extents_that_are_too_large_are_refused() {
    let placement = OverlayWindowPlacement::default();
    assert_eq!(
        position_window_with_order(Rect::new(0, 0, u32::MAX, 1), true, true, None, &placement),
        Err("overview width overflowed".to_string())
    );
    assert_eq!(
        position_window_with_order(Rect::new(0, 0, 1, u32::MAX), true, true, None, &placement),
        Err("overview height overflowed".to_string())
    );
    assert_eq!(snapshot_extent(Rect::new(0, 0, 0, 7)), Ok((1, 7)));
    assert_eq!(
        snapshot_extent(Rect::new(0, 0, u32::MAX, u32::MAX)),
        Err("shell snapshot width overflowed".to_string())
    );
    assert_eq!(
        snapshot_extent(Rect::new(0, 0, 5, u32::MAX)),
        Err("shell snapshot height overflowed".to_string())
    );
}

#[test]
fn a_shown_scene_stays_until_another_is_shown() {
    let mut session = OverviewSessionState::default();
    assert_eq!(session.plan_show(&scene(0)).motion, ShowMotion::Open);
    session.record_scene(scene(0));
    assert_eq!(session.plan_show(&scene(0)).motion, ShowMotion::Stay);
    assert_eq!(session.plan_show(&scene(1)).motion, ShowMotion::Transition);
    assert!(!session.plan_show(&scene(1)).freeze);
    assert!(session.scene_matches(&scene(0)));
    assert_eq!(session.begin_hide(), Some(scene(0)));
    assert_eq!(session.begin_hide(), None);
}

#[test]
fn a_frozen_scene_waits_for_the_screenshot_tools() {
    let mut session = OverviewSessionState::default();
    session.record_scene(scene(0));
    assert!(!session.shell_escape_active());
    session.begin_shell_escape(1000, ShellScreenshotWindows::default());
    assert!(session.shell_escape_active() && session.watches_shell_windows());
    assert!(session.plan_show(&scene(0)).freeze);
    let busy = ShellScreenshotWindows {
        overlay_present: true,
        ..ShellScreenshotWindows::default()
    };
    let quiet = ShellScreenshotWindows::default();
    assert!(!session.should_restore_shell_escape(&busy, 1100));
    assert!(!session.should_restore_shell_escape(&quiet, 1200));
    assert!(!session.should_restore_shell_escape(&quiet, 1279));
    assert!(session.should_restore_shell_escape(&quiet, 1280));
    session.clear_shell_escape();
    assert!(!session.should_restore_shell_escape(&quiet, 9999));
    session.begin_shell_escape(0, quiet);
    assert_eq!(session.take_scene(), Some(scene(0)));
    assert!(!session.watches_shell_windows());
    assert!(!session.should_restore_shell_escape(&ShellScreenshotWindows::default(), u64::MAX));
}

#[test]
fn animations_end() {
    assert_eq!(
        animation_mode(true, 250),
        SceneFrameMode::Opening {
            progress_milli: 250
        }
    );
    assert_eq!(
        animation_mode(false, 250),
        SceneFrameMode::Closing {
            progress_milli: 250
        }
    );
    assert!(animation_finished(true, 0));
    assert!(!animation_finished(false, 319));
    assert!(animation_finished(false, 320));
    assert_eq!(SHELL_OVERLAY_PREPARE_TIMEOUT_MS, 180);
}

#[test]
fn titles_of_capture_windows_are_recognised_in_any_case() {
    assert!(is_shell_screenshot_overlay(
        "any",
        "НОЖНИЦЫ и бумага",
        None
    ));
    assert!(is_shell_screenshot_overlay("any", "Screen SNIP", None));
    assert!(!is_shell_screenshot_overlay("any", "Clip art", None));
    assert!(is_shell_screenshot_overlay(
        "APPLICATIONFRAMEWINDOW",
        "Clip art",
        Some(" SnippingTool ")
    ));
    assert!(!is_shell_screenshot_overlay(
        "Chrome_WidgetWin_1",
        "Clip art",
        Some("SnippingTool.exe")
    ));
    assert!(is_shell_screenshot_process(Some("ScreenClippingHost.exe")));
    assert!(!is_shell_screenshot_process(None));
}

#[test]
fn screenshot_windows_are_collected() {
    let mut windows = ShellScreenshotWindows::default();
    windows.record_window(1, "Notepad", "Notes", Some("notepad.exe"));
    assert!(!windows.overlay_present && windows.result_window_hwnds.is_empty());
    windows.record_window(2, "XamlWindow", "Untitled", Some("SnippingTool.exe"));
    assert_eq!(windows.result_window_hwnds, HashSet::from([2]));
    windows.record_window(3, "XamlWindow", "Screen clip", Some("other"));
    assert!(windows.overlay_present);
    assert_eq!(
        foreground_screenshot_ui(9, "XamlWindow", "Untitled", Some("SnippingTool.exe")),
        Some(9)
    );
    assert_eq!(
        foreground_screenshot_ui(9, "Notepad", "Notes", Some("notepad")),
        None
    );
}

#[test]
fn an_escape_without_a_baseline_waits_for_ever() {
    let mut escape = ShellOverlayEscapeState::new(0, HashSet::new(), None);
    assert!(!escape.should_restore(&ShellScreenshotWindows::default(), u64::MAX));
    let mut known = ShellOverlayEscapeState::new(0, HashSet::from([5]), None);
    let windows = ShellScreenshotWindows {
        result_window_hwnds: HashSet::from([5]),
        ..ShellScreenshotWindows::default()
    };
    assert!(!known.should_restore(&windows, 1999));
    assert!(known.should_restore(&windows, 2000));
}

#[test]
fn the_backdrop_paints_a_snapshot_and_a_column() {
    let mut backdrop = BackdropWindowState::new();
    assert_eq!(backdrop.paint_backdrop(), (false, None));
    assert_eq!(backdrop.set_backdrop_snapshot(7), 0);
    assert_eq!(backdrop.set_backdrop_snapshot(8), 7);
    let column = Some(Rect::new(5, 6, 70, 80));
    assert!(backdrop.set_backdrop_viewport_column(column));
    assert!(!backdrop.set_backdrop_viewport_column(column));
    assert_eq!(
        backdrop.paint_backdrop(),
        (true, Some(edges(5, 6, 75, 86)))
    );
    assert_eq!(backdrop.clear_backdrop_snapshot(), 8);
    assert!(backdrop.clear_backdrop_viewport_column());
    assert!(!backdrop.clear_backdrop_viewport_column());
    assert_eq!(backdrop, BackdropWindowState::new());
    assert_eq!(
        paint_backdrop_viewport_column(Rect::new(i32::MAX, 0, 1, 1)),
        edges(0, 0, 0, 0)
    );
    assert_eq!(backdrop_color(), 0x26_2626);
    assert_eq!(preview_background_color(), 0x16_1616);
}

#[test]
fn only_half_transparent_rectangles_are_blended() {
    let rect = edges(10, 10, 30, 10);
    assert_eq!(plan_alpha_rect(rect, 0), AlphaPaint::Nothing);
    assert_eq!(plan_alpha_rect(rect, 255), AlphaPaint::Solid);
    assert_eq!(
        plan_alpha_rect(rect, 90),
        AlphaPaint::Blend {
            width: 20,
            height: 1
        }
    );
    let wide = edges(i32::MIN, 0, i32::MAX, 1);
    assert_eq!(plan_alpha_rect(wide, 0), AlphaPaint::Nothing);
    assert_eq!(plan_alpha_rect(wide, 255), AlphaPaint::Solid);
}

#[test]
fn cards_are_painted_on_the_frame_alone() {
    let windows = vec![
        Rect::new(0, 0, 202, 102),
        Rect::new(i32::MAX, 0, 5, 5),
        Rect::new(10, 20, 19, 13),
    ];
    assert!(paint_preview_rect(SurfaceWindow::Host, &windows).is_empty());
    let mut expected = paint_preview_window_card(edges(0, 0, 202, 102));
    expected.extend(paint_preview_window_card(edges(0, 0, 0, 0)));
    expected.extend(paint_preview_window_card(edges(10, 20, 29, 33)));
    assert_eq!(paint_preview_rect(SurfaceWindow::Frame, &windows), expected);
    assert!(paint_preview_rect(SurfaceWindow::Frame, &Vec::new()).is_empty());
}

#[test]
fn an_overlay_is_shown_above_everything() {
    assert_eq!(
        show_overlay_window(Rect::new(3, -4, 0, 70)),
        Ok(PositionCall {
            insert_after: -1,
            x: 3,
            y: -4,
            width: 1,
            height: 70,
            flags: 0x10 | 0x40,
        })
    );
    assert_eq!(
        show_overlay_window(Rect::new(0, 0, u32::MAX, u32::MAX)),
        Err("overlay width exceeds Win32 limits".to_string())
    );
    assert_eq!(
        show_overlay_window(Rect::new(0, 0, 1, 1 << 31)),
        Err("overlay height exceeds Win32 limits".to_string())
    );
}

#[test]
fn a_card_is_painted_from_the_bottom_up() {
    let fills = paint_preview_window_card(edges(0, 0, 202, 102));
    let colors: Vec<u32> = fills.iter().map(|fill| fill.color).collect();
    assert_eq!(
        colors,
        vec![
            BORDER_COLOR,
            FILL_COLOR,
            HEADER_COLOR,
            CONTROL_COLOR,
            CONTROL_COLOR,
            CONTROL_COLOR,
            CONTENT_COLOR,
            CONTENT_SECONDARY_COLOR,
            CONTENT_SECONDARY_COLOR,
        ]
    );
    let rects: Vec<Win32Rect> = fills.iter().map(|fill| fill.rect).collect();
    assert_eq!(
        rects,
        vec![
            edges(0, 0, 202, 102),
            edges(1, 1, 201, 101),
            edges(1, 1, 201, 15),
            edges(5, 6, 8, 9),
            edges(11, 6, 14, 9),
            edges(17, 6, 20, 9),
            edges(7, 21, 7 + 188 * 3 / 5, 24),
            edges(7, 30, 7 + 188 * 4 / 5, 32),
            edges(7, 38, 7 + 188 * 2 / 3, 40),
        ]
    );
    assert_eq!(paint_preview_window_card(edges(0, 0, 19, 13)).len(), 2);
}

#[test]
fn title_bars_take_a_share_of_the_card() {
    for height in 12..2000 {
        let header = preview_window_header_rect(edges(0, 0, 100, height))
            .expect("the card is large enough");
        let share = ((f64::from(height) * 0.14).round() as i32)
            .clamp(8, 28)
            .min(height);
        assert_eq!(header, edges(0, 0, 100, share), "{height}");
    }
    assert_eq!(preview_window_header_rect(edges(0, 0, 17, 100)), None);
    assert_eq!(preview_window_header_rect(edges(0, 0, 100, 11)), None);
    assert_eq!(
        inset_win32_rect(edges(0, 0, 10, 10), -3),
        edges(0, 0, 10, 10)
    );
    assert_eq!(
        inset_win32_rect(edges(0, 0, 10, 10), 3),
        edges(3, 3, 7, 7)
    );
    assert_eq!(win32_rect_width(edges(i32::MIN, 0, i32::MAX, 9)), i32::MAX);
    assert_eq!(win32_rect_height(edges(0, 9, 0, 2)), -7);
    assert!(fill_is_visible(edges(0, 0, 1, 1)));
    assert!(!fill_is_visible(edges(0, 0, 0, 1)));
}

#[test]
fn switches_of_the_environment() {
    for (value, flag, client_only) in [
        (None, false, true),
        (Some(""), false, true),
        (Some(" "), false, true),
        (Some("0"), false, false),
        (Some(" False "), false, false),
        (Some("1"), true, true),
        (Some("no"), true, true),
    ] {
        assert_eq!(overview_env_flag(value), flag);
        assert_eq!(overview_thumbnail_diagnostics_enabled(value), flag);
        assert_eq!(overview_thumbnail_client_only_enabled(value), client_only);
    }
}

fn clickable() -> PreviewWindowState {
    let mut state = PreviewWindowState::new();
    let changed = state.update_preview_window_state(
        vec![
            PreviewClickTarget {
                hwnd: 100,
                workspace_id: WorkspaceId::new(1),
                rect: Rect::new(0, 0, 100, 100),
            },
            PreviewClickTarget {
                hwnd: 200,
                workspace_id: WorkspaceId::new(2),
                rect: Rect::new(200, 0, 100, 100),
            },
        ],
        vec![
            WorkspaceDropTarget {
                workspace_id: WorkspaceId::new(1),
                rect: Rect::new(0, 0, 150, 100),
            },
            WorkspaceDropTarget {
                workspace_id: WorkspaceId::new(2),
                rect: Rect::new(150, 0, 300, 100),
            },
        ],
    );
    assert!(changed);
    state
}

#[test]
fn a_click_activates_what_was_pressed() {
    let mut state = clickable();
    assert_eq!(
        state.handle_pointer(PointerMessage::LeftDown, 10, 10, 8, true),
        (CaptureAction::Take, None)
    );
    assert_eq!(
        state.handle_pointer(PointerMessage::Move, 17, 3, 8, true),
        (CaptureAction::Keep, None)
    );
    assert_eq!(
        state.handle_pointer(PointerMessage::LeftUp, 210, 10, 8, true),
        (
            CaptureAction::Release,
            Some(ControlMessage::OverviewActivateWindow { raw_hwnd: 100 })
        )
    );
    assert_eq!(state.drag_session, None);
}

#[test]
fn a_drag_drops_the_column() {
    let mut state = clickable();
    state.handle_pointer(PointerMessage::LeftDown, 10, 10, 8, true);
    state.handle_pointer(PointerMessage::Move, 18, 10, 8, true);
    state.handle_pointer(PointerMessage::Move, 10, 10, 8, true);
    assert_eq!(
        state.handle_pointer(PointerMessage::LeftUp, 210, 10, 8, true),
        (
            CaptureAction::Release,
            Some(ControlMessage::OverviewMoveColumn {
                dragged_raw_hwnd: 100,
                target_workspace_id: WorkspaceId::new(2),
                insert_after_raw_hwnd: Some(200),
            })
        )
    );

    state.begin_preview_drag_session(10, 10, 100);
    state.update_preview_drag_session(10, 30, 8);
    assert_eq!(
        state.finish_preview_pointer_interaction(160, 10),
        (
            PreviewPointerOutcome::MoveColumn {
                dragged_raw_hwnd: 100,
                target_workspace_id: WorkspaceId::new(2),
                insert_after_raw_hwnd: None,
            },
            CaptureAction::Release
        )
    );

    state.begin_preview_drag_session(10, 10, 100);
    state.update_preview_drag_session(10, 30, 8);
    assert_eq!(
        state.finish_preview_pointer_interaction(999, 999),
        (PreviewPointerOutcome::Nothing, CaptureAction::Release)
    );
}

#[test]
fn clicks_beside_the_windows_dismiss_the_overview() {
    let mut state = clickable();
    assert_eq!(
        state.handle_pointer(PointerMessage::LeftDown, 120, 10, 8, true),
        (CaptureAction::Keep, None)
    );
    assert_eq!(
        state.handle_pointer(PointerMessage::LeftUp, 120, 10, 8, true),
        (CaptureAction::Keep, Some(ControlMessage::OverviewDismiss))
    );
    assert_eq!(
        state.handle_pointer(PointerMessage::LeftUp, 20, 10, 8, true),
        (
            CaptureAction::Keep,
            Some(ControlMessage::OverviewActivateWindow { raw_hwnd: 100 })
        )
    );
    state.begin_preview_drag_session(10, 10, 100);
    assert_eq!(
        state.handle_pointer(PointerMessage::RightUp, 20, 10, 8, true),
        (
            CaptureAction::Release,
            Some(ControlMessage::OverviewDismiss)
        )
    );
    assert_eq!(
        state.handle_pointer(PointerMessage::MiddleUp, 20, 10, 8, false),
        (CaptureAction::Keep, None)
    );
    state.begin_preview_drag_session(10, 10, 100);
    assert_eq!(
        state.handle_pointer(PointerMessage::CaptureChanged, 0, 0, 8, true),
        (CaptureAction::Release, None)
    );
    assert_eq!(state.cancel_preview_drag_session(), CaptureAction::Keep);
    let targets = clickable().click_targets;
    assert_eq!(
        click_request(&targets, 210, 10, true),
        Some(ControlMessage::OverviewActivateWindow { raw_hwnd: 200 })
    );
    assert_eq!(
        click_request(&targets, 500, 500, true),
        Some(ControlMessage::OverviewDismiss)
    );
    assert_eq!(click_request(&targets, 210, 10, false), None);
}

#[test]
fn requests_need_a_listener() {
    assert_eq!(
        dispatch_overview_activate_window(true, 5),
        Some(ControlMessage::OverviewActivateWindow { raw_hwnd: 5 })
    );
    assert_eq!(dispatch_overview_activate_window(false, 5), None);
    assert_eq!(
        dispatch_overview_dismiss(true),
        Some(ControlMessage::OverviewDismiss)
    );
    assert_eq!(dispatch_overview_dismiss(false), None);
    assert_eq!(
        dispatch_overview_move_column(true, 1, WorkspaceId::new(2), None),
        Some(ControlMessage::OverviewMoveColumn {
            dragged_raw_hwnd: 1,
            target_workspace_id: WorkspaceId::new(2),
            insert_after_raw_hwnd: None,
        })
    );
    assert_eq!(
        dispatch_overview_move_column(false, 1, WorkspaceId::new(2), None),
        None
    );
}

#[test]
fn regions_change_only_with_their_parts() {
    let rects = vec![Rect::new(1, 2, 3, 4), Rect::new(0, 0, u32::MAX, 1)];
    assert_eq!(
        build_preview_window_region(&rects),
        vec![edges(1, 2, 4, 6), edges(0, 0, i32::MAX, 1)]
    );
    assert_eq!(build_preview_window_region(&[]), vec![edges(0, 0, 0, 0)]);
    assert_eq!(plan_preview_window_region(&rects, &rects), None);
    assert_eq!(
        plan_preview_window_region(&rects, &rects[..1]),
        Some(vec![edges(1, 2, 4, 6)])
    );
}

#[test]
fn workspaces_are_drawn_on_their_own_pair_of_windows() {
    let host = SurfaceWindow::Host;
    let painted = SurfaceWindow::Frame;
    let monitor = Rect::new(0, 0, 1600, 900);
    let underlay = Rect::new(512, 0, 576, 900);
    let shown = workspace(1, 290, &[(100, Rect::new(500, 290, 288, 320))]);

    let (plan, steps) = render_preview_workspace_frame(&shown, underlay, monitor, false);
    let plan = plan.expect("the workspace is in sight");
    assert!(plan.frame_visible());
    assert_eq!(
        steps,
        vec![
            SurfaceStep::Fill(painted),
            SurfaceStep::Shape(painted),
            SurfaceStep::Place(painted),
            SurfaceStep::ShapeToNothing(host),
            SurfaceStep::Place(host),
            SurfaceStep::ForgetShown,
        ]
    );
    let end = finish_preview_workspace_frame(&shown, &plan, &HashSet::from([100_u64]), 1, 2);
    assert_eq!(end.click_targets.len(), 1);
    assert_eq!(end.click_targets[0].hwnd, 100);
    assert_eq!(end.host_rects, vec![Rect::new(500, 0, 288, 320)]);
    assert_eq!(
        end.steps,
        vec![
            SurfaceStep::Fill(host),
            SurfaceStep::Shape(host),
            SurfaceStep::Place(host),
        ]
    );
    assert_eq!(end.topmost, Some(1));
    let end = finish_preview_workspace_frame(&shown, &plan, &HashSet::new(), 1, 2);
    assert_eq!(end.host_rects, Vec::new());
    assert_eq!(end.steps[0], SurfaceStep::Empty(host));
    assert_eq!(end.topmost, Some(2));

    let bare = workspace(1, 290, &[]);
    let (plan, steps) = render_preview_workspace_frame(&bare, underlay, monitor, true);
    let plan = plan.expect("the workspace is in sight");
    assert!(!plan.frame_visible());
    assert_eq!(
        steps,
        vec![
            SurfaceStep::Empty(painted),
            SurfaceStep::ShapeToNothing(painted),
            SurfaceStep::Hide(painted),
        ]
    );
    let end = finish_preview_workspace_frame(&bare, &plan, &HashSet::new(), 1, 2);
    assert_eq!(end.topmost, None);

    let (plan, steps) =
        render_preview_workspace_frame(&workspace(2, 2000, &[]), underlay, monitor, true);
    assert!(plan.is_none());
    assert_eq!(
        steps,
        vec![
            SurfaceStep::Hide(painted),
            SurfaceStep::Hide(host),
            SurfaceStep::ForgetShown,
            SurfaceStep::ForgetShape(painted),
            SurfaceStep::ForgetShape(host),
        ]
    );
}

#[test]
fn frames_plan_their_backdrop_and_surfaces() {
    let shown = frame(vec![workspace(
        1,
        290,
        &[(100, Rect::new(500, 290, 288, 320))],
    )]);
    let plan = plan_overview_frame(&shown);
    assert_eq!(plan.backdrop_rect, Rect::new(0, 0, 1600, 900));
    assert_eq!(plan.viewport_column, Some(Rect::new(512, 0, 576, 900)));
    assert_eq!(plan.underlay_rect, Rect::new(512, 0, 576, 900));
    assert!(!plan.empty);
    let surface = plan_workspace_surface(&shown.workspaces[0], plan.underlay_rect, shown.monitor_rect)
        .expect("the workspace is in sight");
    assert_eq!(surface.visible_canvas_rect, Rect::new(0, 290, 1600, 320));
    assert_eq!(surface.visible_underlay_rect, Rect::new(512, 0, 576, 900));
    assert_eq!(surface.painted_windows, vec![Rect::new(0, 290, 276, 320)]);
    assert!(plan_workspace_surface(
        &workspace(2, 2000, &[]),
        plan.underlay_rect,
        shown.monitor_rect
    )
    .is_none());

    let empty = plan_overview_frame(&frame(Vec::new()));
    assert!(empty.empty);
    assert_eq!(empty.viewport_column, None);
    assert_eq!(empty.underlay_rect, Rect::new(0, 0, 1600, 900));

    assert_eq!(host_insert_after(&surface, 7, Some(3)), Some(7));
    let unpainted = WorkspaceSurfacePlan {
        painted_windows: Vec::new(),
        ..surface
    };
    assert_eq!(host_insert_after(&unpainted, 7, Some(3)), Some(3));
    assert_eq!(stale_workspace_ids(&vec![3, 1, 2], &shown), vec![3, 2]);
}

#[test]
fn previews_are_drawn_from_the_edge_to_the_middle() {
    let shown = frame(vec![
        workspace(1, 290, &[]),
        workspace(2, -66, &[]),
        workspace(3, 646, &[]),
    ]);
    let order: Vec<u64> = ordered_frame_workspaces(&shown)
        .iter()
        .map(|workspace| workspace.workspace_id.raw)
        .collect();
    assert_eq!(order, vec![2, 3, 1]);
    let drops = workspace_drop_targets_for_frame(&shown, shown.monitor_rect);
    assert_eq!(drops.len(), 3);
    assert_eq!(drops[1].rect, Rect::new(0, 0, 1600, 254));
    assert_eq!(
        hit_test_workspace_drop_targets(&drops, 800, 10),
        Some(WorkspaceId::new(2))
    );
    assert_eq!(hit_test_workspace_drop_targets(&drops, 800, 260), None);
    assert_eq!(preview_target_at_point(&[], 0, 0), None);
}

fn projection(x: i32) -> ThumbnailProjection {
    ThumbnailProjection {
        destination_rect: Rect::new(x, 0, 10, 10),
        source_rect: Rect::new(0, 0, 100, 100),
    }
}

#[test]
fn thumbnails_are_registered_shown_and_kept() {
    let visible = Some(Rect::new(0, 0, 10, 10));
    let mut cache = ThumbnailCache::new();
    assert_eq!(
        cache.begin_window(u64::MAX, true, visible),
        WindowSyncStep::Skip
    );
    assert_eq!(
        cache.begin_window(5, true, visible),
        WindowSyncStep::Register
    );
    cache.finish_register(5, 77);
    assert_eq!(
        cache.begin_window(5, true, visible),
        WindowSyncStep::Measure { handle: 77 }
    );
    assert_eq!(cache.begin_show(5, None), ShowStep::Skip);
    assert_eq!(
        cache.begin_show(5, Some(projection(0))),
        ShowStep::Update {
            handle: 77,
            projection: projection(0)
        }
    );
    assert_eq!(cache.finish_update(5, projection(0), true), (None, None));
    assert_eq!(
        cache.begin_show(5, Some(projection(0))),
        ShowStep::Keep {
            projection: projection(0)
        }
    );
    assert!(matches!(
        cache.begin_show(5, Some(projection(1))),
        ShowStep::Update { .. }
    ));
    assert_eq!(
        cache.begin_window(5, true, None),
        WindowSyncStep::Hide { handle: 77 }
    );
    assert_eq!(cache.finish_hide(5, true), (None, None));
    assert_eq!(cache.begin_window(5, true, None), WindowSyncStep::Skip);
    assert_eq!(
        cache.begin_window(5, false, None),
        WindowSyncStep::Unregister { handle: 77 }
    );
    assert!(cache.thumbnails.is_empty());
    assert_eq!(cache.begin_window(5, false, None), WindowSyncStep::Skip);
}

#[test]
fn thumbnails_that_resist_are_given_up() {
    let mut cache = ThumbnailCache::new();
    cache.finish_register(5, 77);
    assert_eq!(
        cache.finish_update(5, projection(0), false),
        (
            Some(77),
            Some(
                "overview-surface: thumbnail-failure stage=update hwnd=5 \
                 error=DwmUpdateThumbnailProperties failed while showing preview"
                    .to_string()
            )
        )
    );
    cache.finish_register(5, 78);
    cache.finish_update(5, projection(0), true);
    assert_eq!(
        cache.finish_hide(5, false),
        (
            Some(78),
            Some(
                "overview-surface: thumbnail-failure stage=hide hwnd=5 \
                 error=DwmUpdateThumbnailProperties failed while hiding preview"
                    .to_string()
            )
        )
    );
    assert!(cache.thumbnails.is_empty());
}

#[test]
fn a_repeated_failure_is_logged_once() {
    let mut cache = ThumbnailCache::new();
    assert_eq!(
        cache.log_thumbnail_failure(3, "register", "no"),
        Some("overview-surface: thumbnail-failure stage=register hwnd=3 error=no".to_string())
    );
    assert_eq!(cache.log_thumbnail_failure(3, "register", "no"), None);
    assert!(cache.log_thumbnail_failure(3, "register", "still no").is_some());
    assert!(cache.log_thumbnail_failure(4, "register", "still no").is_some());
    cache.clear_thumbnail_failure(3);
    assert!(cache.log_thumbnail_failure(3, "register", "still no").is_some());
}

#[test]
fn gone_windows_are_forgotten() {
    let mut cache = ThumbnailCache::new();
    for (hwnd, handle) in [(1, 10), (2, 20), (3, 30)] {
        cache.finish_register(hwnd, handle);
        cache.finish_update(hwnd, projection(0), true);
    }
    let mut gone = cache.drop_stale(&vec![2]);
    gone.sort_unstable();
    assert_eq!(gone, vec![10, 30]);
    assert_eq!(cache.thumbnails.len(), 1);
    cache.reset_preview_thumbnail_cache();
    assert!(!cache.thumbnails[&2].visible);
    assert_eq!(cache.thumbnails[&2].visible_projection, None);
    assert_eq!(cache.thumbnails[&2].handle, 20);
}

#[test]
fn thumbnails_are_planned_for_what_is_in_sight() {
    let first = workspace(1, 290, &[(100, Rect::new(500, 290, 288, 320))]);
    let second = workspace(2, -66, &[(200, Rect::new(500, -66, 288, 320))]);
    let hidden = workspace(3, 2000, &[(300, Rect::new(500, 2000, 288, 320))]);
    let shown = frame(vec![first, second, hidden]);
    assert_eq!(desired_hwnds(&shown), vec![100, 200, 300]);
    let jobs = plan_scene_thumbnails(&shown, shown.monitor_rect);
    assert_eq!(
        jobs,
        vec![
            ThumbnailJob {
                hwnd: 200,
                rect: Rect::new(500, -66, 288, 320),
                clipped: Some(Rect::new(500, 0, 288, 254)),
            },
            ThumbnailJob {
                hwnd: 100,
                rect: Rect::new(500, 290, 288, 320),
                clipped: Some(Rect::new(500, 290, 288, 320)),
            },
        ]
    );
    assert_eq!(
        plan_workspace_thumbnails(&shown.workspaces[0], Rect::new(0, 0, 10, 10)),
        vec![ThumbnailJob {
            hwnd: 100,
            rect: Rect::new(500, 290, 288, 320),
            clipped: None,
        }]
    );
    let source = Rect::new(0, 0, 576, 640);
    assert_eq!(
        job_projection(jobs[0], shown.monitor_rect, source),
        Some(ThumbnailProjection {
            destination_rect: Rect::new(500, 0, 288, 254),
            source_rect: Rect::new(0, 132, 576, 508),
        })
    );
    let mut visibility = SceneVisibility::new();
    visibility.record(200, projection(4));
    assert_eq!(visibility.visible_hwnds, HashSet::from([200]));
    assert_eq!(visibility.host_rects, vec![Rect::new(4, 0, 10, 10)]);
}

#[test]
fn diagnostics_name_every_rectangle() {
    let rect = Rect::new(-1, 2, 30, 40);
    let without = thumbnail_diagnostic(rect, None, rect, rect, projection(0), true);
    assert_eq!(
        without,
        "scene=(-1,2 30x40) outer=none visible=none expanded=fallback clipped=(-1,2 30x40) \
         source_size=(-1,2 30x40) projection_dest=(0,0 10x10) projection_source=(0,0 100x100) \
         client_only=true"
    );
    let geometry = FullWindowPreviewGeometry {
        destination_rect: Rect::new(1, 1, 1, 1),
        outer_rect: Rect::new(0, 0, 100, 100),
        visible_rect: Rect::new(8, 1, 84, 90),
    };
    let with = thumbnail_diagnostic(rect, Some(geometry), rect, rect, projection(0), false);
    assert_eq!(
        with,
        "scene=(-1,2 30x40) outer=(0,0 100x100) visible=(8,1 84x90) expanded=(1,1 1x1) \
         clipped=(-1,2 30x40) source_size=(-1,2 30x40) projection_dest=(0,0 10x10) \
         projection_source=(0,0 100x100) client_only=false insets=(8, 1, 8, 9)"
    );
    let mut cache = ThumbnailCache::new();
    assert_eq!(
        cache.log_thumbnail_geometry_diagnostic(false, 7, "x".to_string()),
        None
    );
    assert_eq!(
        cache.log_thumbnail_geometry_diagnostic(true, 7, "x".to_string()),
        Some("overview-surface: thumbnail-geometry hwnd=7 x".to_string())
    );
    assert_eq!(
        cache.log_thumbnail_geometry_diagnostic(true, 7, "x".to_string()),
        None
    );
}
