//! What holds of scenes, frames and transitions as wholes.

use flowtile_core_daemon::geometry::{
    interpolate_rect, intersect_rect, rect_bottom, rect_relative_to, rect_right, rects_intersect,
    Rect,
};
use flowtile_core_daemon::ids::{MonitorId, WindowId, WorkspaceId, WorkspaceSetId};
use flowtile_core_daemon::overview_engine::frame::{
    render_frame_for_scene, OverviewRenderFrame, PreviewOrigin, SceneFrameMode,
};
use flowtile_core_daemon::overview_engine::scene::{
    build_overview_scene, same_scene, DistanceRule, OverviewScene, WindowPreviewScene,
    WorkspacePreviewScene,
};
use flowtile_core_daemon::overview_engine::stack::build_preview_stack_layout;
use flowtile_core_daemon::overview_engine::transition::render_frame_for_transition;
use flowtile_core_daemon::overview_surface::controller::{
    OverlayAction, OverviewSurfaceController, VersionedController,
};
use flowtile_core_daemon::overview_surface::thumbnail::{
    full_window_preview_geometry_for_preview, thumbnail_projection, visible_frame_is_compatible,
};
use flowtile_core_daemon::win32::rect_to_win32;
use flowtile_core_daemon::wm_state::{
    FocusState, LayoutError, Monitor, OverviewState, RuntimeMode, WindowGeometryProjection,
    WindowLayer, WindowNode, WmState, Workspace, WorkspaceLayout, WorkspaceLayoutProjection,
    WorkspaceSet,
};

const MONITOR: Rect = Rect {
    x: 0,
    y: 0,
    width: 1600,
    height: 900,
};

/// A monitor with some workspaces, each with one window that fills it, and the overview open.
fn desk(workspaces: u64) -> (WmState, Vec<WorkspaceLayout>) {
    let ids: Vec<WorkspaceId> = (1..=workspaces).map(WorkspaceId::new).collect();
    let window = |raw: u64| WindowNode {
        id: WindowId::new(raw),
        current_hwnd_binding: Some(raw + 100),
        layer: WindowLayer::Tiled,
        workspace_id: WorkspaceId::new(raw),
        column_id: None,
        is_managed: true,
        is_floating: false,
        is_fullscreen: false,
    };
    let state = WmState {
        state_version: 1,
        boot_mode: RuntimeMode::WmOnly,
        overview: OverviewState {
            is_open: true,
            monitor_id: Some(MonitorId::new(1)),
            selection: None,
        },
        focus: FocusState {
            focused_window_id: None,
            focused_monitor_id: None,
        },
        monitors: vec![Monitor {
            id: MonitorId::new(1),
            work_area_rect: MONITOR,
            workspace_set_id: Some(WorkspaceSetId::new(1)),
            active_workspace_id: Some(WorkspaceId::new(1)),
        }],
        workspace_sets: vec![WorkspaceSet {
            id: WorkspaceSetId::new(1),
            ordered_workspace_ids: ids.clone(),
        }],
        workspaces: ids
            .iter()
            .map(|id| Workspace {
                id: *id,
                monitor_id: MonitorId::new(1),
                ordered_column_ids: Vec::new(),
                scroll_offset: 0,
            })
            .collect(),
        columns: Vec::new(),
        windows: (1..=workspaces).map(window).collect(),
        config_version: 1,
        active_rule_count: 0,
    };
    let layouts = ids
        .iter()
        .map(|id| {
            WorkspaceLayout::Computed(WorkspaceLayoutProjection {
                workspace_id: *id,
                viewport: MONITOR,
                window_geometries: vec![WindowGeometryProjection {
                    window_id: WindowId::new(id.raw),
                    rect: MONITOR,
                    layer: WindowLayer::Tiled,
                }],
            })
        })
        .collect();
    (state, layouts)
}

fn scene(state: &WmState, layouts: &Vec<WorkspaceLayout>) -> OverviewScene {
    build_overview_scene(state, layouts, DistanceRule::Exact)
        .expect("every workspace has a layout")
        .expect("the overview is open")
}

#[test]
fn scenes_show_exactly_the_workspaces_in_sight() {
    let (state, layouts) = desk(6);
    let shown = scene(&state, &layouts);
    let ids: Vec<u64> = shown
        .workspaces
        .iter()
        .map(|workspace| workspace.workspace_id.raw)
        .collect();
    assert_eq!(ids, vec![1, 2]);
    for workspace in &shown.workspaces {
        assert!(rects_intersect(workspace.frame_rect, MONITOR));
        assert_eq!(workspace.selected, workspace.workspace_id.raw == 1);
        for window in &workspace.windows {
            assert!(rects_intersect(window.overview_rect, workspace.canvas_rect));
        }
    }
}

#[test]
fn scenes_need_every_layout_and_an_open_overview() {
    let (mut state, mut layouts) = desk(6);
    layouts.pop();
    assert_eq!(
        build_overview_scene(&state, &layouts, DistanceRule::Exact),
        Err(LayoutError::UnknownWorkspace(WorkspaceId::new(6)))
    );
    layouts[3] = WorkspaceLayout::Failed {
        workspace_id: WorkspaceId::new(4),
        failure: 17,
    };
    assert_eq!(
        build_overview_scene(&state, &layouts, DistanceRule::Exact),
        Err(LayoutError::Engine { failure: 17 })
    );
    state.overview.is_open = false;
    assert_eq!(
        build_overview_scene(&state, &layouts, DistanceRule::Exact),
        Ok(None)
    );
}

#[test]
fn previews_are_stacked_evenly() {
    let (mut state, layouts) = desk(6);
    state.monitors[0].active_workspace_id = Some(WorkspaceId::new(3));
    let shown = scene(&state, &layouts);
    let layout = build_preview_stack_layout(MONITOR);
    for pair in shown.workspaces.windows(2) {
        assert_eq!(pair[0].frame_rect.width, pair[1].frame_rect.width);
        assert_eq!(pair[0].frame_rect.x, pair[1].frame_rect.x);
        assert_eq!(
            pair[1].frame_rect.y - pair[0].frame_rect.y,
            layout.frame_height as i32 + layout.gap
        );
    }
}

fn final_frame(scene: &OverviewScene) -> OverviewRenderFrame {
    render_frame_for_scene(scene, SceneFrameMode::Final, PreviewOrigin::Live)
}

#[test]
fn opening_ends_and_closing_starts_open() {
    let (state, layouts) = desk(2);
    let shown = scene(&state, &layouts);
    for origin in [PreviewOrigin::Live, PreviewOrigin::ZoomedStack] {
        let open = render_frame_for_scene(&shown, SceneFrameMode::Final, origin);
        assert_eq!(
            render_frame_for_scene(
                &shown,
                SceneFrameMode::Opening {
                    progress_milli: 1000
                },
                origin
            ),
            open
        );
        assert_eq!(
            render_frame_for_scene(
                &shown,
                SceneFrameMode::Closing { progress_milli: 0 },
                origin
            ),
            open
        );
    }
    let start = render_frame_for_scene(
        &shown,
        SceneFrameMode::Opening { progress_milli: 0 },
        PreviewOrigin::Live,
    );
    for (drawn, workspace) in start.workspaces.iter().zip(&shown.workspaces) {
        for (window, live) in drawn.windows.iter().zip(&workspace.windows) {
            assert_eq!(window.rect, live.live_rect);
        }
    }
}

#[test]
fn transitions_join_two_scenes() {
    let (mut state, layouts) = desk(6);
    let from = scene(&state, &layouts);
    state.monitors[0].active_workspace_id = Some(WorkspaceId::new(3));
    let to = scene(&state, &layouts);
    let end = render_frame_for_transition(&from, &to, 1000);
    let ids: Vec<u64> = end
        .workspaces
        .iter()
        .map(|workspace| workspace.workspace_id.raw)
        .collect();
    assert_eq!(ids, vec![2, 3, 4, 1]);
    assert_eq!(end.workspaces[..3], final_frame(&to).workspaces[..]);
    let start = render_frame_for_transition(&from, &to, 0);
    for workspace in &final_frame(&from).workspaces {
        let drawn = start
            .workspaces
            .iter()
            .find(|drawn| drawn.workspace_id == workspace.workspace_id)
            .expect("both scenes are drawn");
        assert_eq!(drawn, workspace);
    }
}

#[test]
fn what_only_one_scene_shows_moves_with_the_rest() {
    let workspace = |id: u64, y: i32| WorkspacePreviewScene {
        workspace_id: WorkspaceId::new(id),
        live_rect: MONITOR,
        canvas_rect: Rect::new(0, y, 1600, 450),
        frame_rect: Rect::new(400, y, 800, 450),
        selected: false,
        windows: vec![WindowPreviewScene {
            hwnd: id,
            live_rect: MONITOR,
            overview_rect: Rect::new(400, y, 800, 450),
        }],
    };
    let from = OverviewScene {
        monitor_rect: MONITOR,
        workspaces: vec![workspace(1, 200), workspace(2, 700)],
    };
    let to = OverviewScene {
        monitor_rect: MONITOR,
        workspaces: vec![workspace(1, -300), workspace(2, 200), workspace(3, 700)],
    };
    let start = render_frame_for_transition(&from, &to, 0);
    assert_eq!(start.workspaces[2].canvas_rect, Rect::new(0, 1200, 1600, 450));
    assert_eq!(
        start.workspaces[2].windows[0].rect,
        Rect::new(400, 1200, 800, 450)
    );
    let middle = render_frame_for_transition(&from, &to, 500);
    assert_eq!(middle.workspaces[0].canvas_rect, Rect::new(0, -50, 1600, 450));
}

#[test]
fn the_controller_settles() {
    let (mut state, layouts) = desk(2);
    let mut controller = OverviewSurfaceController::new();
    let shown = scene(&state, &layouts);
    match controller.sync(&state, &layouts, true) {
        Ok(OverlayAction::Show(wanted)) => assert!(same_scene(&wanted, &shown)),
        other => panic!("the overview is open: {other:?}"),
    }
    controller.finish_sync(Some(shown));
    assert!(matches!(
        controller.sync(&state, &layouts, true),
        Ok(OverlayAction::Nothing)
    ));
    state.overview.is_open = false;
    assert!(matches!(
        controller.sync(&state, &layouts, true),
        Ok(OverlayAction::Hide)
    ));
    controller.finish_sync(None);
    assert!(matches!(
        controller.sync(&state, &layouts, false),
        Ok(OverlayAction::Nothing)
    ));
    state.overview.is_open = true;
    assert!(controller.sync(&state, &Vec::new(), true).is_err());
}

#[test]
fn a_version_of_the_overview_is_dealt_with_once() {
    let (mut state, layouts) = desk(2);
    let mut controller = VersionedController::new();
    assert!(matches!(
        controller.sync(&state, &layouts, true),
        Ok(OverlayAction::Show(_))
    ));
    controller.finish_sync(&state, true);
    assert!(matches!(
        controller.sync(&state, &layouts, true),
        Ok(OverlayAction::Nothing)
    ));
    state.state_version = 2;
    state.overview.is_open = false;
    assert!(matches!(
        controller.sync(&state, &layouts, true),
        Ok(OverlayAction::Hide)
    ));
}

#[test]
fn intersections_are_common_parts() {
    let left = Rect::new(0, 0, 100, 100);
    let right = Rect::new(60, -20, 100, 50);
    assert!(rects_intersect(left, right));
    let common = intersect_rect(left, right).expect("the rectangles overlap");
    assert_eq!(common, Rect::new(60, 0, 40, 30));
    assert_eq!(intersect_rect(left, Rect::new(100, 0, 5, 5)), None);
    assert!(!rects_intersect(left, Rect::new(100, 0, 5, 5)));
    let inner = rect_relative_to(common, right);
    assert_eq!(inner, Rect::new(0, 20, 40, 30));
    assert_eq!(rect_right(right), 160);
    assert_eq!(rect_bottom(right), 30);
}

#[test]
fn moving_rectangles_stay_between_their_ends() {
    let from = Rect::new(-100, 50, 10, 0);
    let to = Rect::new(100, -50, 1000, 500);
    for progress in 0..=1000_u16 {
        let rect = interpolate_rect(from, to, progress);
        assert!((-100..=100).contains(&rect.x));
        assert!((-50..=50).contains(&rect.y));
        assert!((10..=1000).contains(&rect.width));
        assert!(rect.height <= 500);
    }
    assert_eq!(interpolate_rect(from, to, 500), Rect::new(0, 0, 505, 250));
}

#[test]
fn clipped_windows_show_a_part_of_their_source() {
    let window = Rect::new(-50, -50, 200, 100);
    let source = Rect::new(0, 0, 800, 400);
    let clipped = Rect::new(0, 0, 150, 50);
    let projection =
        thumbnail_projection(window, clipped, MONITOR, source).expect("the window has an extent");
    assert_eq!(projection.destination_rect, clipped);
    assert_eq!(projection.source_rect, Rect::new(200, 200, 600, 200));
    let whole =
        thumbnail_projection(window, window, MONITOR, source).expect("the window has an extent");
    assert_eq!(whole.source_rect, source);
    assert_eq!(
        thumbnail_projection(Rect::new(0, 0, 0, 5), clipped, MONITOR, source),
        None
    );
}

#[test]
fn invisible_borders_lie_outside_the_visible_frame() {
    let outer = Rect::new(-8, 0, 116, 108);
    let visible = Rect::new(0, 0, 100, 100);
    assert!(visible_frame_is_compatible(outer, visible).is_some());
    assert!(visible_frame_is_compatible(visible, outer).is_none());
    let edges = |rect: Rect| rect_to_win32(rect, "window").ok();
    let geometry = full_window_preview_geometry_for_preview(
        edges(outer),
        edges(visible),
        Rect::new(10, 10, 50, 50),
    )
    .expect("the frame fits");
    assert_eq!(geometry.outer_rect, outer);
    assert_eq!(geometry.visible_rect, visible);
    assert_eq!(geometry.destination_rect, Rect::new(6, 10, 58, 54));
    assert!(
        full_window_preview_geometry_for_preview(None, edges(visible), MONITOR).is_none()
    );
}
