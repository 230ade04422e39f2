//! The thread that draws the overview, and its passes over the thumbnails.

use std::collections::HashSet;

use flowtile_core_daemon::geometry::Rect;
use flowtile_core_daemon::ids::WorkspaceId;
use flowtile_core_daemon::overview_engine::frame::{
    OverviewRenderFrame, WindowRenderFrame, WorkspaceRenderFrame,
};
use flowtile_core_daemon::overview_engine::scene::OverviewScene;
use flowtile_core_daemon::overview_surface::overlay::{
    WorkerAction, OverlayCommand, WorkerEvent, OverlayWorker,
};
use flowtile_core_daemon::overview_surface::pass::{
    PassAction, PassEvent, PassReply, ThumbnailPass,
};
use flowtile_core_daemon::overview_surface::shell::ShellScreenshotWindows;
use flowtile_core_daemon::overview_surface::steps::{
    begin_preview_scene_frame, begin_preview_workspace_frame, finish_preview_frame,
    withdraw_preview_workspace, SurfaceStep, SurfaceWindow,
};
use flowtile_core_daemon::overview_surface::sync::ThumbnailCache;

const MONITOR: Rect = Rect {
    x: 0,
    y: 0,
    width: 1600,
    height: 900,
};

fn workspace(id: u64, y: i32, windows: &[(u64, Rect)]) -> WorkspaceRenderFrame {
    WorkspaceRenderFrame {
        workspace_id: WorkspaceId::new(id),
        canvas_rect: Rect::new(0, y, 1600, 320),
        viewport_rect: Rect::new(512, y, 576, 320),
        windows: windows
            .iter()
            .map(|(hwnd, rect)| WindowRenderFrame {
                hwnd: *hwnd,
                rect: *rect,
            })
            .collect(),
    }
}

fn frame(windows: &[(u64, Rect)]) -> OverviewRenderFrame {
    OverviewRenderFrame {
        monitor_rect: MONITOR,
        workspaces: vec![workspace(1, 290, windows)],
    }
}

fn measured(width: u32, height: u32) -> PassEvent {
    PassEvent::Measured {
        source: Ok(Rect::new(0, 0, width, height)),
        geometry: None,
    }
}

fn action(action: PassAction) -> PassReply {
    PassReply {
        unregister: None,
        log: None,
        action,
    }
}

#[test]
fn a_new_window_is_registered_measured_and_shown() {
    let shown = frame(&[(5, Rect::new(500, 290, 288, 320))]);
    let mut cache = ThumbnailCache::new();
    let (mut pass, gone) =
        ThumbnailPass::sync_scene_thumbnails(&mut cache, &shown, MONITOR, false, true);
    assert!(gone.is_empty());
    assert_eq!(
        pass.pending_action(&cache),
        PassAction::CheckWindow { hwnd: 5 }
    );
    assert_eq!(
        pass.step(&mut cache, PassEvent::Checked(true)),
        action(PassAction::Register { hwnd: 5 })
    );
    assert_eq!(
        pass.step(&mut cache, PassEvent::Registered(Ok(77))),
        action(PassAction::Measure { handle: 77 })
    );
    let reply = pass.step(&mut cache, measured(576, 640));
    let PassAction::Update { handle, projection } = reply.action else {
        panic!("the thumbnail shows nothing yet");
    };
    assert_eq!(handle, 77);
    assert_eq!(projection.destination_rect, Rect::new(500, 290, 288, 320));
    assert_eq!(projection.source_rect, Rect::new(0, 0, 576, 640));
    assert_eq!(
        pass.step(&mut cache, PassEvent::Updated(true)),
        action(PassAction::Done)
    );
    assert_eq!(pass.visibility.visible_hwnds, HashSet::from([5]));
    assert_eq!(
        pass.visibility.host_rects,
        vec![Rect::new(500, 290, 288, 320)]
    );

    let (mut again, _) =
        ThumbnailPass::sync_scene_thumbnails(&mut cache, &shown, MONITOR, false, true);
    assert_eq!(
        again.step(&mut cache, PassEvent::Checked(true)),
        action(PassAction::Measure { handle: 77 })
    );
    assert_eq!(
        again.step(&mut cache, measured(576, 640)),
        action(PassAction::Done)
    );
    assert_eq!(again.visibility.visible_hwnds, HashSet::from([5]));
}

#[test]
fn failures_are_logged_and_the_pass_goes_on() {
    let shown = frame(&[
        (5, Rect::new(0, 290, 288, 320)),
        (6, Rect::new(300, 290, 288, 320)),
        (7, Rect::new(600, 290, 288, 320)),
    ]);
    let mut cache = ThumbnailCache::new();
    let (mut pass, _) =
        ThumbnailPass::sync_scene_thumbnails(&mut cache, &shown, MONITOR, false, true);
    pass.step(&mut cache, PassEvent::Checked(true));
    assert_eq!(
        pass.step(&mut cache, PassEvent::Registered(Err("full".to_string()))),
        PassReply {
            unregister: None,
            log: Some(
                "overview-surface: thumbnail-failure stage=register hwnd=5 error=full".to_string()
            ),
            action: PassAction::CheckWindow { hwnd: 6 },
        }
    );
    pass.step(&mut cache, PassEvent::Checked(true));
    pass.step(&mut cache, PassEvent::Registered(Ok(60)));
    assert_eq!(
        pass.step(
            &mut cache,
            PassEvent::Measured {
                source: Err("gone".to_string()),
                geometry: None,
            }
        ),
        PassReply {
            unregister: None,
            log: Some(
                "overview-surface: thumbnail-failure stage=source-size hwnd=6 error=gone"
                    .to_string()
            ),
            action: PassAction::CheckWindow { hwnd: 7 },
        }
    );
    pass.step(&mut cache, PassEvent::Checked(true));
    pass.step(&mut cache, PassEvent::Registered(Ok(70)));
    pass.step(&mut cache, measured(10, 10));
    let reply = pass.step(&mut cache, PassEvent::Updated(false));
    assert_eq!(reply.unregister, Some(70));
    assert!(reply.log.is_some());
    assert_eq!(reply.action, PassAction::Done);
    assert!(pass.visibility.visible_hwnds.is_empty());
    assert!(pass.visibility.host_rects.is_empty());
}

#[test]
fn windows_out_of_sight_are_hidden_and_gone_ones_dropped() {
    let shown = frame(&[(5, Rect::new(0, 290, 288, 320))]);
    let mut cache = ThumbnailCache::new();
    let (mut pass, _) =
        ThumbnailPass::sync_scene_thumbnails(&mut cache, &shown, MONITOR, false, true);
    pass.step(&mut cache, PassEvent::Checked(true));
    pass.step(&mut cache, PassEvent::Registered(Ok(50)));
    pass.step(&mut cache, measured(10, 10));
    pass.step(&mut cache, PassEvent::Updated(true));

    let away = frame(&[(5, Rect::new(5000, 290, 288, 320))]);
    let (mut pass, _) =
        ThumbnailPass::sync_scene_thumbnails(&mut cache, &away, MONITOR, false, true);
    assert_eq!(
        pass.step(&mut cache, PassEvent::Checked(true)),
        action(PassAction::Hide { handle: 50 })
    );
    assert_eq!(
        pass.step(&mut cache, PassEvent::Hidden(true)),
        action(PassAction::Done)
    );
    let (mut pass, _) =
        ThumbnailPass::sync_scene_thumbnails(&mut cache, &away, MONITOR, false, true);
    assert_eq!(
        pass.step(&mut cache, PassEvent::Checked(false)),
        PassReply {
            unregister: Some(50),
            log: None,
            action: PassAction::Done,
        }
    );

    cache.finish_register(9, 90);
    let (pass, gone) =
        ThumbnailPass::sync_workspace_thumbnails(&mut cache, &workspace(2, 0, &[]), MONITOR);
    assert_eq!(gone, vec![90]);
    assert_eq!(pass.pending_action(&cache), PassAction::Done);
}

#[test]
fn diagnostics_are_logged_where_they_are_wanted() {
    let shown = frame(&[(5, Rect::new(0, 290, 10, 10))]);
    let mut cache = ThumbnailCache::new();
    cache.finish_register(5, 50);
    let (mut pass, _) =
        ThumbnailPass::sync_scene_thumbnails(&mut cache, &shown, MONITOR, true, false);
    pass.step(&mut cache, PassEvent::Checked(true));
    let reply = pass.step(&mut cache, measured(10, 10));
    assert_eq!(
        reply.log.as_deref(),
        Some(
            "overview-surface: thumbnail-geometry hwnd=5 scene=(0,290 10x10) outer=none \
             visible=none expanded=fallback clipped=(0,290 10x10) source_size=(0,0 10x10) \
             projection_dest=(0,290 10x10) projection_source=(0,0 10x10) client_only=false"
        )
    );
}

#[test]
fn events_of_another_phase_change_nothing() {
    let shown = frame(&[(5, Rect::new(0, 290, 10, 10))]);
    let mut cache = ThumbnailCache::new();
    let (mut pass, _) =
        ThumbnailPass::sync_scene_thumbnails(&mut cache, &shown, MONITOR, true, false);
    assert_eq!(
        pass.step(&mut cache, PassEvent::Updated(true)),
        action(PassAction::CheckWindow { hwnd: 5 })
    );
    assert_eq!(
        pass.step(&mut cache, PassEvent::Checked(false)),
        action(PassAction::Done)
    );
    assert_eq!(
        pass.step(&mut cache, PassEvent::Checked(true)),
        action(PassAction::Done)
    );
}

#[test]
fn windows_are_drawn_in_a_fixed_order() {
    let host = SurfaceWindow::Host;
    let painted = SurfaceWindow::Frame;
    assert_eq!(begin_preview_scene_frame(true), Vec::new());
    assert_eq!(
        begin_preview_scene_frame(false),
        vec![
            SurfaceStep::ShapeToNothing(host),
            SurfaceStep::Place(host),
            SurfaceStep::ForgetShown,
        ]
    );
    assert_eq!(
        finish_preview_frame(&vec![Rect::new(1, 2, 3, 4)]),
        vec![
            SurfaceStep::Fill(host),
            SurfaceStep::Shape(host),
            SurfaceStep::Place(host),
        ]
    );
    assert_eq!(
        finish_preview_frame(&Vec::new()),
        vec![
            SurfaceStep::Empty(host),
            SurfaceStep::Hide(host),
            SurfaceStep::ForgetShown,
            SurfaceStep::ForgetShape(host),
        ]
    );
    assert_eq!(
        begin_preview_workspace_frame(true, true),
        vec![
            SurfaceStep::Fill(painted),
            SurfaceStep::Shape(painted),
            SurfaceStep::Place(painted),
        ]
    );
    assert_eq!(begin_preview_workspace_frame(false, false).len(), 6);
    assert_eq!(withdraw_preview_workspace().len(), 5);
}

fn scene(y: i32) -> OverviewScene {
    OverviewScene {
        monitor_rect: Rect::new(0, y, 1600, 900),
        workspaces: Vec::new(),
    }
}

fn done(now: u64) -> WorkerEvent {
    WorkerEvent::Done {
        result: Ok(()),
        now,
    }
}

fn failed(error: &str) -> WorkerEvent {
    WorkerEvent::Done {
        result: Err(error.to_string()),
        now: 0,
    }
}

fn looked(windows: ShellScreenshotWindows, now: u64) -> WorkerEvent {
    WorkerEvent::Looked { windows, now }
}

/// A worker that waits for a command.
fn waiting() -> OverlayWorker {
    let mut worker = OverlayWorker::new();
    assert_eq!(worker.pending_action(), WorkerAction::PumpMessages);
    assert_eq!(worker.step(done(0)), WorkerAction::AwaitCommand);
    worker
}

/// A worker that waits for a command with a scene on the screen.
fn showing(y: i32) -> OverlayWorker {
    let mut worker = waiting();
    assert_eq!(
        worker.step(WorkerEvent::Command(OverlayCommand::Show(scene(y)))),
        WorkerAction::AnimateOpen
    );
    assert_eq!(worker.step(done(0)), WorkerAction::Answer);
    assert_eq!(worker.answer, Ok(()));
    assert_eq!(worker.step(done(0)), WorkerAction::PumpMessages);
    assert_eq!(worker.step(done(0)), WorkerAction::AwaitCommand);
    worker
}

#[test]
fn scenes_open_change_and_close() {
    let mut worker = showing(0);
    assert_eq!(
        worker.step(WorkerEvent::Command(OverlayCommand::Show(scene(0)))),
        WorkerAction::Answer
    );
    worker.step(done(0));
    worker.step(done(0));
    assert_eq!(
        worker.step(WorkerEvent::Command(OverlayCommand::Show(scene(1)))),
        WorkerAction::AnimateTransition
    );
    assert_eq!(worker.step(failed("lost")), WorkerAction::Answer);
    assert_eq!(worker.answer, Err("lost".to_string()));
    assert!(worker.session.scene_matches(&scene(0)));
    worker.step(done(0));
    worker.step(done(0));
    assert_eq!(
        worker.step(WorkerEvent::Command(OverlayCommand::Hide)),
        WorkerAction::AnimateClose
    );
    assert_eq!(worker.closing, Some(scene(0)));
    assert_eq!(worker.step(done(0)), WorkerAction::Answer);
    worker.step(done(0));
    worker.step(done(0));
    assert_eq!(
        worker.step(WorkerEvent::Command(OverlayCommand::Hide)),
        WorkerAction::HideScene
    );
}

#[test]
fn a_lowered_scene_comes_back_after_the_screenshot() {
    let mut worker = showing(0);
    assert_eq!(
        worker.step(WorkerEvent::Command(OverlayCommand::LowerForShellOverlay)),
        WorkerAction::LookForScreenshots
    );
    assert_eq!(
        worker.step(looked(ShellScreenshotWindows::default(), 0)),
        WorkerAction::FreezeCurrent
    );
    assert_eq!(worker.step(done(1000)), WorkerAction::Answer);
    assert_eq!(worker.step(done(1000)), WorkerAction::PumpMessages);
    assert_eq!(worker.step(done(1000)), WorkerAction::LookForScreenshots);
    let busy = ShellScreenshotWindows {
        overlay_present: true,
        ..ShellScreenshotWindows::default()
    };
    assert_eq!(worker.step(looked(busy, 1100)), WorkerAction::AwaitCommand);
    assert_eq!(
        worker.step(WorkerEvent::Command(OverlayCommand::Show(scene(1)))),
        WorkerAction::AnimateTransition
    );
    assert_eq!(worker.step(done(1100)), WorkerAction::FreezePending);
    assert_eq!(worker.step(done(1100)), WorkerAction::Answer);
    assert!(worker.session.scene_matches(&scene(1)));
    worker.step(done(1100));
    worker.step(done(1100));
    assert_eq!(
        worker.step(looked(ShellScreenshotWindows::default(), 1200)),
        WorkerAction::AwaitCommand
    );
    assert_eq!(
        worker.step(WorkerEvent::Silence),
        WorkerAction::PumpMessages
    );
    worker.step(done(1280));
    assert_eq!(
        worker.step(looked(ShellScreenshotWindows::default(), 1280)),
        WorkerAction::RedrawScene
    );
    assert_eq!(worker.step(done(1280)), WorkerAction::AwaitCommand);
    assert!(!worker.session.shell_escape_active());
}

#[test]
fn lowering_without_a_scene_is_answered_at_once() {
    let mut worker = waiting();
    assert_eq!(
        worker.step(WorkerEvent::Command(OverlayCommand::LowerForShellOverlay)),
        WorkerAction::Answer
    );
    let mut worker = showing(0);
    worker.step(WorkerEvent::Command(OverlayCommand::LowerForShellOverlay));
    worker.step(looked(ShellScreenshotWindows::default(), 0));
    assert_eq!(worker.step(failed("no bitmap")), WorkerAction::Answer);
    assert!(!worker.session.shell_escape_active());
}

#[test]
fn the_thread_ends_when_it_is_told_to() {
    for event in [
        WorkerEvent::Hangup,
        WorkerEvent::Command(OverlayCommand::Shutdown),
    ] {
        let mut worker = showing(0);
        assert_eq!(worker.step(event), WorkerAction::CleanUp);
        assert_eq!(worker.step(failed("ignored")), WorkerAction::End);
        assert_eq!(worker.answer, Ok(()));
    }
    let mut worker = OverlayWorker::new();
    assert_eq!(worker.step(failed("broken")), WorkerAction::End);
    assert_eq!(worker.answer, Err("broken".to_string()));
}
