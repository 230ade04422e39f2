//! Carrying messages out, stage by stage.

use flowtile_core_daemon::ids::{ColumnId, CorrelationId, WorkspaceId};
use flowtile_core_daemon::watch::commands::{
    DomainCommand, DomainEvent, OutputStream, WatchCommandFlow, WatchPlan,
};
use flowtile_core_daemon::watch::control_plane::{MessagePlan, OverviewFollowUp, OverviewPlan};
use flowtile_core_daemon::watch::execution::{
    Announcement, MessageRun, PrintedLine, ReloadOrigin, RunEvent, RunNews, RunStage,
};

const CONTINUE: RunStage = RunStage::Finished {
    flow: WatchCommandFlow::Continue,
};
const GIVE_UP: RunStage = RunStage::Finished {
    flow: WatchCommandFlow::Exit(1),
};

fn quiet() -> RunNews {
    RunNews {
        log: None,
        lines: Vec::new(),
        record: None,
    }
}

fn logged(log: &str) -> RunNews {
    RunNews {
        log: Some(log.to_string()),
        ..quiet()
    }
}

fn recorded(banner: &str) -> RunNews {
    RunNews {
        record: Some(banner.to_string()),
        ..quiet()
    }
}

fn line(stream: OutputStream, text: &str) -> PrintedLine {
    PrintedLine {
        stream,
        text: text.to_string(),
    }
}

fn printed(stream: OutputStream, text: &str) -> RunNews {
    RunNews {
        lines: vec![line(stream, text)],
        ..quiet()
    }
}

fn told(log: &str, stream: OutputStream, text: &str) -> RunNews {
    RunNews {
        log: Some(log.to_string()),
        ..printed(stream, text)
    }
}

fn failure(text: &str) -> Result<(), String> {
    Err(text.to_string())
}

fn begun(plan: MessagePlan) -> MessageRun {
    let (run, news) = MessageRun::begin(plan, false);
    assert_eq!(news, quiet());
    run
}

fn command(plan: WatchPlan) -> MessageRun {
    begun(MessagePlan::Command(plan))
}

fn request() -> DomainEvent {
    DomainEvent {
        correlation_id: CorrelationId { raw: 3 },
        command: DomainCommand::CloseOverview,
    }
}

fn overview(follow_up: OverviewFollowUp) -> MessagePlan {
    MessagePlan::Overview(OverviewPlan::Dispatch {
        event: request(),
        runtime_label: "label",
        banner: "overview action: something",
        follow_up,
    })
}

fn adopted(hotkeys: bool) -> RunEvent {
    RunEvent::Adopted {
        hotkeys,
        touchpad_status: "off".to_string(),
    }
}

#[test]
fn a_manual_request_is_recorded_or_ends_the_loop() {
    let plan = WatchPlan::Dispatch {
        event: request(),
        runtime_label: "manual-close-overview",
        user_label: "close-overview",
    };
    let mut run = command(plan);
    assert_eq!(
        run.stage,
        RunStage::Dispatching {
            event: request(),
            runtime_label: "manual-close-overview",
            announcement: Announcement::Manual {
                user_label: "close-overview"
            },
        }
    );
    assert_eq!(
        run.step(RunEvent::Reported(Ok(()))),
        recorded("manual command: close-overview")
    );
    assert_eq!(run.stage, CONTINUE);

    let mut run = command(plan);
    assert_eq!(
        run.step(RunEvent::Reported(failure("broken"))),
        printed(OutputStream::Error, "broken")
    );
    assert_eq!(run.stage, GIVE_UP);
}

#[test]
fn a_rescan_is_recorded_or_ends_the_loop() {
    let mut run = command(WatchPlan::Rescan);
    assert_eq!(run.stage, RunStage::Rescanning);
    assert_eq!(
        run.step(RunEvent::Reported(Ok(()))),
        recorded("manual rescan")
    );
    assert_eq!(run.stage, CONTINUE);
    let mut run = command(WatchPlan::Rescan);
    assert_eq!(
        run.step(RunEvent::Reported(failure("no scan"))),
        printed(OutputStream::Error, "no scan")
    );
    assert_eq!(run.stage, GIVE_UP);
}

#[test]
fn side_effects_never_end_the_loop() {
    let mut run = command(WatchPlan::OpenTerminal);
    assert_eq!(run.stage, RunStage::OpeningTerminal);
    assert_eq!(
        run.step(RunEvent::Acted(failure("no shell"))),
        told(
            "watch: open-terminal-error=no shell",
            OutputStream::Error,
            "open terminal failed: no shell"
        )
    );
    assert_eq!(run.stage, CONTINUE);

    let mut run = command(WatchPlan::CloseWindow { hwnd: Some(8) });
    assert_eq!(run.stage, RunStage::ClosingWindow { hwnd: 8 });
    assert_eq!(
        run.step(RunEvent::Acted(Ok(()))),
        told(
            "watch: close-window-ok",
            OutputStream::Standard,
            "manual command: close-window"
        )
    );
    assert_eq!(run.stage, CONTINUE);

    let plan = MessagePlan::Command(WatchPlan::CloseWindow { hwnd: None });
    let (run, news) = MessageRun::begin(plan, false);
    assert_eq!(
        news,
        told(
            "watch: close-window-error=no focused managed window is currently bound to an HWND",
            OutputStream::Error,
            "close window failed: no focused managed window is currently bound to an HWND"
        )
    );
    assert_eq!(run.stage, CONTINUE);
}

#[test]
fn the_selector_is_opened_where_none_was_closed() {
    let mut run = command(WatchPlan::ToggleWallpaperSelector);
    assert_eq!(run.stage, RunStage::ClosingSelector);
    assert_eq!(run.step(RunEvent::SelectorClosed(Ok(false))), quiet());
    assert_eq!(run.stage, RunStage::OpeningSelector);
    assert_eq!(
        run.step(RunEvent::Acted(Ok(()))),
        told(
            "watch: open-wallpaper-selector-ok",
            OutputStream::Standard,
            "manual command: open-wallpaper-selector"
        )
    );
    assert_eq!(run.stage, CONTINUE);

    let mut run = command(WatchPlan::ToggleWallpaperSelector);
    assert_eq!(
        run.step(RunEvent::SelectorClosed(Ok(true))),
        told(
            "watch: close-wallpaper-selector-ok",
            OutputStream::Standard,
            "manual command: close-wallpaper-selector"
        )
    );
    assert_eq!(run.stage, CONTINUE);

    let mut run = command(WatchPlan::ToggleWallpaperSelector);
    assert_eq!(
        run.step(RunEvent::SelectorClosed(Err("stuck".to_string()))),
        told(
            "watch: close-wallpaper-selector-error=stuck",
            OutputStream::Error,
            "close wallpaper selector failed: stuck"
        )
    );
    assert_eq!(run.stage, CONTINUE);
}

#[test]
fn a_reload_restarts_both_listeners() {
    let origin = ReloadOrigin::Manual;
    let mut run = command(WatchPlan::ReloadConfig);
    assert_eq!(run.stage, RunStage::Reloading);
    assert_eq!(run.step(RunEvent::Reported(Ok(()))), quiet());
    assert_eq!(run.stage, RunStage::StartingHotkeys { origin });
    assert_eq!(run.step(RunEvent::Started(Ok(()))), quiet());
    assert_eq!(run.stage, RunStage::StartingTouchpad { origin });
    assert_eq!(run.step(RunEvent::Started(Ok(()))), quiet());
    assert_eq!(run.stage, RunStage::Adopting { origin });
    assert_eq!(
        run.step(adopted(true)),
        RunNews {
            lines: vec![
                line(OutputStream::Standard, "global hotkeys reloaded: enabled"),
                line(OutputStream::Standard, "touchpad override reloaded: off"),
            ],
            ..recorded("manual command: reload-config")
        }
    );
    assert_eq!(run.stage, CONTINUE);
}

#[test]
fn a_listener_that_does_not_restart_ends_the_loop() {
    let mut run = command(WatchPlan::ReloadConfig);
    run.step(RunEvent::Reported(Ok(())));
    assert_eq!(
        run.step(RunEvent::Started(failure("taken"))),
        printed(
            OutputStream::Error,
            "global hotkeys failed to restart: taken"
        )
    );
    assert_eq!(run.stage, GIVE_UP);

    let mut run = begun(MessagePlan::Request {
        command: "reload_config".to_string(),
    });
    run.step(RunEvent::RequestHandled {
        ok: true,
        broadcast: true,
    });
    run.step(RunEvent::Started(Ok(())));
    assert_eq!(
        run.step(RunEvent::Started(failure("gone"))),
        printed(
            OutputStream::Error,
            "touchpad override failed to restart via IPC: gone"
        )
    );
    assert_eq!(run.stage, GIVE_UP);
}

#[test]
fn clients_are_answered() {
    let mut run = begun(MessagePlan::Request {
        command: "focus_next".to_string(),
    });
    assert_eq!(run.stage, RunStage::HandlingRequest { reload: false });
    let handled = RunEvent::RequestHandled {
        ok: true,
        broadcast: true,
    };
    assert_eq!(run.step(handled), quiet());
    assert_eq!(run.stage, RunStage::Answering { broadcast: true });
    assert_eq!(run.step(RunEvent::Done), quiet());
    assert_eq!(run.stage, RunStage::Broadcasting);
    assert_eq!(run.step(RunEvent::Done), quiet());
    assert_eq!(run.stage, CONTINUE);

    let reload = MessagePlan::Request {
        command: "reload_config".to_string(),
    };
    let mut run = begun(reload.clone());
    run.step(RunEvent::RequestHandled {
        ok: false,
        broadcast: false,
    });
    assert_eq!(run.stage, RunStage::Answering { broadcast: false });
    run.step(RunEvent::Done);
    assert_eq!(run.stage, CONTINUE);

    let mut run = begun(reload);
    run.step(RunEvent::RequestHandled {
        ok: true,
        broadcast: true,
    });
    let origin = ReloadOrigin::Client { broadcast: true };
    assert_eq!(run.stage, RunStage::StartingHotkeys { origin });
    run.step(RunEvent::Started(Ok(())));
    run.step(RunEvent::Started(Ok(())));
    let news = run.step(adopted(false));
    assert_eq!(
        news.lines,
        vec![
            line(
                OutputStream::Standard,
                "global hotkeys reloaded via IPC: disabled"
            ),
            line(
                OutputStream::Standard,
                "touchpad override reloaded via IPC: off"
            ),
        ]
    );
    assert_eq!(news.record, None);
    assert_eq!(run.stage, RunStage::Answering { broadcast: true });
}

#[test]
fn a_click_activates_its_window_afterwards() {
    let plan = overview(OverviewFollowUp::ActivateWindow { raw_hwnd: 12 });
    let mut run = begun(plan.clone());
    assert_eq!(
        run.step(RunEvent::Reported(Ok(()))),
        recorded("overview action: something")
    );
    assert!(matches!(run.stage, RunStage::Syncing { .. }));
    assert_eq!(run.step(RunEvent::Done), quiet());
    assert_eq!(run.stage, RunStage::Activating { raw_hwnd: 12 });
    assert_eq!(
        run.step(RunEvent::Acted(failure("gone"))),
        told(
            "watch: overview-activate-window-error hwnd=12 error=gone",
            OutputStream::Error,
            "overview click activation failed: gone"
        )
    );
    assert_eq!(run.stage, CONTINUE);

    let mut run = begun(plan.clone());
    run.step(RunEvent::Reported(Ok(())));
    run.step(RunEvent::Done);
    assert_eq!(
        run.step(RunEvent::Acted(Ok(()))),
        logged("watch: overview-activate-window-ok hwnd=12")
    );

    let (mut run, _) = MessageRun::begin(plan.clone(), true);
    run.step(RunEvent::Reported(Ok(())));
    assert_eq!(
        run.step(RunEvent::Done),
        logged("watch: overview-activate-window-dry-run hwnd=12")
    );
    assert_eq!(run.stage, CONTINUE);

    let mut run = begun(plan);
    assert_eq!(
        run.step(RunEvent::Reported(failure("broken"))),
        printed(OutputStream::Error, "broken")
    );
    assert_eq!(run.stage, GIVE_UP);
}

#[test]
fn other_overview_requests_are_logged() {
    let mut run = begun(overview(OverviewFollowUp::Dismissed));
    run.step(RunEvent::Reported(Ok(())));
    assert_eq!(
        run.step(RunEvent::Done),
        logged("watch: overview-dismiss-ok")
    );
    assert_eq!(run.stage, CONTINUE);

    let mut run = begun(overview(OverviewFollowUp::ColumnMoved {
        source_column_id: ColumnId::new(5),
        target_workspace_id: WorkspaceId::new(20),
        anchor_column_id: None,
    }));
    run.step(RunEvent::Reported(Ok(())));
    assert_eq!(
        run.step(RunEvent::Done),
        logged("watch: overview-move-column-ok column=5 target_workspace=20 anchor=None")
    );
    assert_eq!(run.stage, CONTINUE);

    let ignored = MessagePlan::Overview(OverviewPlan::Ignore {
        log: "watch: overview-dismiss-ignored".to_string(),
    });
    let (run, news) = MessageRun::begin(ignored, false);
    assert_eq!(news, logged("watch: overview-dismiss-ignored"));
    assert_eq!(run.stage, CONTINUE);
}

#[test]
fn the_rest_of_the_commands_goes_through() {
    let mut run = command(WatchPlan::Snapshot);
    assert_eq!(run.stage, RunStage::PrintingSnapshot);
    assert_eq!(run.step(RunEvent::Done), quiet());
    assert_eq!(run.stage, CONTINUE);

    let mut run = command(WatchPlan::Unwind);
    assert_eq!(
        run.stage,
        RunStage::Unwinding {
            reason: "manual-command"
        }
    );
    assert_eq!(
        run.step(RunEvent::Done),
        printed(
            OutputStream::Standard,
            "management disabled by emergency unwind"
        )
    );
    assert_eq!(run.stage, CONTINUE);

    let run = command(WatchPlan::Quit);
    assert_eq!(
        run.stage,
        RunStage::Finished {
            flow: WatchCommandFlow::Quit
        }
    );
}

#[test]
fn subscribers_are_kept_once_a_snapshot_reached_them() {
    let mut run = begun(MessagePlan::Subscription);
    assert_eq!(run.stage, RunStage::SendingSnapshot);
    run.step(RunEvent::Delivered(true));
    assert_eq!(run.stage, RunStage::AddingSubscriber);
    run.step(RunEvent::Done);
    assert_eq!(run.stage, CONTINUE);

    let mut run = begun(MessagePlan::Subscription);
    run.step(RunEvent::Delivered(false));
    assert_eq!(run.stage, CONTINUE);
}

#[test]
fn events_that_nobody_waits_for_change_nothing() {
    let mut run = command(WatchPlan::ReloadConfig);
    for event in [
        RunEvent::Done,
        RunEvent::Delivered(true),
        RunEvent::Started(failure("gone")),
        RunEvent::Acted(Ok(())),
        adopted(true),
    ] {
        assert_eq!(run.step(event), quiet());
        assert_eq!(run.stage, RunStage::Reloading);
    }
    let mut run = command(WatchPlan::Quit);
    let before = run;
    assert_eq!(run.step(RunEvent::Reported(failure("late"))), quiet());
    assert_eq!(run, before);
}
