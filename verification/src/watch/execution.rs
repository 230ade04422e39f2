//! Carrying out what a message comes to.
//!
//! A run goes from stage to stage. A stage says what has to be done; what came of it is the
//! event that leads to the next one. On the way something may have to be logged, printed or
//! recorded. The last stage says how the watch loop goes on.

use crate::ids::{ColumnId, WorkspaceId};
use crate::text::same_text;
use crate::watch::commands::{
    manual_banner, no_focused_window, report_closed_selector, restart_failure,
    run_manual_side_effect, ActionReport, DomainEvent, OutputStream, SideEffect, WatchCommandFlow,
    WatchPlan,
};
use crate::watch::control_plane::{
    moved_column_log, report_activation, ActivationOutcome, MessagePlan, OverviewFollowUp,
    OverviewPlan,
};
use crate::watch::support::print_reloaded_input_status;
use vstd::prelude::*;
use vstd::string::*;

verus! {

use crate::text::decimal;
use crate::watch::control_plane::moved_column_text;
use crate::watch::support::enabled_word;

/// Who asked for a reload of the configuration.
#[derive(Clone, Copy, Debug, PartialEq, Eq, Structural)]
pub enum ReloadOrigin {
    Manual,
    /// A client, whose request may call for a broadcast of the state.
    Client { broadcast: bool },
}

/// What a request to the window manager is announced as, and what follows it.
#[derive(Clone, Copy, Debug, PartialEq, Eq)]
pub enum Announcement {
    Manual { user_label: &'static str },
    Overview { banner: &'static str, follow_up: OverviewFollowUp },
}

/// What has to be done.
#[derive(Clone, Copy, Debug, PartialEq, Eq)]
pub enum RunStage {
    /// Hand a request to the window manager.
    Dispatching { event: DomainEvent, runtime_label: &'static str, announcement: Announcement },
    /// Bring the surfaces up to date.
    Syncing { follow_up: OverviewFollowUp },
    Activating { raw_hwnd: u64 },
    OpeningTerminal,
    OpeningSelector,
    ClosingSelector,
    ClosingWindow { hwnd: u64 },
    Reloading,
    Rescanning,
    StartingHotkeys { origin: ReloadOrigin },
    StartingTouchpad { origin: ReloadOrigin },
    /// Put the listeners that were started in the place of the old ones.
    Adopting { origin: ReloadOrigin },
    PrintingSnapshot,
    Unwinding { reason: &'static str },
    /// Have a client's request carried out, which may be one for a reload.
    HandlingRequest { reload: bool },
    /// Send the answer to the client.
    Answering { broadcast: bool },
    Broadcasting,
    /// Send a first snapshot to a client that wants to be told of changes.
    SendingSnapshot,
    AddingSubscriber,
    Finished { flow: WatchCommandFlow },
}

/// What came of a stage.
#[derive(Debug)]
pub enum RunEvent {
    /// The window manager gave a report, or failed.
    Reported(Result<(), String>),
    /// Something was done outside of the window manager.
    Acted(Result<(), String>),
    /// Whether a selector was open and has been closed.
    SelectorClosed(Result<bool, String>),
    /// A listener was started.
    Started(Result<(), String>),
    /// The listeners are in place.
    Adopted { hotkeys: bool, touchpad_status: String },
    /// A client's request was carried out.
    RequestHandled { ok: bool, broadcast: bool },
    /// Whether a snapshot reached the client.
    Delivered(bool),
    Done,
}

#[derive(Clone, Debug, PartialEq, Eq)]
pub struct PrintedLine {
    pub stream: OutputStream,
    pub text: String,
}

/// What is told of an event: what is logged, what is printed, and what the report of the
/// window manager is recorded as, in this order.
#[derive(Clone, Debug, PartialEq, Eq)]
pub struct RunNews {
    pub log: Option<String>,
    pub lines: Vec<PrintedLine>,
    pub record: Option<String>,
}

#[verifier::ext_equal]
pub ghost struct RunNewsView {
    pub log: Option<Seq<char>>,
    pub lines: Seq<(OutputStream, Seq<char>)>,
    pub record: Option<Seq<char>>,
}

pub open spec fn optional_text(text: Option<String>) -> Option<Seq<char>> {
    match text {
        Some(text) => Some(text@),
        None => None,
    }
}

impl View for RunNews {
    type V = RunNewsView;

    open spec fn view(&self) -> RunNewsView {
        RunNewsView {
            log: optional_text(self.log),
            lines: self.lines@.map_values(|line: PrintedLine| (line.stream, line.text@)),
            record: optional_text(self.record),
        }
    }
}

/// Nothing is told.
pub open spec fn quiet() -> RunNewsView {
    RunNewsView { log: None, lines: Seq::empty(), record: None }
}

pub open spec fn logged(log: Seq<char>) -> RunNewsView {
    RunNewsView { log: Some(log), ..quiet() }
}

pub open spec fn printed(stream: OutputStream, text: Seq<char>) -> RunNewsView {
    RunNewsView { lines: seq![(stream, text)], ..quiet() }
}

pub open spec fn recorded(banner: Seq<char>) -> RunNewsView {
    RunNewsView { record: Some(banner), ..quiet() }
}

pub open spec fn told(log: Seq<char>, stream: OutputStream, text: Seq<char>) -> RunNewsView {
    RunNewsView { log: Some(log), ..printed(stream, text) }
}

fn quiet_news() -> (r: RunNews)
    ensures
        r@ == quiet(),
{
    let r: RunNews = RunNews { log: None, lines: Vec::new(), record: None };
    assert(r@ =~= quiet());
    r
}

fn logged_news(log: String) -> (r: RunNews)
    ensures
        r@ == logged(log@),
{
    let r: RunNews = RunNews { log: Some(log), lines: Vec::new(), record: None };
    assert(r@ =~= logged(log@));
    r
}

fn printed_news(stream: OutputStream, text: String) -> (r: RunNews)
    ensures
        r@ == printed(stream, text@),
{
    let mut lines: Vec<PrintedLine> = Vec::new();
    lines.push(PrintedLine { stream, text });
    let r: RunNews = RunNews { log: None, lines, record: None };
    assert(r@ =~= printed(stream, text@));
    r
}

fn recorded_news(banner: String) -> (r: RunNews)
    ensures
        r@ == recorded(banner@),
{
    let r: RunNews = RunNews { log: None, lines: Vec::new(), record: Some(banner) };
    assert(r@ =~= recorded(banner@));
    r
}

fn told_news(report: ActionReport) -> (r: RunNews)
    ensures
        r@ == told(report.log@, report.stream, report.line@),
{
    let mut lines: Vec<PrintedLine> = Vec::new();
    lines.push(PrintedLine { stream: report.stream, text: report.line });
    let r: RunNews = RunNews { log: Some(report.log), lines, record: None };
    assert(r@ =~= told(report.log@, report.stream, report.line@));
    r
}

/// What is told of a side effect.
pub open spec fn effect_news(effect: SideEffect, result: Result<(), String>) -> RunNewsView {
    match result {
        Ok(_) => told(
            "watch: "@ + effect.user_label() + "-ok"@,
            OutputStream::Standard,
            "manual command: "@ + effect.user_label(),
        ),
        Err(error) => told(
            "watch: "@ + effect.user_label() + "-error="@ + error@,
            OutputStream::Error,
            effect.error_banner() + ": "@ + error@,
        ),
    }
}

/// What is told of a window that was clicked and then activated.
pub open spec fn activation_news(raw_hwnd: u64, result: Result<(), String>) -> RunNewsView {
    match result {
        Ok(_) => logged("watch: overview-activate-window-ok hwnd="@ + decimal(raw_hwnd as nat)),
        Err(error) => told(
            "watch: overview-activate-window-error hwnd="@ + decimal(raw_hwnd as nat) + " error="@
                + error@,
            OutputStream::Error,
            "overview click activation failed: "@ + error@,
        ),
    }
}

fn activation_report(raw_hwnd: u64, result: Result<(), String>) -> (r: RunNews)
    ensures
        r@ == activation_news(raw_hwnd, result),
{
    let outcome: ActivationOutcome = match result {
        Ok(_) => ActivationOutcome::Activated,
        Err(error) => ActivationOutcome::Failed(error),
    };
    let (log, line) = report_activation(raw_hwnd, outcome);
    match line {
        Some(line) => told_news(ActionReport { log, line, stream: OutputStream::Error }),
        None => logged_news(log),
    }
}

impl ReloadOrigin {
    /// How what is said of a reload tells who asked for it.
    pub open spec fn suffix(self) -> Seq<char> {
        match self {
            ReloadOrigin::Manual => ""@,
            ReloadOrigin::Client { .. } => " via IPC"@,
        }
    }

    fn suffix_text(self) -> (r: &'static str)
        ensures
            r@ == self.suffix(),
    {
        match self {
            ReloadOrigin::Manual => "",
            ReloadOrigin::Client { .. } => " via IPC",
        }
    }
}

/// The end of a run after which the loop goes on.
pub open spec fn goes_on() -> RunStage {
    RunStage::Finished { flow: WatchCommandFlow::Continue }
}

/// The end of a run that also ends the loop, with an exit code that tells of a failure.
pub open spec fn gives_up() -> RunStage {
    RunStage::Finished { flow: WatchCommandFlow::Exit(1) }
}

/// What follows a listener that could not be started again.
pub open spec fn restart_failed(listener: Seq<char>, origin: ReloadOrigin, error: Seq<char>) -> (
    RunStage,
    RunNewsView,
) {
    (
        gives_up(),
        printed(
            OutputStream::Error,
            listener + " failed to restart"@ + origin.suffix() + ": "@ + error,
        ),
    )
}

/// What is told once the listeners are in place. A reload that was asked for by hand is
/// recorded.
pub open spec fn adopted_news(
    origin: ReloadOrigin,
    hotkeys: bool,
    touchpad_status: Seq<char>,
) -> RunNewsView {
    RunNewsView {
        log: None,
        lines: seq![
            (
                OutputStream::Standard,
                "global hotkeys reloaded"@ + origin.suffix() + ": "@ + enabled_word(hotkeys),
            ),
            (
                OutputStream::Standard,
                "touchpad override reloaded"@ + origin.suffix() + ": "@ + touchpad_status,
            ),
        ],
        record: match origin {
            ReloadOrigin::Manual => Some("manual command: reload-config"@),
            ReloadOrigin::Client { .. } => None,
        },
    }
}

fn adopted_report(origin: ReloadOrigin, hotkeys: bool, touchpad_status: &str) -> (r: RunNews)
    ensures
        r@ == adopted_news(origin, hotkeys, touchpad_status@),
{
    let (first, second) = print_reloaded_input_status(
        hotkeys,
        touchpad_status,
        origin.suffix_text(),
    );
    let mut lines: Vec<PrintedLine> = Vec::new();
    lines.push(PrintedLine { stream: OutputStream::Standard, text: first });
    lines.push(PrintedLine { stream: OutputStream::Standard, text: second });
    let record: Option<String> = match origin {
        ReloadOrigin::Manual => Some("manual command: reload-config".to_owned()),
        ReloadOrigin::Client { .. } => None,
    };
    let r: RunNews = RunNews { log: None, lines, record };
    assert(r@ =~= adopted_news(origin, hotkeys, touchpad_status@));
    r
}

/// The stage that a plan begins with, and what is told at once. There is nothing to do where
/// no window can be closed, where a request of the overview is ignored, and to quit.
pub open spec fn beginning(plan: MessagePlan) -> (RunStage, RunNewsView) {
    match plan {
        MessagePlan::Command(plan) => match plan {
            WatchPlan::Dispatch { event, runtime_label, user_label } => (
                RunStage::Dispatching {
                    event,
                    runtime_label,
                    announcement: Announcement::Manual { user_label },
                },
                quiet(),
            ),
            WatchPlan::OpenTerminal => (RunStage::OpeningTerminal, quiet()),
            WatchPlan::ToggleWallpaperSelector => (RunStage::ClosingSelector, quiet()),
            WatchPlan::CloseWindow { hwnd: Some(hwnd) } => (
                RunStage::ClosingWindow { hwnd },
                quiet(),
            ),
            WatchPlan::CloseWindow { hwnd: None } => (
                goes_on(),
                told(
                    "watch: "@ + SideEffect::CloseWindow.user_label() + "-error="@
                        + "no focused managed window is currently bound to an HWND"@,
                    OutputStream::Error,
                    SideEffect::CloseWindow.error_banner() + ": "@
                        + "no focused managed window is currently bound to an HWND"@,
                ),
            ),
            WatchPlan::ReloadConfig => (RunStage::Reloading, quiet()),
            WatchPlan::Snapshot => (RunStage::PrintingSnapshot, quiet()),
            WatchPlan::Unwind => (RunStage::Unwinding { reason: "manual-command" }, quiet()),
            WatchPlan::Rescan => (RunStage::Rescanning, quiet()),
            WatchPlan::Quit => (RunStage::Finished { flow: WatchCommandFlow::Quit }, quiet()),
        },
        MessagePlan::Overview(plan) => match plan {
            OverviewPlan::Ignore { log } => (goes_on(), logged(log@)),
            OverviewPlan::Dispatch { event, runtime_label, banner, follow_up } => (
                RunStage::Dispatching {
                    event,
                    runtime_label,
                    announcement: Announcement::Overview { banner, follow_up },
                },
                quiet(),
            ),
        },
        MessagePlan::Request { command } => (
            RunStage::HandlingRequest { reload: command@ == "reload_config"@ },
            quiet(),
        ),
        MessagePlan::Subscription => (RunStage::SendingSnapshot, quiet()),
    }
}

/// The stage after an event, and what is told of it. An event that does not belong to a stage
/// changes nothing.
pub open spec fn after(stage: RunStage, event: RunEvent, dry_run: bool) -> (RunStage, RunNewsView) {
    match (stage, event) {
        // The window manager failed.
        (
            RunStage::Dispatching { .. } | RunStage::Reloading | RunStage::Rescanning,
            RunEvent::Reported(Err(error)),
        ) => (gives_up(), printed(OutputStream::Error, error@)),
        (RunStage::Dispatching { announcement, .. }, RunEvent::Reported(Ok(_))) => {
            match announcement {
                Announcement::Manual { user_label } => (
                    goes_on(),
                    recorded("manual command: "@ + user_label@),
                ),
                Announcement::Overview { banner, follow_up } => (
                    RunStage::Syncing { follow_up },
                    recorded(banner@),
                ),
            }
        },
        (RunStage::Syncing { follow_up }, RunEvent::Done) => match follow_up {
            OverviewFollowUp::ActivateWindow { raw_hwnd } => if dry_run {
                (
                    goes_on(),
                    logged(
                        "watch: overview-activate-window-dry-run hwnd="@ + decimal(raw_hwnd as nat),
                    ),
                )
            } else {
                (RunStage::Activating { raw_hwnd }, quiet())
            },
            OverviewFollowUp::Dismissed => (goes_on(), logged("watch: overview-dismiss-ok"@)),
            OverviewFollowUp::ColumnMoved {
                source_column_id,
                target_workspace_id,
                anchor_column_id,
            } => (
                goes_on(),
                logged(moved_column_text(source_column_id, target_workspace_id, anchor_column_id)),
            ),
        },
        (RunStage::Activating { raw_hwnd }, RunEvent::Acted(result)) => (
            goes_on(),
            activation_news(raw_hwnd, result),
        ),
        (RunStage::OpeningTerminal, RunEvent::Acted(result)) => (
            goes_on(),
            effect_news(SideEffect::OpenTerminal, result),
        ),
        (RunStage::OpeningSelector, RunEvent::Acted(result)) => (
            goes_on(),
            effect_news(SideEffect::OpenWallpaperSelector, result),
        ),
        (RunStage::ClosingWindow { .. }, RunEvent::Acted(result)) => (
            goes_on(),
            effect_news(SideEffect::CloseWindow, result),
        ),
        (RunStage::ClosingSelector, RunEvent::SelectorClosed(closed)) => match closed {
            Ok(true) => (
                goes_on(),
                told(
                    "watch: close-wallpaper-selector-ok"@,
                    OutputStream::Standard,
                    "manual command: close-wallpaper-selector"@,
                ),
            ),
            Ok(false) => (RunStage::OpeningSelector, quiet()),
            Err(error) => (
                goes_on(),
                told(
                    "watch: close-wallpaper-selector-error="@ + error@,
                    OutputStream::Error,
                    "close wallpaper selector failed: "@ + error@,
                ),
            ),
        },
        (RunStage::Reloading, RunEvent::Reported(Ok(_))) => (
            RunStage::StartingHotkeys { origin: ReloadOrigin::Manual },
            quiet(),
        ),
        (RunStage::Rescanning, RunEvent::Reported(Ok(_))) => (
            goes_on(),
            recorded("manual rescan"@),
        ),
        (RunStage::StartingHotkeys { origin }, RunEvent::Started(result)) => match result {
            Ok(_) => (RunStage::StartingTouchpad { origin }, quiet()),
            Err(error) => restart_failed("global hotkeys"@, origin, error@),
        },
        (RunStage::StartingTouchpad { origin }, RunEvent::Started(result)) => match result {
            Ok(_) => (RunStage::Adopting { origin }, quiet()),
            Err(error) => restart_failed("touchpad override"@, origin, error@),
        },
        (RunStage::Adopting { origin }, RunEvent::Adopted { hotkeys, touchpad_status }) => (
            match origin {
                ReloadOrigin::Manual => goes_on(),
                ReloadOrigin::Client { broadcast } => RunStage::Answering { broadcast },
            },
            adopted_news(origin, hotkeys, touchpad_status@),
        ),
        (RunStage::PrintingSnapshot, RunEvent::Done) => (goes_on(), quiet()),
        (RunStage::Unwinding { .. }, RunEvent::Done) => (
            goes_on(),
            printed(OutputStream::Standard, "management disabled by emergency unwind"@),
        ),
        (RunStage::HandlingRequest { reload }, RunEvent::RequestHandled { ok, broadcast }) => (
            if reload && ok {
                RunStage::StartingHotkeys { origin: ReloadOrigin::Client { broadcast } }
            } else {
                RunStage::Answering { broadcast }
            },
            quiet(),
        ),
        (RunStage::Answering { broadcast }, RunEvent::Done) => (
            if broadcast {
                RunStage::Broadcasting
            } else {
                goes_on()
            },
            quiet(),
        ),
        (RunStage::Broadcasting, RunEvent::Done) => (goes_on(), quiet()),
        (RunStage::SendingSnapshot, RunEvent::Delivered(delivered)) => (
            if delivered {
                RunStage::AddingSubscriber
            } else {
                goes_on()
            },
            quiet(),
        ),
        (RunStage::AddingSubscriber, RunEvent::Done) => (goes_on(), quiet()),
        _ => (stage, quiet()),
    }
}

/// A message that is being carried out.
#[derive(Clone, Copy, Debug, PartialEq, Eq)]
pub struct MessageRun {
    pub stage: RunStage,
    /// No window is touched in a dry run.
    pub dry_run: bool,
}

fn continuing() -> (r: RunStage)
    ensures
        r == goes_on(),
{
    RunStage::Finished { flow: WatchCommandFlow::Continue }
}

fn giving_up() -> (r: RunStage)
    ensures
        r == gives_up(),
{
    RunStage::Finished { flow: WatchCommandFlow::Exit(1) }
}

impl MessageRun {
    /// Begins to carry a plan out.
    pub fn begin(plan: MessagePlan, dry_run: bool) -> (r: (MessageRun, RunNews))
        ensures
            (r.0.stage, r.1@) == beginning(plan),
            r.0.dry_run == dry_run,
    {
        let (stage, news) = match plan {
            MessagePlan::Command(plan) => Self::begin_command(plan),
            MessagePlan::Overview(OverviewPlan::Ignore { log }) => {
                (continuing(), logged_news(log))
            },
            MessagePlan::Overview(
                OverviewPlan::Dispatch { event, runtime_label, banner, follow_up },
            ) => {
                (
                    RunStage::Dispatching {
                        event,
                        runtime_label,
                        announcement: Announcement::Overview { banner, follow_up },
                    },
                    quiet_news(),
                )
            },
            MessagePlan::Request { command } => {
                let reload: bool = same_text(command.as_str(), "reload_config");
                (RunStage::HandlingRequest { reload }, quiet_news())
            },
            MessagePlan::Subscription => (RunStage::SendingSnapshot, quiet_news()),
        };
        (MessageRun { stage, dry_run }, news)
    }

    fn begin_command(plan: WatchPlan) -> (r: (RunStage, RunNews))
        ensures
            (r.0, r.1@) == beginning(MessagePlan::Command(plan)),
    {
        let stage: RunStage = match plan {
            WatchPlan::Dispatch { event, runtime_label, user_label } => RunStage::Dispatching {
                event,
                runtime_label,
                announcement: Announcement::Manual { user_label },
            },
            WatchPlan::OpenTerminal => RunStage::OpeningTerminal,
            WatchPlan::ToggleWallpaperSelector => RunStage::ClosingSelector,
            WatchPlan::CloseWindow { hwnd: Some(hwnd) } => RunStage::ClosingWindow { hwnd },
            WatchPlan::CloseWindow { hwnd: None } => {
                let report: ActionReport = run_manual_side_effect(
                    SideEffect::CloseWindow,
                    Err(no_focused_window()),
                );
                return (continuing(), told_news(report));
            },
            WatchPlan::ReloadConfig => RunStage::Reloading,
            WatchPlan::Snapshot => RunStage::PrintingSnapshot,
            WatchPlan::Unwind => RunStage::Unwinding { reason: "manual-command" },
            WatchPlan::Rescan => RunStage::Rescanning,
            WatchPlan::Quit => RunStage::Finished { flow: WatchCommandFlow::Quit },
        };
        (stage, quiet_news())
    }

    /// Takes the run to its next stage.
    pub fn step(&mut self, event: RunEvent) -> (r: RunNews)
        ensures
            (final(self).stage, r@) == after(old(self).stage, event, old(self).dry_run),
            final(self).dry_run == old(self).dry_run,
    {
        let (stage, news) = match (self.stage, event) {
            (
                RunStage::Dispatching { .. } | RunStage::Reloading | RunStage::Rescanning,
                RunEvent::Reported(Err(error)),
            ) => (giving_up(), printed_news(OutputStream::Error, error)),
            (RunStage::Dispatching { announcement, .. }, RunEvent::Reported(Ok(_))) => {
                match announcement {
                    Announcement::Manual { user_label } => (
                        continuing(),
                        recorded_news(manual_banner(user_label)),
                    ),
                    Announcement::Overview { banner, follow_up } => (
                        RunStage::Syncing { follow_up },
                        recorded_news(banner.to_owned()),
                    ),
                }
            },
            (RunStage::Syncing { follow_up }, RunEvent::Done) => Self::follow(
                follow_up,
                self.dry_run,
            ),
            (RunStage::Activating { raw_hwnd }, RunEvent::Acted(result)) => (
                continuing(),
                activation_report(raw_hwnd, result),
            ),
            (RunStage::OpeningTerminal, RunEvent::Acted(result)) => (
                continuing(),
                told_news(run_manual_side_effect(SideEffect::OpenTerminal, result)),
            ),
            (RunStage::OpeningSelector, RunEvent::Acted(result)) => (
                continuing(),
                told_news(run_manual_side_effect(SideEffect::OpenWallpaperSelector, result)),
            ),
            (RunStage::ClosingWindow { .. }, RunEvent::Acted(result)) => (
                continuing(),
                told_news(run_manual_side_effect(SideEffect::CloseWindow, result)),
            ),
            (RunStage::ClosingSelector, RunEvent::SelectorClosed(closed)) => {
                match report_closed_selector(closed) {
                    Some(report) => (continuing(), told_news(report)),
                    None => (RunStage::OpeningSelector, quiet_news()),
                }
            },
            (RunStage::Reloading, RunEvent::Reported(Ok(_))) => (
                RunStage::StartingHotkeys { origin: ReloadOrigin::Manual },
                quiet_news(),
            ),
            (RunStage::Rescanning, RunEvent::Reported(Ok(_))) => (
                continuing(),
                recorded_news("manual rescan".to_owned()),
            ),
            (RunStage::StartingHotkeys { origin }, RunEvent::Started(result)) => match result {
                Ok(_) => (RunStage::StartingTouchpad { origin }, quiet_news()),
                Err(error) => Self::not_restarted("global hotkeys", origin, error.as_str()),
            },
            (RunStage::StartingTouchpad { origin }, RunEvent::Started(result)) => match result {
                Ok(_) => (RunStage::Adopting { origin }, quiet_news()),
                Err(error) => Self::not_restarted("touchpad override", origin, error.as_str()),
            },
            (RunStage::Adopting { origin }, RunEvent::Adopted { hotkeys, touchpad_status }) => {
                let next: RunStage = match origin {
                    ReloadOrigin::Manual => continuing(),
                    ReloadOrigin::Client { broadcast } => RunStage::Answering { broadcast },
                };
                (next, adopted_report(origin, hotkeys, touchpad_status.as_str()))
            },
            (RunStage::PrintingSnapshot, RunEvent::Done) => (continuing(), quiet_news()),
            (RunStage::Unwinding { .. }, RunEvent::Done) => (
                continuing(),
                printed_news(
                    OutputStream::Standard,
                    "management disabled by emergency unwind".to_owned(),
                ),
            ),
            (RunStage::HandlingRequest { reload }, RunEvent::RequestHandled { ok, broadcast }) => {
                if reload && ok {
                    (
                        RunStage::StartingHotkeys { origin: ReloadOrigin::Client { broadcast } },
                        quiet_news(),
                    )
                } else {
                    (RunStage::Answering { broadcast }, quiet_news())
                }
            },
            (RunStage::Answering { broadcast }, RunEvent::Done) => {
                if broadcast {
                    (RunStage::Broadcasting, quiet_news())
                } else {
                    (continuing(), quiet_news())
                }
            },
            (RunStage::Broadcasting, RunEvent::Done) => (continuing(), quiet_news()),
            (RunStage::SendingSnapshot, RunEvent::Delivered(delivered)) => {
                if delivered {
                    (RunStage::AddingSubscriber, quiet_news())
                } else {
                    (continuing(), quiet_news())
                }
            },
            (RunStage::AddingSubscriber, RunEvent::Done) => (continuing(), quiet_news()),
            (stage, _) => (stage, quiet_news()),
        };
        self.stage = stage;
        news
    }

    fn follow(follow_up: OverviewFollowUp, dry_run: bool) -> (r: (RunStage, RunNews))
        ensures
            (r.0, r.1@) == after(RunStage::Syncing { follow_up }, RunEvent::Done, dry_run),
    {
        match follow_up {
            OverviewFollowUp::ActivateWindow { raw_hwnd } => {
                if dry_run {
                    let (log, _) = report_activation(raw_hwnd, ActivationOutcome::DryRun);
                    (continuing(), logged_news(log))
                } else {
                    (RunStage::Activating { raw_hwnd }, quiet_news())
                }
            },
            OverviewFollowUp::Dismissed => (
                continuing(),
                logged_news("watch: overview-dismiss-ok".to_owned()),
            ),
            OverviewFollowUp::ColumnMoved {
                source_column_id,
                target_workspace_id,
                anchor_column_id,
            } => {
                let log: String = moved_column_log(
                    source_column_id,
                    target_workspace_id,
                    anchor_column_id,
                );
                (continuing(), logged_news(log))
            },
        }
    }

    fn not_restarted(listener: &str, origin: ReloadOrigin, error: &str) -> (r: (RunStage, RunNews))
        ensures
            (r.0, r.1@) == restart_failed(listener@, origin, error@),
    {
        let (text, flow) = restart_failure(listener, origin.suffix_text(), error);
        (RunStage::Finished { flow }, printed_news(OutputStream::Error, text))
    }
}

/// Whether an event is one that a stage waits for.
pub open spec fn awaits(stage: RunStage, event: RunEvent) -> bool {
    match stage {
        RunStage::Dispatching { .. } | RunStage::Reloading | RunStage::Rescanning => {
            event is Reported
        },
        RunStage::Activating { .. }
        | RunStage::OpeningTerminal
        | RunStage::OpeningSelector
        | RunStage::ClosingWindow { .. } => event is Acted,
        RunStage::ClosingSelector => event is SelectorClosed,
        RunStage::StartingHotkeys { .. } | RunStage::StartingTouchpad { .. } => event is Started,
        RunStage::Adopting { .. } => event is Adopted,
        RunStage::HandlingRequest { .. } => event is RequestHandled,
        RunStage::SendingSnapshot => event is Delivered,
        RunStage::Syncing { .. }
        | RunStage::PrintingSnapshot
        | RunStage::Unwinding { .. }
        | RunStage::Answering { .. }
        | RunStage::Broadcasting
        | RunStage::AddingSubscriber => event is Done,
        RunStage::Finished { .. } => false,
    }
}

/// How many stages are still to come, at most.
pub open spec fn stages_left(stage: RunStage) -> nat {
    match stage {
        RunStage::HandlingRequest { .. } => 7,
        RunStage::Reloading => 6,
        RunStage::StartingHotkeys { .. } => 5,
        RunStage::StartingTouchpad { .. } => 4,
        RunStage::Adopting { .. } => 3,
        RunStage::Dispatching { .. } => 3,
        RunStage::Syncing { .. }
        | RunStage::ClosingSelector
        | RunStage::Answering { .. }
        | RunStage::SendingSnapshot => 2,
        RunStage::Finished { .. } => 0,
        _ => 1,
    }
}

/// Every run comes to its end: whatever came of a stage leads on, and nothing else does.
pub proof fn law_a_run_ends(stage: RunStage, event: RunEvent, dry_run: bool)
    ensures
        awaits(stage, event) ==> stages_left(after(stage, event, dry_run).0) < stages_left(stage),
        !awaits(stage, event) ==> after(stage, event, dry_run) == (stage, quiet()),
        stages_left(stage) == 0 <==> stage is Finished,
{
}

/// Whether the window manager failed, or a listener could not be started again.
pub open spec fn is_fatal(stage: RunStage, event: RunEvent) -> bool {
    awaits(stage, event) && match event {
        RunEvent::Reported(result) | RunEvent::Started(result) => result is Err,
        _ => false,
    }
}

/// The stage that a run has reached after some events.
pub open spec fn reached(plan: MessagePlan, events: Seq<RunEvent>, dry_run: bool) -> RunStage
    decreases events.len(),
{
    if events.len() == 0 {
        beginning(plan).0
    } else {
        after(reached(plan, events.drop_last(), dry_run), events.last(), dry_run).0
    }
}

/// Whether something fatal was among the events of a run.
pub open spec fn has_failed(plan: MessagePlan, events: Seq<RunEvent>, dry_run: bool) -> bool
    decreases events.len(),
{
    events.len() > 0 && (has_failed(plan, events.drop_last(), dry_run) || is_fatal(
        reached(plan, events.drop_last(), dry_run),
        events.last(),
    ))
}

/// How the loop goes on once a message has been carried out: a failure of the window manager,
/// or of a listener that is started again, ends it with exit code 1; the command to quit ends
/// it; and it goes on after everything else, whatever came of it.
pub proof fn law_failures_end_the_loop(plan: MessagePlan, events: Seq<RunEvent>, dry_run: bool)
    ensures
        has_failed(plan, events, dry_run) <==> reached(plan, events, dry_run) == gives_up(),
        reached(plan, events, dry_run) matches RunStage::Finished { flow } ==> flow == (
        if has_failed(plan, events, dry_run) {
            WatchCommandFlow::Exit(1)
        } else if plan == MessagePlan::Command(WatchPlan::Quit) {
            WatchCommandFlow::Quit
        } else {
            WatchCommandFlow::Continue
        }),
        plan == MessagePlan::Command(WatchPlan::Quit) ==> reached(plan, events, dry_run) == (
        RunStage::Finished { flow: WatchCommandFlow::Quit }),
    decreases events.len(),
{
    if events.len() > 0 {
        law_failures_end_the_loop(plan, events.drop_last(), dry_run);
    }
}

/// Nothing is recorded of what failed, and a failure is told to the user.
pub proof fn law_failures_are_told(stage: RunStage, event: RunEvent, dry_run: bool)
    requires
        is_fatal(stage, event),
    ensures
        after(stage, event, dry_run).1.record is None,
        after(stage, event, dry_run).1.log is None,
        after(stage, event, dry_run).1.lines.len() == 1,
        after(stage, event, dry_run).1.lines[0].0 == OutputStream::Error,
{
}

/// A dry run activates no window.
pub proof fn law_a_dry_run_activates_nothing(plan: MessagePlan, events: Seq<RunEvent>)
    ensures
        !(reached(plan, events, true) is Activating),
    decreases events.len(),
{
    if events.len() > 0 {
        law_a_dry_run_activates_nothing(plan, events.drop_last());
    }
}

/// A client is answered once its request has been carried out; where that was a reload, once
/// both listeners have been started again as well. It is not answered where one of them could
/// not be.
pub proof fn law_clients_are_answered(
    stage: RunStage,
    ok: bool,
    broadcast: bool,
    hotkeys_started: Result<(), String>,
    touchpad_started: Result<(), String>,
    adopted: RunEvent,
    dry_run: bool,
)
    requires
        stage is HandlingRequest,
        adopted is Adopted,
    ensures
        ({
            let handled = after(stage, RunEvent::RequestHandled { ok, broadcast }, dry_run).0;
            let first = after(handled, RunEvent::Started(hotkeys_started), dry_run).0;
            let second = after(first, RunEvent::Started(touchpad_started), dry_run).0;
            if stage->reload && ok {
                if hotkeys_started is Err {
                    first == gives_up()
                } else if touchpad_started is Err {
                    second == gives_up()
                } else {
                    after(second, adopted, dry_run).0 == (RunStage::Answering { broadcast })
                }
            } else {
                handled == (RunStage::Answering { broadcast })
            }
        }),
{
}

/// Each plan begins with its own work; what cannot be done is told at once.
pub proof fn law_plans_begin_with_their_work(plan: WatchPlan, overview: OverviewPlan, name: String)
    ensures
        plan matches WatchPlan::Dispatch { event, runtime_label, user_label } ==> beginning(
            MessagePlan::Command(plan),
        ).0 == (RunStage::Dispatching {
            event,
            runtime_label,
            announcement: Announcement::Manual { user_label },
        }),
        plan is OpenTerminal ==> beginning(MessagePlan::Command(plan)).0
            == RunStage::OpeningTerminal,
        plan is ToggleWallpaperSelector ==> beginning(MessagePlan::Command(plan)).0
            == RunStage::ClosingSelector,
        plan matches WatchPlan::CloseWindow { hwnd: Some(hwnd) } ==> beginning(
            MessagePlan::Command(plan),
        ).0 == (RunStage::ClosingWindow { hwnd }),
        plan matches WatchPlan::CloseWindow { hwnd: None } ==> beginning(MessagePlan::Command(plan))
            == (
            RunStage::Finished { flow: WatchCommandFlow::Continue },
            RunNewsView {
                log: Some(
                    "watch: "@ + "close-window"@ + "-error="@
                        + "no focused managed window is currently bound to an HWND"@,
                ),
                lines: seq![
                    (
                        OutputStream::Error,
                        "close window failed"@ + ": "@
                            + "no focused managed window is currently bound to an HWND"@,
                    ),
                ],
                record: None,
            },
        ),
        plan is ReloadConfig ==> beginning(MessagePlan::Command(plan)).0 == RunStage::Reloading,
        plan is Snapshot ==> beginning(MessagePlan::Command(plan)).0 == RunStage::PrintingSnapshot,
        plan is Unwind ==> (beginning(MessagePlan::Command(plan)).0 matches RunStage::Unwinding {
            reason,
        } && reason@ == "manual-command"@),
        plan is Rescan ==> beginning(MessagePlan::Command(plan)).0 == RunStage::Rescanning,
        plan is Quit ==> beginning(MessagePlan::Command(plan)).0 == (RunStage::Finished {
            flow: WatchCommandFlow::Quit,
        }),
        overview matches OverviewPlan::Ignore { log } ==> beginning(
            MessagePlan::Overview(overview),
        ) == (
            RunStage::Finished { flow: WatchCommandFlow::Continue },
            RunNewsView { log: Some(log@), lines: Seq::empty(), record: None },
        ),
        overview matches OverviewPlan::Dispatch { event, runtime_label, banner, follow_up }
            ==> beginning(MessagePlan::Overview(overview)).0 == (RunStage::Dispatching {
            event,
            runtime_label,
            announcement: Announcement::Overview { banner, follow_up },
        }),
        beginning(MessagePlan::Request { command: name }).0 == (RunStage::HandlingRequest {
            reload: name@ == "reload_config"@,
        }),
        beginning(MessagePlan::Subscription).0 == RunStage::SendingSnapshot,
        !(plan matches WatchPlan::CloseWindow { hwnd: None }) ==> beginning(
            MessagePlan::Command(plan),
        ).1 == (RunNewsView { log: None, lines: Seq::empty(), record: None }),
{
}

/// What is recorded of a request that the window manager has carried out, and what follows it:
/// nothing after a manual one, the surfaces after one of the overview.
pub proof fn law_requests_are_recorded(stage: RunStage, dry_run: bool)
    ensures
        ({
            let (next, news) = after(stage, RunEvent::Reported(Ok(())), dry_run);
            &&& stage matches RunStage::Dispatching {
                announcement: Announcement::Manual { user_label },
                ..
            } ==> next == (RunStage::Finished { flow: WatchCommandFlow::Continue }) && news == (
            RunNewsView {
                log: None,
                lines: Seq::empty(),
                record: Some("manual command: "@ + user_label@),
            })
            &&& stage matches RunStage::Dispatching {
                announcement: Announcement::Overview { banner, follow_up },
                ..
            } ==> next == (RunStage::Syncing { follow_up }) && news == (RunNewsView {
                log: None,
                lines: Seq::empty(),
                record: Some(banner@),
            })
            &&& stage is Rescanning ==> next == (RunStage::Finished {
                flow: WatchCommandFlow::Continue,
            }) && news == (RunNewsView {
                log: None,
                lines: Seq::empty(),
                record: Some("manual rescan"@),
            })
            &&& stage is Reloading ==> next == (RunStage::StartingHotkeys {
                origin: ReloadOrigin::Manual,
            }) && news.record is None
        }),
{
}

/// After a request of the overview the surfaces are brought up to date first; then the clicked
/// window is activated, unless in a dry run, and what was done is logged.
pub proof fn law_the_overview_follows_up(
    raw_hwnd: u64,
    source: ColumnId,
    target: WorkspaceId,
    anchor: Option<ColumnId>,
    result: Result<(), String>,
)
    ensures
        ({
            let done = RunStage::Finished { flow: WatchCommandFlow::Continue };
            let click = RunStage::Syncing {
                follow_up: OverviewFollowUp::ActivateWindow { raw_hwnd },
            };
            let activated = after(
                RunStage::Activating { raw_hwnd },
                RunEvent::Acted(result),
                false,
            );
            &&& after(click, RunEvent::Done, false).0 == (RunStage::Activating { raw_hwnd })
            &&& after(click, RunEvent::Done, true) == (
                done,
                RunNewsView {
                    log: Some(
                        "watch: overview-activate-window-dry-run hwnd="@ + decimal(raw_hwnd as nat),
                    ),
                    lines: Seq::empty(),
                    record: None,
                },
            )
            &&& activated.0 == done
            &&& result is Ok ==> activated.1 == (RunNewsView {
                log: Some("watch: overview-activate-window-ok hwnd="@ + decimal(raw_hwnd as nat)),
                lines: Seq::empty(),
                record: None,
            })
            &&& result matches Err(error) ==> activated.1 == (RunNewsView {
                log: Some(
                    "watch: overview-activate-window-error hwnd="@ + decimal(raw_hwnd as nat)
                        + " error="@ + error@,
                ),
                lines: seq![
                    (OutputStream::Error, "overview click activation failed: "@ + error@),
                ],
                record: None,
            })
            &&& after(
                RunStage::Syncing { follow_up: OverviewFollowUp::Dismissed },
                RunEvent::Done,
                false,
            ) == (
                done,
                RunNewsView {
                    log: Some("watch: overview-dismiss-ok"@),
                    lines: Seq::empty(),
                    record: None,
                },
            )
            &&& after(
                RunStage::Syncing {
                    follow_up: OverviewFollowUp::ColumnMoved {
                        source_column_id: source,
                        target_workspace_id: target,
                        anchor_column_id: anchor,
                    },
                },
                RunEvent::Done,
                false,
            ) == (
                done,
                RunNewsView {
                    log: Some(moved_column_text(source, target, anchor)),
                    lines: Seq::empty(),
                    record: None,
                },
            )
        }),
{
}

/// The wallpaper selector is opened exactly where none was there to be closed.
pub proof fn law_the_selector_is_toggled(closed: Result<bool, String>, dry_run: bool)
    ensures
        ({
            let (next, news) = after(
                RunStage::ClosingSelector,
                RunEvent::SelectorClosed(closed),
                dry_run,
            );
            &&& next == RunStage::OpeningSelector <==> closed == Ok::<bool, String>(false)
            &&& next != RunStage::OpeningSelector ==> next == (RunStage::Finished {
                flow: WatchCommandFlow::Continue,
            })
            &&& closed == Ok::<bool, String>(true) ==> news.log == Some(
                "watch: close-wallpaper-selector-ok"@,
            ) && news.lines == seq![
                (OutputStream::Standard, "manual command: close-wallpaper-selector"@),
            ]
            &&& closed matches Err(error) ==> news.log == Some(
                "watch: close-wallpaper-selector-error="@ + error@,
            ) && news.lines == seq![
                (OutputStream::Error, "close wallpaper selector failed: "@ + error@),
            ]
            &&& news.record is None
        }),
{
}

/// A reload starts the listener for keys and then the one for gestures; both together take the
/// place of the old ones, of which the user is told. Only then is a manual reload recorded.
pub proof fn law_reloads_restart_the_listeners(
    origin: ReloadOrigin,
    error: String,
    hotkeys: bool,
    status: String,
    dry_run: bool,
)
    ensures
        ({
            let started = RunEvent::Started(Ok(()));
            let failed = RunEvent::Started(Err(error));
            let suffix = if origin == ReloadOrigin::Manual {
                ""@
            } else {
                " via IPC"@
            };
            let word = if hotkeys {
                "enabled"@
            } else {
                "disabled"@
            };
            let keys = RunStage::StartingHotkeys { origin };
            let gestures = RunStage::StartingTouchpad { origin };
            let end = RunStage::Finished { flow: WatchCommandFlow::Exit(1) };
            let (next, news) = after(
                RunStage::Adopting { origin },
                RunEvent::Adopted { hotkeys, touchpad_status: status },
                dry_run,
            );
            &&& after(keys, started, dry_run).0 == gestures
            &&& after(gestures, started, dry_run).0 == (RunStage::Adopting { origin })
            &&& after(keys, failed, dry_run).0 == end
            &&& after(keys, failed, dry_run).1.lines == seq![
                (
                    OutputStream::Error,
                    "global hotkeys"@ + " failed to restart"@ + suffix + ": "@ + error@,
                ),
            ]
            &&& after(gestures, failed, dry_run).0 == end
            &&& after(gestures, failed, dry_run).1.lines == seq![
                (
                    OutputStream::Error,
                    "touchpad override"@ + " failed to restart"@ + suffix + ": "@ + error@,
                ),
            ]
            &&& news.lines == seq![
                (
                    OutputStream::Standard,
                    "global hotkeys reloaded"@ + suffix + ": "@ + word,
                ),
                (
                    OutputStream::Standard,
                    "touchpad override reloaded"@ + suffix + ": "@ + status@,
                ),
            ]
            &&& origin is Manual ==> next == (RunStage::Finished {
                flow: WatchCommandFlow::Continue,
            }) && news.record == Some("manual command: reload-config"@)
            &&& origin matches ReloadOrigin::Client { broadcast } ==> next == (RunStage::Answering {
                broadcast,
            }) && news.record is None
        }),
{
}

/// A client is answered before the state is broadcast, which happens only where the request
/// calls for it; a subscriber is kept only where its first snapshot has reached it.
pub proof fn law_clients_are_served_in_order(broadcast: bool, delivered: bool, dry_run: bool)
    ensures
        ({
            let done = RunStage::Finished { flow: WatchCommandFlow::Continue };
            &&& after(RunStage::Answering { broadcast }, RunEvent::Done, dry_run).0 == (
            if broadcast {
                RunStage::Broadcasting
            } else {
                done
            })
            &&& after(RunStage::Broadcasting, RunEvent::Done, dry_run).0 == done
            &&& after(RunStage::SendingSnapshot, RunEvent::Delivered(delivered), dry_run).0 == (
            if delivered {
                RunStage::AddingSubscriber
            } else {
                done
            })
            &&& after(RunStage::AddingSubscriber, RunEvent::Done, dry_run).0 == done
            &&& after(RunStage::PrintingSnapshot, RunEvent::Done, dry_run).0 == done
            &&& after(
                RunStage::Unwinding { reason: "manual-command" },
                RunEvent::Done,
                dry_run,
            ) == (
                done,
                RunNewsView {
                    log: None,
                    lines: seq![
                        (OutputStream::Standard, "management disabled by emergency unwind"@),
                    ],
                    record: None,
                },
            )
        }),
{
}

} // verus!
