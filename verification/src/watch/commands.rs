//! What the watch loop does with a command.

use crate::control::WatchCommand;
use crate::ids::{ColumnId, CorrelationId, WorkspaceId};
use crate::text::quoted;
use crate::watch::support::{focused_managed_hwnd, next_manual_correlation_id};
use crate::wm_state::WmState;
use vstd::prelude::*;
use vstd::string::*;

verus! {

use crate::watch::support::focused_hwnd;

/// Where a movement of the focus or of the strip takes place.
#[derive(Clone, Copy, Debug, PartialEq, Eq, Structural)]
pub enum NavigationScope {
    WorkspaceStrip,
}

/// What the window manager is asked to do. Unless a target is given it is what has the focus.
#[derive(Clone, Copy, Debug, PartialEq, Eq, Structural)]
pub enum DomainCommand {
    FocusNext { scope: NavigationScope },
    FocusPrev { scope: NavigationScope },
    FocusWorkspaceUp,
    FocusWorkspaceDown,
    ScrollStripLeft { scope: NavigationScope, step: u32 },
    ScrollStripRight { scope: NavigationScope, step: u32 },
    MoveWorkspaceUp,
    MoveWorkspaceDown,
    MoveWorkspaceToMonitorNext,
    MoveWorkspaceToMonitorPrevious,
    MoveColumnToWorkspaceUp,
    MoveColumnToWorkspaceDown,
    MoveColumnToWorkspaceTarget {
        source_column_id: ColumnId,
        target_workspace_id: WorkspaceId,
        anchor_column_id: Option<ColumnId>,
    },
    CycleColumnWidth,
    ToggleFloating,
    ToggleTabbed,
    ToggleMaximized,
    ToggleFullscreen,
    OpenOverview,
    CloseOverview,
    ToggleOverview,
}

/// A request to the window manager.
#[derive(Clone, Copy, Debug, PartialEq, Eq, Structural)]
pub struct DomainEvent {
    pub correlation_id: CorrelationId,
    pub command: DomainCommand,
}

impl WatchCommand {
    /// What a command asks of the window manager; none where the daemon carries it out
    /// itself.
    pub open spec fn domain_command(self) -> Option<DomainCommand> {
        match self {
            WatchCommand::FocusNext => Some(
                DomainCommand::FocusNext { scope: NavigationScope::WorkspaceStrip },
            ),
            WatchCommand::FocusPrev => Some(
                DomainCommand::FocusPrev { scope: NavigationScope::WorkspaceStrip },
            ),
            WatchCommand::FocusWorkspaceUp => Some(DomainCommand::FocusWorkspaceUp),
            WatchCommand::FocusWorkspaceDown => Some(DomainCommand::FocusWorkspaceDown),
            WatchCommand::ScrollLeft => Some(
                DomainCommand::ScrollStripLeft { scope: NavigationScope::WorkspaceStrip, step: 0 },
            ),
            WatchCommand::ScrollRight => Some(
                DomainCommand::ScrollStripRight { scope: NavigationScope::WorkspaceStrip, step: 0 },
            ),
            WatchCommand::MoveWorkspaceUp => Some(DomainCommand::MoveWorkspaceUp),
            WatchCommand::MoveWorkspaceDown => Some(DomainCommand::MoveWorkspaceDown),
            WatchCommand::MoveWorkspaceToMonitorNext => Some(
                DomainCommand::MoveWorkspaceToMonitorNext,
            ),
            WatchCommand::MoveWorkspaceToMonitorPrevious => Some(
                DomainCommand::MoveWorkspaceToMonitorPrevious,
            ),
            WatchCommand::MoveColumnToWorkspaceUp => Some(DomainCommand::MoveColumnToWorkspaceUp),
            WatchCommand::MoveColumnToWorkspaceDown => Some(
                DomainCommand::MoveColumnToWorkspaceDown,
            ),
            WatchCommand::CycleColumnWidth => Some(DomainCommand::CycleColumnWidth),
            WatchCommand::ToggleFloating => Some(DomainCommand::ToggleFloating),
            WatchCommand::ToggleTabbed => Some(DomainCommand::ToggleTabbed),
            WatchCommand::ToggleMaximized => Some(DomainCommand::ToggleMaximized),
            WatchCommand::ToggleFullscreen => Some(DomainCommand::ToggleFullscreen),
            WatchCommand::OpenOverview => Some(DomainCommand::OpenOverview),
            WatchCommand::CloseOverview => Some(DomainCommand::CloseOverview),
            WatchCommand::ToggleOverview => Some(DomainCommand::ToggleOverview),
            _ => None,
        }
    }

    /// The name under which the window manager reports a command.
    pub open spec fn runtime_label(self) -> Seq<char> {
        match self {
            WatchCommand::FocusNext => "manual-focus-next"@,
            WatchCommand::FocusPrev => "manual-focus-prev"@,
            WatchCommand::FocusWorkspaceUp => "manual-focus-workspace-up"@,
            WatchCommand::FocusWorkspaceDown => "manual-focus-workspace-down"@,
            WatchCommand::ScrollLeft => "manual-scroll-left"@,
            WatchCommand::ScrollRight => "manual-scroll-right"@,
            WatchCommand::MoveWorkspaceUp => "manual-move-workspace-up"@,
            WatchCommand::MoveWorkspaceDown => "manual-move-workspace-down"@,
            WatchCommand::MoveWorkspaceToMonitorNext => "manual-move-workspace-to-monitor-next"@,
            WatchCommand::MoveWorkspaceToMonitorPrevious => {
                "manual-move-workspace-to-monitor-previous"@
            },
            WatchCommand::MoveColumnToWorkspaceUp => "manual-move-column-to-workspace-up"@,
            WatchCommand::MoveColumnToWorkspaceDown => "manual-move-column-to-workspace-down"@,
            WatchCommand::CycleColumnWidth => "manual-cycle-column-width"@,
            WatchCommand::ToggleFloating => "manual-toggle-floating"@,
            WatchCommand::ToggleTabbed => "manual-toggle-tabbed"@,
            WatchCommand::ToggleMaximized => "manual-toggle-maximized"@,
            WatchCommand::ToggleFullscreen => "manual-toggle-fullscreen"@,
            WatchCommand::OpenOverview => "manual-open-overview"@,
            WatchCommand::CloseOverview => "manual-close-overview"@,
            WatchCommand::ToggleOverview => "manual-toggle-overview"@,
            _ => Seq::empty(),
        }
    }
}

fn domain_command_of(command: WatchCommand) -> (r: Option<DomainCommand>)
    ensures
        r == command.domain_command(),
{
    match command {
        WatchCommand::FocusNext => Some(
            DomainCommand::FocusNext { scope: NavigationScope::WorkspaceStrip },
        ),
        WatchCommand::FocusPrev => Some(
            DomainCommand::FocusPrev { scope: NavigationScope::WorkspaceStrip },
        ),
        WatchCommand::FocusWorkspaceUp => Some(DomainCommand::FocusWorkspaceUp),
        WatchCommand::FocusWorkspaceDown => Some(DomainCommand::FocusWorkspaceDown),
        WatchCommand::ScrollLeft => Some(
            DomainCommand::ScrollStripLeft { scope: NavigationScope::WorkspaceStrip, step: 0 },
        ),
        WatchCommand::ScrollRight => Some(
            DomainCommand::ScrollStripRight { scope: NavigationScope::WorkspaceStrip, step: 0 },
        ),
        WatchCommand::MoveWorkspaceUp => Some(DomainCommand::MoveWorkspaceUp),
        WatchCommand::MoveWorkspaceDown => Some(DomainCommand::MoveWorkspaceDown),
        WatchCommand::MoveWorkspaceToMonitorNext => Some(DomainCommand::MoveWorkspaceToMonitorNext),
        WatchCommand::MoveWorkspaceToMonitorPrevious => Some(
            DomainCommand::MoveWorkspaceToMonitorPrevious,
        ),
        WatchCommand::MoveColumnToWorkspaceUp => Some(DomainCommand::MoveColumnToWorkspaceUp),
        WatchCommand::MoveColumnToWorkspaceDown => Some(DomainCommand::MoveColumnToWorkspaceDown),
        WatchCommand::CycleColumnWidth => Some(DomainCommand::CycleColumnWidth),
        WatchCommand::ToggleFloating => Some(DomainCommand::ToggleFloating),
        WatchCommand::ToggleTabbed => Some(DomainCommand::ToggleTabbed),
        WatchCommand::ToggleMaximized => Some(DomainCommand::ToggleMaximized),
        WatchCommand::ToggleFullscreen => Some(DomainCommand::ToggleFullscreen),
        WatchCommand::OpenOverview => Some(DomainCommand::OpenOverview),
        WatchCommand::CloseOverview => Some(DomainCommand::CloseOverview),
        WatchCommand::ToggleOverview => Some(DomainCommand::ToggleOverview),
        _ => None,
    }
}

fn runtime_label_of(command: WatchCommand) -> (r: &'static str)
    requires
        command.domain_command() is Some,
    ensures
        r@ == command.runtime_label(),
{
    match command {
        WatchCommand::FocusNext => "manual-focus-next",
        WatchCommand::FocusPrev => "manual-focus-prev",
        WatchCommand::FocusWorkspaceUp => "manual-focus-workspace-up",
        WatchCommand::FocusWorkspaceDown => "manual-focus-workspace-down",
        WatchCommand::ScrollLeft => "manual-scroll-left",
        WatchCommand::ScrollRight => "manual-scroll-right",
        WatchCommand::MoveWorkspaceUp => "manual-move-workspace-up",
        WatchCommand::MoveWorkspaceDown => "manual-move-workspace-down",
        WatchCommand::MoveWorkspaceToMonitorNext => "manual-move-workspace-to-monitor-next",
        WatchCommand::MoveWorkspaceToMonitorPrevious => "manual-move-workspace-to-monitor-previous",
        WatchCommand::MoveColumnToWorkspaceUp => "manual-move-column-to-workspace-up",
        WatchCommand::MoveColumnToWorkspaceDown => "manual-move-column-to-workspace-down",
        WatchCommand::CycleColumnWidth => "manual-cycle-column-width",
        WatchCommand::ToggleFloating => "manual-toggle-floating",
        WatchCommand::ToggleTabbed => "manual-toggle-tabbed",
        WatchCommand::ToggleMaximized => "manual-toggle-maximized",
        WatchCommand::ToggleFullscreen => "manual-toggle-fullscreen",
        WatchCommand::OpenOverview => "manual-open-overview",
        WatchCommand::CloseOverview => "manual-close-overview",
        WatchCommand::ToggleOverview => "manual-toggle-overview",
        _ => "",
    }
}

/// The request that goes with a command, the name that it is reported under, and the name
/// that the user knows it by.
pub fn manual_domain_dispatch_spec(command: WatchCommand, correlation_id: CorrelationId) -> (r:
    Option<(DomainEvent, &'static str, &'static str)>)
    ensures
        match r {
            Some((event, runtime_label, user_label)) => {
                &&& command.domain_command() == Some(event.command)
                &&& event.correlation_id == correlation_id
                &&& runtime_label@ == command.runtime_label()
                &&& user_label@ == command.console_name()
            },
            None => command.domain_command() is None,
        },
{
    match domain_command_of(command) {
        Some(domain_command) => Some(
            (
                DomainEvent { correlation_id, command: domain_command },
                runtime_label_of(command),
                command.as_console_name(),
            ),
        ),
        None => None,
    }
}

/// A command is reported under the name that the user knows it by, marked as given by hand.
pub proof fn law_runtime_labels_follow_the_names(command: WatchCommand)
    requires
        command.domain_command() is Some,
    ensures
        command.runtime_label() == "manual-"@ + command.console_name(),
{
    reveal_strlit("manual-");
    match command {
        WatchCommand::FocusNext => {
            reveal_strlit("focus-next");
            reveal_strlit("manual-focus-next");
        },
        WatchCommand::FocusPrev => {
            reveal_strlit("focus-prev");
            reveal_strlit("manual-focus-prev");
        },
        WatchCommand::FocusWorkspaceUp => {
            reveal_strlit("focus-workspace-up");
            reveal_strlit("manual-focus-workspace-up");
        },
        WatchCommand::FocusWorkspaceDown => {
            reveal_strlit("focus-workspace-down");
            reveal_strlit("manual-focus-workspace-down");
        },
        WatchCommand::ScrollLeft => {
            reveal_strlit("scroll-left");
            reveal_strlit("manual-scroll-left");
        },
        WatchCommand::ScrollRight => {
            reveal_strlit("scroll-right");
            reveal_strlit("manual-scroll-right");
        },
        WatchCommand::MoveWorkspaceUp => {
            reveal_strlit("move-workspace-up");
            reveal_strlit("manual-move-workspace-up");
        },
        WatchCommand::MoveWorkspaceDown => {
            reveal_strlit("move-workspace-down");
            reveal_strlit("manual-move-workspace-down");
        },
        WatchCommand::MoveWorkspaceToMonitorNext => {
            reveal_strlit("move-workspace-to-monitor-next");
            reveal_strlit("manual-move-workspace-to-monitor-next");
        },
        WatchCommand::MoveWorkspaceToMonitorPrevious => {
            reveal_strlit("move-workspace-to-monitor-previous");
            reveal_strlit("manual-move-workspace-to-monitor-previous");
        },
        WatchCommand::MoveColumnToWorkspaceUp => {
            reveal_strlit("move-column-to-workspace-up");
            reveal_strlit("manual-move-column-to-workspace-up");
        },
        WatchCommand::MoveColumnToWorkspaceDown => {
            reveal_strlit("move-column-to-workspace-down");
            reveal_strlit("manual-move-column-to-workspace-down");
        },
        WatchCommand::CycleColumnWidth => {
            reveal_strlit("cycle-column-width");
            reveal_strlit("manual-cycle-column-width");
        },
        WatchCommand::ToggleFloating => {
            reveal_strlit("toggle-floating");
            reveal_strlit("manual-toggle-floating");
        },
        WatchCommand::ToggleTabbed => {
            reveal_strlit("toggle-tabbed");
            reveal_strlit("manual-toggle-tabbed");
        },
        WatchCommand::ToggleMaximized => {
            reveal_strlit("toggle-maximized");
            reveal_strlit("manual-toggle-maximized");
        },
        WatchCommand::ToggleFullscreen => {
            reveal_strlit("toggle-fullscreen");
            reveal_strlit("manual-toggle-fullscreen");
        },
        WatchCommand::OpenOverview => {
            reveal_strlit("open-overview");
            reveal_strlit("manual-open-overview");
        },
        WatchCommand::CloseOverview => {
            reveal_strlit("close-overview");
            reveal_strlit("manual-close-overview");
        },
        WatchCommand::ToggleOverview => {
            reveal_strlit("toggle-overview");
            reveal_strlit("manual-toggle-overview");
        },
        _ => {
        },
    }
    assert(command.runtime_label() =~= "manual-"@ + command.console_name());
}

/// How the watch loop goes on after a message.
#[derive(Clone, Copy, Debug, PartialEq, Eq, Structural)]
pub enum WatchCommandFlow {
    Continue,
    Quit,
    Exit(u8),
}

/// What the watch loop has to do for a command.
#[derive(Clone, Copy, Debug, PartialEq, Eq)]
pub enum WatchPlan {
    /// Hand a request to the window manager.
    Dispatch { event: DomainEvent, runtime_label: &'static str, user_label: &'static str },
    OpenTerminal,
    /// Close the wallpaper selector where it is open, else open it.
    ToggleWallpaperSelector,
    /// Ask a window to close; none where no managed window has the focus.
    CloseWindow { hwnd: Option<u64> },
    ReloadConfig,
    Snapshot,
    Unwind,
    Rescan,
    Quit,
}

pub open spec fn is_plan_for(
    plan: WatchPlan,
    command: WatchCommand,
    correlation_id: u64,
    state: WmState,
) -> bool {
    match command.domain_command() {
        Some(domain_command) => plan matches WatchPlan::Dispatch {
            event,
            runtime_label,
            user_label,
        } && {
            &&& event == (DomainEvent {
                correlation_id: CorrelationId { raw: correlation_id },
                command: domain_command,
            })
            &&& runtime_label@ == command.runtime_label()
            &&& user_label@ == command.console_name()
        },
        None => plan == (match command {
            WatchCommand::OpenTerminal => WatchPlan::OpenTerminal,
            WatchCommand::OpenWallpaperSelector => WatchPlan::ToggleWallpaperSelector,
            WatchCommand::CloseWindow => WatchPlan::CloseWindow { hwnd: focused_hwnd(state) },
            WatchCommand::ReloadConfig => WatchPlan::ReloadConfig,
            WatchCommand::Snapshot => WatchPlan::Snapshot,
            WatchCommand::Unwind => WatchPlan::Unwind,
            WatchCommand::Rescan => WatchPlan::Rescan,
            _ => WatchPlan::Quit,
        }),
    }
}

/// Decides what a command takes. Every command uses up a number of the counter, whether or
/// not it becomes a request.
pub fn handle_watch_command(
    command: WatchCommand,
    manual_correlation_id: &mut u64,
    state: &WmState,
) -> (r: WatchPlan)
    requires
        *old(manual_correlation_id) < u64::MAX,
    ensures
        *final(manual_correlation_id) == *old(manual_correlation_id) + 1,
        is_plan_for(r, command, *old(manual_correlation_id), *state),
{
    let correlation_id: CorrelationId = next_manual_correlation_id(manual_correlation_id);
    if let Some((event, runtime_label, user_label)) = manual_domain_dispatch_spec(
        command,
        correlation_id,
    ) {
        return WatchPlan::Dispatch { event, runtime_label, user_label };
    }
    match command {
        WatchCommand::OpenTerminal => WatchPlan::OpenTerminal,
        WatchCommand::OpenWallpaperSelector => WatchPlan::ToggleWallpaperSelector,
        WatchCommand::CloseWindow => WatchPlan::CloseWindow { hwnd: focused_managed_hwnd(state) },
        WatchCommand::ReloadConfig => WatchPlan::ReloadConfig,
        WatchCommand::Snapshot => WatchPlan::Snapshot,
        WatchCommand::Unwind => WatchPlan::Unwind,
        WatchCommand::Rescan => WatchPlan::Rescan,
        _ => WatchPlan::Quit,
    }
}

/// Where a line of output goes.
#[derive(Clone, Copy, Debug, PartialEq, Eq, Structural)]
pub enum OutputStream {
    Standard,
    Error,
}

/// What is logged and what the user is told.
#[derive(Clone, Debug, PartialEq, Eq)]
pub struct ActionReport {
    pub log: String,
    pub line: String,
    pub stream: OutputStream,
}

impl ActionReport {
    pub open spec fn says(self, log: Seq<char>, line: Seq<char>, stream: OutputStream) -> bool {
        self.log@ == log && self.line@ == line && self.stream == stream
    }
}

/// What the daemon does by itself when it is told to.
#[derive(Clone, Copy, Debug, PartialEq, Eq, Structural)]
pub enum SideEffect {
    OpenTerminal,
    OpenWallpaperSelector,
    CloseWindow,
}

impl SideEffect {
    pub open spec fn user_label(self) -> Seq<char> {
        match self {
            SideEffect::OpenTerminal => "open-terminal"@,
            SideEffect::OpenWallpaperSelector => "open-wallpaper-selector"@,
            SideEffect::CloseWindow => "close-window"@,
        }
    }

    pub open spec fn error_banner(self) -> Seq<char> {
        match self {
            SideEffect::OpenTerminal => "open terminal failed"@,
            SideEffect::OpenWallpaperSelector => "open wallpaper selector failed"@,
            SideEffect::CloseWindow => "close window failed"@,
        }
    }

    fn label(self) -> (r: &'static str)
        ensures
            r@ == self.user_label(),
    {
        match self {
            SideEffect::OpenTerminal => "open-terminal",
            SideEffect::OpenWallpaperSelector => "open-wallpaper-selector",
            SideEffect::CloseWindow => "close-window",
        }
    }

    fn banner(self) -> (r: &'static str)
        ensures
            r@ == self.error_banner(),
    {
        match self {
            SideEffect::OpenTerminal => "open terminal failed",
            SideEffect::OpenWallpaperSelector => "open wallpaper selector failed",
            SideEffect::CloseWindow => "close window failed",
        }
    }
}

/// Reports what came of a side effect; a failure does not end the loop.
pub fn run_manual_side_effect(effect: SideEffect, result: Result<(), String>) -> (r: ActionReport)
    ensures
        match result {
            Ok(_) => r.says(
                "watch: "@ + effect.user_label() + "-ok"@,
                "manual command: "@ + effect.user_label(),
                OutputStream::Standard,
            ),
            Err(error) => r.says(
                "watch: "@ + effect.user_label() + "-error="@ + error@,
                effect.error_banner() + ": "@ + error@,
                OutputStream::Error,
            ),
        },
{
    match result {
        Ok(_) => {
            let mut line: String = "manual command: ".to_owned();
            line.append(effect.label());
            ActionReport {
                log: quoted("watch: ", effect.label(), "-ok"),
                line,
                stream: OutputStream::Standard,
            }
        },
        Err(error) => {
            let mut log: String = quoted("watch: ", effect.label(), "-error=");
            log.append(error.as_str());
            ActionReport {
                log,
                line: quoted(effect.banner(), ": ", error.as_str()),
                stream: OutputStream::Error,
            }
        },
    }
}

/// Reports what came of closing the wallpaper selector. Where none was open there is nothing
/// to report: one has to be opened instead.
pub fn report_closed_selector(closed: Result<bool, String>) -> (r: Option<ActionReport>)
    ensures
        match closed {
            Ok(true) => r matches Some(report) && report.says(
                "watch: close-wallpaper-selector-ok"@,
                "manual command: close-wallpaper-selector"@,
                OutputStream::Standard,
            ),
            Ok(false) => r is None,
            Err(error) => r matches Some(report) && report.says(
                "watch: close-wallpaper-selector-error="@ + error@,
                "close wallpaper selector failed: "@ + error@,
                OutputStream::Error,
            ),
        },
{
    match closed {
        Ok(true) => Some(
            ActionReport {
                log: "watch: close-wallpaper-selector-ok".to_owned(),
                line: "manual command: close-wallpaper-selector".to_owned(),
                stream: OutputStream::Standard,
            },
        ),
        Ok(false) => None,
        Err(error) => {
            let mut log: String = "watch: close-wallpaper-selector-error=".to_owned();
            log.append(error.as_str());
            let mut line: String = "close wallpaper selector failed: ".to_owned();
            line.append(error.as_str());
            Some(ActionReport { log, line, stream: OutputStream::Error })
        },
    }
}

/// The error of closing a window where none can be closed.
pub fn no_focused_window() -> (r: String)
    ensures
        r@ == "no focused managed window is currently bound to an HWND"@,
{
    "no focused managed window is currently bound to an HWND".to_owned()
}

/// What a request given by hand is announced as.
pub fn manual_banner(user_label: &str) -> (r: String)
    ensures
        r@ == "manual command: "@ + user_label@,
{
    let mut banner: String = "manual command: ".to_owned();
    banner.append(user_label);
    banner
}

/// What follows a reload of the configuration: the input listeners are restarted, and one
/// that cannot be restarted ends the loop. The suffix says how the reload was asked for.
pub fn restart_failure(listener: &str, suffix: &str, error: &str) -> (r: (String, WatchCommandFlow))
    ensures
        r.0@ == listener@ + " failed to restart"@ + suffix@ + ": "@ + error@,
        r.1 == WatchCommandFlow::Exit(1),
{
    let mut text: String = quoted(listener, " failed to restart", suffix);
    text.append(": ");
    text.append(error);
    (text, WatchCommandFlow::Exit(1))
}

/// Exactly the commands that the window manager carries out become requests.
pub proof fn law_domain_commands_become_requests(
    plan: WatchPlan,
    command: WatchCommand,
    correlation_id: u64,
    state: WmState,
)
    requires
        is_plan_for(plan, command, correlation_id, state),
    ensures
        plan is Dispatch <==> command.domain_command() is Some,
        plan is Quit <==> command is Quit,
{
}

/// Whether a plan hands a request to the window manager, with a number, the command that it
/// carries, and the name that the user knows it by.
pub open spec fn hands_over(
    plan: WatchPlan,
    correlation_id: u64,
    command: DomainCommand,
    name: Seq<char>,
) -> bool {
    plan matches WatchPlan::Dispatch { event, runtime_label, user_label } && {
        &&& event.correlation_id.raw == correlation_id
        &&& event.command == command
        &&& runtime_label@ == "manual-"@ + name
        &&& user_label@ == name
    }
}

/// The request of a command is the one of the same name, numbered by the counter; a scroll
/// leaves its distance to the window manager. What the daemon carries out itself becomes no
/// request, and to close a window concerns the managed window that has the focus.
pub proof fn law_commands_ask_for_what_they_are_named_after(
    plan: WatchPlan,
    command: WatchCommand,
    correlation_id: u64,
    state: WmState,
)
    requires
        is_plan_for(plan, command, correlation_id, state),
    ensures
        command == WatchCommand::FocusNext ==> hands_over(
            plan,
            correlation_id,
            DomainCommand::FocusNext { scope: NavigationScope::WorkspaceStrip },
            "focus-next"@,
        ),
        command == WatchCommand::FocusPrev ==> hands_over(
            plan,
            correlation_id,
            DomainCommand::FocusPrev { scope: NavigationScope::WorkspaceStrip },
            "focus-prev"@,
        ),
        command == WatchCommand::FocusWorkspaceUp ==> hands_over(
            plan,
            correlation_id,
            DomainCommand::FocusWorkspaceUp,
            "focus-workspace-up"@,
        ),
        command == WatchCommand::FocusWorkspaceDown ==> hands_over(
            plan,
            correlation_id,
            DomainCommand::FocusWorkspaceDown,
            "focus-workspace-down"@,
        ),
        command == WatchCommand::ScrollLeft ==> hands_over(
            plan,
            correlation_id,
            DomainCommand::ScrollStripLeft { scope: NavigationScope::WorkspaceStrip, step: 0 },
            "scroll-left"@,
        ),
        command == WatchCommand::ScrollRight ==> hands_over(
            plan,
            correlation_id,
            DomainCommand::ScrollStripRight { scope: NavigationScope::WorkspaceStrip, step: 0 },
            "scroll-right"@,
        ),
        command == WatchCommand::MoveWorkspaceUp ==> hands_over(
            plan,
            correlation_id,
            DomainCommand::MoveWorkspaceUp,
            "move-workspace-up"@,
        ),
        command == WatchCommand::MoveWorkspaceDown ==> hands_over(
            plan,
            correlation_id,
            DomainCommand::MoveWorkspaceDown,
            "move-workspace-down"@,
        ),
        command == WatchCommand::MoveWorkspaceToMonitorNext ==> hands_over(
            plan,
            correlation_id,
            DomainCommand::MoveWorkspaceToMonitorNext,
            "move-workspace-to-monitor-next"@,
        ),
        command == WatchCommand::MoveWorkspaceToMonitorPrevious ==> hands_over(
            plan,
            correlation_id,
            DomainCommand::MoveWorkspaceToMonitorPrevious,
            "move-workspace-to-monitor-previous"@,
        ),
        command == WatchCommand::MoveColumnToWorkspaceUp ==> hands_over(
            plan,
            correlation_id,
            DomainCommand::MoveColumnToWorkspaceUp,
            "move-column-to-workspace-up"@,
        ),
        command == WatchCommand::MoveColumnToWorkspaceDown ==> hands_over(
            plan,
            correlation_id,
            DomainCommand::MoveColumnToWorkspaceDown,
            "move-column-to-workspace-down"@,
        ),
        command == WatchCommand::CycleColumnWidth ==> hands_over(
            plan,
            correlation_id,
            DomainCommand::CycleColumnWidth,
            "cycle-column-width"@,
        ),
        command == WatchCommand::ToggleFloating ==> hands_over(
            plan,
            correlation_id,
            DomainCommand::ToggleFloating,
            "toggle-floating"@,
        ),
        command == WatchCommand::ToggleTabbed ==> hands_over(
            plan,
            correlation_id,
            DomainCommand::ToggleTabbed,
            "toggle-tabbed"@,
        ),
        command == WatchCommand::ToggleMaximized ==> hands_over(
            plan,
            correlation_id,
            DomainCommand::ToggleMaximized,
            "toggle-maximized"@,
        ),
        command == WatchCommand::ToggleFullscreen ==> hands_over(
            plan,
            correlation_id,
            DomainCommand::ToggleFullscreen,
            "toggle-fullscreen"@,
        ),
        command == WatchCommand::OpenOverview ==> hands_over(
            plan,
            correlation_id,
            DomainCommand::OpenOverview,
            "open-overview"@,
        ),
        command == WatchCommand::CloseOverview ==> hands_over(
            plan,
            correlation_id,
            DomainCommand::CloseOverview,
            "close-overview"@,
        ),
        command == WatchCommand::ToggleOverview ==> hands_over(
            plan,
            correlation_id,
            DomainCommand::ToggleOverview,
            "toggle-overview"@,
        ),
        command == WatchCommand::OpenTerminal ==> plan == WatchPlan::OpenTerminal,
        command == WatchCommand::OpenWallpaperSelector ==> plan
            == WatchPlan::ToggleWallpaperSelector,
        command == WatchCommand::CloseWindow ==> (plan matches WatchPlan::CloseWindow { hwnd } && {
            match state.focus.focused_window_id {
                None => hwnd is None,
                Some(id) => match state.window(id) {
                    Some(window) => hwnd == (if window.is_managed {
                        window.current_hwnd_binding
                    } else {
                        None
                    }),
                    None => hwnd is None,
                },
            }
        }),
        command == WatchCommand::ReloadConfig ==> plan == WatchPlan::ReloadConfig,
        command == WatchCommand::Snapshot ==> plan == WatchPlan::Snapshot,
        command == WatchCommand::Unwind ==> plan == WatchPlan::Unwind,
        command == WatchCommand::Rescan ==> plan == WatchPlan::Rescan,
        command == WatchCommand::Quit ==> plan == WatchPlan::Quit,
{
    if command.domain_command() is Some {
        law_runtime_labels_follow_the_names(command);
    }
}

/// What is told of a side effect: what was done, or why it failed, in the log and to the user.
pub proof fn law_side_effects_are_told(
    effect: SideEffect,
    result: Result<(), String>,
    report: ActionReport,
)
    requires
        call_ensures(run_manual_side_effect, (effect, result), report),
    ensures
        ({
            let name = match effect {
                SideEffect::OpenTerminal => "open-terminal"@,
                SideEffect::OpenWallpaperSelector => "open-wallpaper-selector"@,
                SideEffect::CloseWindow => "close-window"@,
            };
            let what = match effect {
                SideEffect::OpenTerminal => "open terminal failed"@,
                SideEffect::OpenWallpaperSelector => "open wallpaper selector failed"@,
                SideEffect::CloseWindow => "close window failed"@,
            };
            &&& result is Ok ==> report.log@ == "watch: "@ + name + "-ok"@ && report.line@
                == "manual command: "@ + name && report.stream == OutputStream::Standard
            &&& result matches Err(error) ==> report.log@ == "watch: "@ + name + "-error="@ + error@
                && report.line@ == what + ": "@ + error@ && report.stream == OutputStream::Error
        }),
{
}

/// Every command that is taken uses up one number, and goes under the one before.
pub proof fn law_commands_are_numbered(
    command: WatchCommand,
    number: &mut u64,
    state: &WmState,
    plan: WatchPlan,
)
    requires
        call_ensures(handle_watch_command, (command, number, state), plan),
    ensures
        *final(number) == *old(number) + 1,
        plan matches WatchPlan::Dispatch { event, runtime_label, user_label }
            ==> event.correlation_id.raw == *old(number) && user_label@ == command.console_name(),
        command is OpenTerminal ==> plan is OpenTerminal,
        command is OpenWallpaperSelector ==> plan is ToggleWallpaperSelector,
        command is CloseWindow ==> plan == (WatchPlan::CloseWindow { hwnd: focused_hwnd(*state) }),
        command is ReloadConfig ==> plan is ReloadConfig,
        command is Snapshot ==> plan is Snapshot,
        command is Unwind ==> plan is Unwind,
        command is Rescan ==> plan is Rescan,
        command is Quit ==> plan is Quit,
{
}

/// What is told of a selector that was to be closed: nothing where there was none.
pub proof fn law_closed_selectors_are_told(
    closed: Result<bool, String>,
    r: Option<ActionReport>,
)
    requires
        call_ensures(report_closed_selector, (closed,), r),
    ensures
        r is None <==> closed == Ok::<bool, String>(false),
        closed == Ok::<bool, String>(true) ==> (r matches Some(report) && report.log@
            == "watch: close-wallpaper-selector-ok"@ && report.line@
            == "manual command: close-wallpaper-selector"@ && report.stream
            == OutputStream::Standard),
        closed matches Err(error) ==> (r matches Some(report) && report.log@
            == "watch: close-wallpaper-selector-error="@ + error@ && report.line@
            == "close wallpaper selector failed: "@ + error@ && report.stream
            == OutputStream::Error),
{
}

/// A listener that cannot be started again ends the daemon with a failure.
pub proof fn law_lost_listeners_end_the_daemon(
    listener: &str,
    suffix: &str,
    error: &str,
    r: (String, WatchCommandFlow),
)
    requires
        call_ensures(restart_failure, (listener, suffix, error), r),
    ensures
        r.0@ == listener@ + " failed to restart"@ + suffix@ + ": "@ + error@,
        r.1 == WatchCommandFlow::Exit(1),
{
}

} // verus!
