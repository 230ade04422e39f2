//! How the parts of the daemon come up.

use crate::hotkeys::listener::BindControlMode;
use crate::text::{joined, quoted, truth_word};
use crate::watch::support::enabled_text;
use vstd::prelude::*;
use vstd::string::*;

verus! {

use crate::text::truth_text;
use crate::watch::support::{enabled_word, lines_view};

pub const WATCH_STDIN_COMMANDS: &'static str =
    "stdin commands: focus-next, focus-prev, focus-workspace-up, focus-workspace-down, scroll-left, scroll-right, move-workspace-up, move-workspace-down, move-workspace-to-monitor-next, move-workspace-to-monitor-previous, move-column-to-workspace-up, move-column-to-workspace-down, cycle-column-width, toggle-floating, toggle-tabbed, toggle-maximized, toggle-fullscreen, open-overview, close-overview, toggle-overview, open-terminal, open-wallpaper-selector, close-window, reload-config, snapshot, unwind, rescan, quit";

/// A part of the daemon, in the order in which they come up.
#[derive(Clone, Copy, Debug, PartialEq, Eq, Structural)]
pub enum StartupPart {
    Observer,
    Hotkeys,
    Touchpad,
    ManualResize,
    TabIndicator,
    OverviewSurface,
}

impl StartupPart {
    /// The daemon does not run without these parts.
    pub open spec fn essential(self) -> bool {
        self is Hotkeys || self is Touchpad || self is ManualResize
    }

    /// What is logged of a part that came up. The listeners may find that there is nothing to
    /// listen for.
    pub open spec fn success_log(self, enabled: bool) -> Seq<char> {
        match self {
            StartupPart::Observer => "watch: live-observer-started"@,
            StartupPart::Hotkeys => "watch: hotkey-listener-started enabled="@ + truth_text(
                enabled,
            ),
            StartupPart::Touchpad => "watch: touchpad-listener-started enabled="@ + truth_text(
                enabled,
            ),
            StartupPart::ManualResize => "watch: manual-resize-controller-started"@,
            StartupPart::TabIndicator => "watch: tab-indicator-started"@,
            StartupPart::OverviewSurface => "watch: overview-surface-started"@,
        }
    }

    /// What is logged of a part that did not come up.
    pub open spec fn failure_log(self, error: Seq<char>) -> Seq<char> {
        match self {
            StartupPart::Observer => "watch: live-observer-start-failed="@ + error
                + "; using polling fallback"@,
            StartupPart::Hotkeys => "watch: hotkey-listener-start-error="@ + error,
            StartupPart::Touchpad => "watch: touchpad-listener-start-error="@ + error,
            StartupPart::ManualResize => "watch: manual-resize-controller-start-error="@ + error,
            StartupPart::TabIndicator => "watch: tab-indicator-start-error="@ + error,
            StartupPart::OverviewSurface => "watch: overview-surface-start-error="@ + error,
        }
    }

    /// What the user is told of a part that did not come up.
    pub open spec fn failure_line(self, error: Seq<char>) -> Seq<char> {
        match self {
            StartupPart::Observer => "live observation failed to start: "@ + error
                + "; falling back to polling"@,
            StartupPart::Hotkeys => "global hotkeys failed to start: "@ + error,
            StartupPart::Touchpad => "touchpad override failed to start: "@ + error,
            StartupPart::ManualResize => "manual width resize failed to start: "@ + error,
            StartupPart::TabIndicator => "tab indicator surface failed to start: "@ + error,
            StartupPart::OverviewSurface => "overview surface failed to start: "@ + error,
        }
    }
}

/// What is made of a part's start.
#[derive(Clone, Debug, PartialEq, Eq)]
pub struct StartupReport {
    pub log: String,
    /// What the user is told where the part did not come up.
    pub warning: Option<String>,
    /// Whether the daemon gives up.
    pub fatal: bool,
}

fn started(part: StartupPart, enabled: bool) -> (r: String)
    ensures
        r@ == part.success_log(enabled),
{
    match part {
        StartupPart::Observer => "watch: live-observer-started".to_owned(),
        StartupPart::Hotkeys => {
            let mut log: String = "watch: hotkey-listener-started enabled=".to_owned();
            log.append(truth_word(enabled));
            log
        },
        StartupPart::Touchpad => {
            let mut log: String = "watch: touchpad-listener-started enabled=".to_owned();
            log.append(truth_word(enabled));
            log
        },
        StartupPart::ManualResize => "watch: manual-resize-controller-started".to_owned(),
        StartupPart::TabIndicator => "watch: tab-indicator-started".to_owned(),
        StartupPart::OverviewSurface => "watch: overview-surface-started".to_owned(),
    }
}

fn failed_log(part: StartupPart, error: &str) -> (r: String)
    ensures
        r@ == part.failure_log(error@),
{
    match part {
        StartupPart::Observer => quoted(
            "watch: live-observer-start-failed=",
            error,
            "; using polling fallback",
        ),
        StartupPart::Hotkeys => joined("watch: hotkey-listener-start-error=", error),
        StartupPart::Touchpad => joined("watch: touchpad-listener-start-error=", error),
        StartupPart::ManualResize => joined("watch: manual-resize-controller-start-error=", error),
        StartupPart::TabIndicator => joined("watch: tab-indicator-start-error=", error),
        StartupPart::OverviewSurface => joined("watch: overview-surface-start-error=", error),
    }
}

fn failed_line(part: StartupPart, error: &str) -> (r: String)
    ensures
        r@ == part.failure_line(error@),
{
    match part {
        StartupPart::Observer => quoted(
            "live observation failed to start: ",
            error,
            "; falling back to polling",
        ),
        StartupPart::Hotkeys => joined("global hotkeys failed to start: ", error),
        StartupPart::Touchpad => joined("touchpad override failed to start: ", error),
        StartupPart::ManualResize => joined("manual width resize failed to start: ", error),
        StartupPart::TabIndicator => joined("tab indicator surface failed to start: ", error),
        StartupPart::OverviewSurface => joined("overview surface failed to start: ", error),
    }
}

/// Decides what a part's start means: whether it came up, and whether it found anything to do.
pub fn report_startup(part: StartupPart, result: Result<bool, String>) -> (r: StartupReport)
    ensures
        match result {
            Ok(enabled) => r.log@ == part.success_log(enabled) && r.warning is None && !r.fatal,
            Err(error) => {
                &&& r.log@ == part.failure_log(error@)
                &&& r.warning is Some && (r.warning->0)@ == part.failure_line(error@)
                &&& r.fatal == part.essential()
            },
        },
{
    match result {
        Ok(enabled) => StartupReport { log: started(part, enabled), warning: None, fatal: false },
        Err(error) => StartupReport {
            log: failed_log(part, error.as_str()),
            warning: Some(failed_line(part, error.as_str())),
            fatal: matches!(
                part,
                StartupPart::Hotkeys | StartupPart::Touchpad | StartupPart::ManualResize
            ),
        },
    }
}

/// How coming up goes on.
#[derive(Clone, Copy, Debug, PartialEq, Eq, Structural)]
pub enum StartupFlow {
    /// Bring this part up.
    Start(StartupPart),
    /// Everything that can come up is up.
    Complete,
    /// The daemon ends with an exit code.
    GiveUp { code: u8 },
}

impl StartupPart {
    /// The part after this one.
    pub open spec fn next(self) -> Option<StartupPart> {
        match self {
            StartupPart::Observer => Some(StartupPart::Hotkeys),
            StartupPart::Hotkeys => Some(StartupPart::Touchpad),
            StartupPart::Touchpad => Some(StartupPart::ManualResize),
            StartupPart::ManualResize => Some(StartupPart::TabIndicator),
            StartupPart::TabIndicator => Some(StartupPart::OverviewSurface),
            StartupPart::OverviewSurface => None,
        }
    }

    /// How many parts come up before this one.
    pub open spec fn rank(self) -> int {
        match self {
            StartupPart::Observer => 0,
            StartupPart::Hotkeys => 1,
            StartupPart::Touchpad => 2,
            StartupPart::ManualResize => 3,
            StartupPart::TabIndicator => 4,
            StartupPart::OverviewSurface => 5,
        }
    }
}

/// What follows a part by whether it means that the daemon gives up.
pub open spec fn startup_flow(part: StartupPart, fatal: bool) -> StartupFlow {
    if fatal {
        StartupFlow::GiveUp { code: 1 }
    } else {
        match part.next() {
            Some(next) => StartupFlow::Start(next),
            None => StartupFlow::Complete,
        }
    }
}

/// The part that comes up first; without live observations there is no observer.
pub fn first_startup_part(poll_only: bool) -> (r: StartupPart)
    ensures
        r == (if poll_only {
            StartupPart::Hotkeys
        } else {
            StartupPart::Observer
        }),
{
    if poll_only {
        StartupPart::Hotkeys
    } else {
        StartupPart::Observer
    }
}

/// What follows the report of a part's start.
pub fn next_startup_part(part: StartupPart, report: &StartupReport) -> (r: StartupFlow)
    ensures
        r == startup_flow(part, report.fatal),
{
    if report.fatal {
        return StartupFlow::GiveUp { code: 1 };
    }
    match part {
        StartupPart::Observer => StartupFlow::Start(StartupPart::Hotkeys),
        StartupPart::Hotkeys => StartupFlow::Start(StartupPart::Touchpad),
        StartupPart::Touchpad => StartupFlow::Start(StartupPart::ManualResize),
        StartupPart::ManualResize => StartupFlow::Start(StartupPart::TabIndicator),
        StartupPart::TabIndicator => StartupFlow::Start(StartupPart::OverviewSurface),
        StartupPart::OverviewSurface => StartupFlow::Complete,
    }
}

/// The parts come up one after another, each once, and the daemon gives up exactly where one
/// that it does not run without fails to come up.
pub proof fn law_essential_parts_must_come_up(part: StartupPart, failed: bool)
    ensures
        match startup_flow(part, failed && part.essential()) {
            StartupFlow::Start(next) => next.rank() == part.rank() + 1 && !(failed
                && part.essential()),
            StartupFlow::Complete => part is OverviewSurface,
            StartupFlow::GiveUp { code } => code == 1 && failed && part.essential(),
        },
{
}

pub open spec fn observation_word(observing: bool) -> Seq<char> {
    if observing {
        "live-hooks"@
    } else {
        "polling-fallback"@
    }
}

/// What the user is told once the daemon is up.
pub open spec fn banner_lines(
    observing: bool,
    bind_control_mode: BindControlMode,
    hotkeys: bool,
    touchpad_status: Seq<char>,
    command_pipe: Seq<char>,
    event_pipe: Seq<char>,
) -> Seq<Seq<char>> {
    seq![
        "flowtile-core-daemon watch"@,
        "observation mode: "@ + observation_word(observing),
        "bind control mode: "@ + bind_control_mode.name(),
        "global hotkeys: "@ + enabled_word(hotkeys),
        "touchpad override: "@ + touchpad_status,
        "ipc command pipe: "@ + command_pipe + " | event stream pipe: "@ + event_pipe,
        WATCH_STDIN_COMMANDS@,
    ]
}

pub fn print_watch_banner(
    observing: bool,
    bind_control_mode: BindControlMode,
    hotkeys: bool,
    touchpad_status: &str,
    command_pipe: &str,
    event_pipe: &str,
) -> (r: Vec<String>)
    ensures
        lines_view(r@) == banner_lines(
            observing,
            bind_control_mode,
            hotkeys,
            touchpad_status@,
            command_pipe@,
            event_pipe@,
        ),
{
    let mut pipes: String = quoted("ipc command pipe: ", command_pipe, " | event stream pipe: ");
    pipes.append(event_pipe);
    let mut lines: Vec<String> = Vec::new();
    lines.push("flowtile-core-daemon watch".to_owned());
    lines.push(
        joined(
            "observation mode: ",
            if observing {
                "live-hooks"
            } else {
                "polling-fallback"
            },
        ),
    );
    lines.push(joined("bind control mode: ", bind_control_mode.as_str()));
    lines.push(joined("global hotkeys: ", enabled_text(hotkeys)));
    lines.push(joined("touchpad override: ", touchpad_status));
    lines.push(pipes);
    lines.push(WATCH_STDIN_COMMANDS.to_owned());
    assert(lines_view(lines@) =~= banner_lines(
        observing,
        bind_control_mode,
        hotkeys,
        touchpad_status@,
        command_pipe@,
        event_pipe@,
    ));
    lines
}

/// The parts come up in this order, and the daemon does not run without its listeners for keys
/// and gestures and without the resizing by hand.
pub proof fn law_parts_come_up_in_order(part: StartupPart)
    ensures
        StartupPart::Observer.next() == Some(StartupPart::Hotkeys),
        StartupPart::Hotkeys.next() == Some(StartupPart::Touchpad),
        StartupPart::Touchpad.next() == Some(StartupPart::ManualResize),
        StartupPart::ManualResize.next() == Some(StartupPart::TabIndicator),
        StartupPart::TabIndicator.next() == Some(StartupPart::OverviewSurface),
        StartupPart::OverviewSurface.next() is None,
        part.essential() <==> part == StartupPart::Hotkeys || part == StartupPart::Touchpad || part
            == StartupPart::ManualResize,
        startup_flow(part, true) == (StartupFlow::GiveUp { code: 1 }),
        part.next() is None ==> startup_flow(part, false) == StartupFlow::Complete,
        part.next() matches Some(next) ==> startup_flow(part, false) == StartupFlow::Start(next),
{
}

/// What is said of a part names it, and tells the error where it failed.
pub proof fn law_startup_reports_name_their_part(
    part: StartupPart,
    result: Result<bool, String>,
    report: StartupReport,
)
    requires
        call_ensures(report_startup, (part, result), report),
    ensures
        result is Ok ==> report.warning is None && !report.fatal,
        result matches Err(error) ==> report.warning is Some && (report.fatal <==> part
            == StartupPart::Hotkeys || part == StartupPart::Touchpad || part
            == StartupPart::ManualResize),
        part is Observer && result is Ok ==> report.log@ == "watch: live-observer-started"@,
        part is ManualResize && result is Ok ==> report.log@
            == "watch: manual-resize-controller-started"@,
        part is TabIndicator && result is Ok ==> report.log@ == "watch: tab-indicator-started"@,
        part is OverviewSurface && result is Ok ==> report.log@
            == "watch: overview-surface-started"@,
        part is Hotkeys && result == Ok::<bool, String>(true) ==> report.log@
            == "watch: hotkey-listener-started enabled="@ + "true"@,
        part is Hotkeys && result == Ok::<bool, String>(false) ==> report.log@
            == "watch: hotkey-listener-started enabled="@ + "false"@,
        part is Touchpad && result == Ok::<bool, String>(true) ==> report.log@
            == "watch: touchpad-listener-started enabled="@ + "true"@,
        part is Touchpad && result == Ok::<bool, String>(false) ==> report.log@
            == "watch: touchpad-listener-started enabled="@ + "false"@,
        result matches Err(error) ==> {
            &&& part is Observer ==> report.log@ == "watch: live-observer-start-failed="@ + error@
                + "; using polling fallback"@ && (report.warning->0)@
                == "live observation failed to start: "@ + error@ + "; falling back to polling"@
            &&& part is Hotkeys ==> report.log@ == "watch: hotkey-listener-start-error="@ + error@
                && (report.warning->0)@ == "global hotkeys failed to start: "@ + error@
            &&& part is Touchpad ==> report.log@ == "watch: touchpad-listener-start-error="@
                + error@ && (report.warning->0)@ == "touchpad override failed to start: "@ + error@
            &&& part is ManualResize ==> report.log@
                == "watch: manual-resize-controller-start-error="@ + error@
                && (report.warning->0)@ == "manual width resize failed to start: "@ + error@
            &&& part is TabIndicator ==> report.log@ == "watch: tab-indicator-start-error="@
                + error@ && (report.warning->0)@ == "tab indicator surface failed to start: "@
                + error@
            &&& part is OverviewSurface ==> report.log@ == "watch: overview-surface-start-error="@
                + error@ && (report.warning->0)@ == "overview surface failed to start: "@ + error@
        },
{
}

/// The banner tells how the daemon observes, which listeners run, and where clients reach it.
pub proof fn law_the_banner_tells_how_the_daemon_runs(
    observing: bool,
    mode: BindControlMode,
    hotkeys: bool,
    touchpad: Seq<char>,
    command_pipe: Seq<char>,
    event_pipe: Seq<char>,
)
    ensures
        ({
            let lines = banner_lines(observing, mode, hotkeys, touchpad, command_pipe, event_pipe);
            &&& lines.len() == 7
            &&& lines[0] == "flowtile-core-daemon watch"@
            &&& observing ==> lines[1] == "observation mode: "@ + "live-hooks"@
            &&& !observing ==> lines[1] == "observation mode: "@ + "polling-fallback"@
            &&& mode is Coexistence ==> lines[2] == "bind control mode: "@ + "coexistence"@
            &&& mode is ManagedShell ==> lines[2] == "bind control mode: "@ + "managed-shell"@
            &&& hotkeys ==> lines[3] == "global hotkeys: "@ + "enabled"@
            &&& !hotkeys ==> lines[3] == "global hotkeys: "@ + "disabled"@
            &&& lines[4] == "touchpad override: "@ + touchpad
            &&& lines[5] == "ipc command pipe: "@ + command_pipe + " | event stream pipe: "@
                + event_pipe
        }),
{
}

/// A daemon that only polls has no observer to start.
pub proof fn law_polling_needs_no_observer(poll_only: bool, r: StartupPart)
    requires
        call_ensures(first_startup_part, (poll_only,), r),
    ensures
        poll_only ==> r is Hotkeys,
        !poll_only ==> r is Observer,
{
}

} // verus!
