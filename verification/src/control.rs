//! Commands of the watch loop and the messages that carry them.

use crate::ids::WorkspaceId;
use crate::text::same_text;
use vstd::prelude::*;

verus! {

/// A command that a key chord, a touchpad gesture, a console line or a client can give.
#[derive(Clone, Copy, Debug, PartialEq, Eq, Structural)]
pub enum WatchCommand {
    FocusNext,
    FocusPrev,
    FocusWorkspaceUp,
    FocusWorkspaceDown,
    ScrollLeft,
    ScrollRight,
    MoveWorkspaceUp,
    MoveWorkspaceDown,
    MoveWorkspaceToMonitorNext,
    MoveWorkspaceToMonitorPrevious,
    MoveColumnToWorkspaceUp,
    MoveColumnToWorkspaceDown,
    CycleColumnWidth,
    ToggleFloating,
    ToggleTabbed,
    ToggleMaximized,
    ToggleFullscreen,
    OpenOverview,
    CloseOverview,
    ToggleOverview,
    OpenTerminal,
    OpenWallpaperSelector,
    CloseWindow,
    ReloadConfig,
    Snapshot,
    Unwind,
    Rescan,
    Quit,
}

/// A message to the watch loop.
#[derive(Clone, Debug, PartialEq, Eq)]
pub enum ControlMessage {
    Watch(WatchCommand),
    OverviewActivateWindow { raw_hwnd: u64 },
    OverviewDismiss,
    OverviewMoveColumn {
        dragged_raw_hwnd: u64,
        target_workspace_id: WorkspaceId,
        insert_after_raw_hwnd: Option<u64>,
    },
    IpcRequest { command: String },
    EventSubscribe,
}

impl WatchCommand {
    /// Whether the command keeps firing while its key is held down.
    pub open spec fn repeats(self) -> bool {
        self is ScrollLeft || self is ScrollRight
    }

    pub fn repeats_while_held(self) -> (r: bool)
        ensures
            r == self.repeats(),
    {
        matches!(self, WatchCommand::ScrollLeft | WatchCommand::ScrollRight)
    }
}

/// Every command, in a fixed order.
pub open spec fn all_commands() -> Seq<WatchCommand> {
    seq![
        WatchCommand::FocusNext,
        WatchCommand::FocusPrev,
        WatchCommand::FocusWorkspaceUp,
        WatchCommand::FocusWorkspaceDown,
        WatchCommand::ScrollLeft,
        WatchCommand::ScrollRight,
        WatchCommand::MoveWorkspaceUp,
        WatchCommand::MoveWorkspaceDown,
        WatchCommand::MoveWorkspaceToMonitorNext,
        WatchCommand::MoveWorkspaceToMonitorPrevious,
        WatchCommand::MoveColumnToWorkspaceUp,
        WatchCommand::MoveColumnToWorkspaceDown,
        WatchCommand::CycleColumnWidth,
        WatchCommand::ToggleFloating,
        WatchCommand::ToggleTabbed,
        WatchCommand::ToggleMaximized,
        WatchCommand::ToggleFullscreen,
        WatchCommand::OpenOverview,
        WatchCommand::CloseOverview,
        WatchCommand::ToggleOverview,
        WatchCommand::OpenTerminal,
        WatchCommand::OpenWallpaperSelector,
        WatchCommand::CloseWindow,
        WatchCommand::ReloadConfig,
        WatchCommand::Snapshot,
        WatchCommand::Unwind,
        WatchCommand::Rescan,
        WatchCommand::Quit,
    ]
}

fn command_at(index: usize) -> (r: WatchCommand)
    requires
        index < 28,
    ensures
        r == all_commands()[index as int],
{
    if index == 0 {
        WatchCommand::FocusNext
    } else if index == 1 {
        WatchCommand::FocusPrev
    } else if index == 2 {
        WatchCommand::FocusWorkspaceUp
    } else if index == 3 {
        WatchCommand::FocusWorkspaceDown
    } else if index == 4 {
        WatchCommand::ScrollLeft
    } else if index == 5 {
        WatchCommand::ScrollRight
    } else if index == 6 {
        WatchCommand::MoveWorkspaceUp
    } else if index == 7 {
        WatchCommand::MoveWorkspaceDown
    } else if index == 8 {
        WatchCommand::MoveWorkspaceToMonitorNext
    } else if index == 9 {
        WatchCommand::MoveWorkspaceToMonitorPrevious
    } else if index == 10 {
        WatchCommand::MoveColumnToWorkspaceUp
    } else if index == 11 {
        WatchCommand::MoveColumnToWorkspaceDown
    } else if index == 12 {
        WatchCommand::CycleColumnWidth
    } else if index == 13 {
        WatchCommand::ToggleFloating
    } else if index == 14 {
        WatchCommand::ToggleTabbed
    } else if index == 15 {
        WatchCommand::ToggleMaximized
    } else if index == 16 {
        WatchCommand::ToggleFullscreen
    } else if index == 17 {
        WatchCommand::OpenOverview
    } else if index == 18 {
        WatchCommand::CloseOverview
    } else if index == 19 {
        WatchCommand::ToggleOverview
    } else if index == 20 {
        WatchCommand::OpenTerminal
    } else if index == 21 {
        WatchCommand::OpenWallpaperSelector
    } else if index == 22 {
        WatchCommand::CloseWindow
    } else if index == 23 {
        WatchCommand::ReloadConfig
    } else if index == 24 {
        WatchCommand::Snapshot
    } else if index == 25 {
        WatchCommand::Unwind
    } else if index == 26 {
        WatchCommand::Rescan
    } else {
        WatchCommand::Quit
    }
}

impl WatchCommand {
    /// The name under which the command is bound to a chord or a gesture.
    pub open spec fn name(self) -> Seq<char> {
        match self {
            WatchCommand::FocusNext => "focus-next"@,
            WatchCommand::FocusPrev => "focus-prev"@,
            WatchCommand::FocusWorkspaceUp => "focus-workspace-up"@,
            WatchCommand::FocusWorkspaceDown => "focus-workspace-down"@,
            WatchCommand::ScrollLeft => "scroll-strip-left"@,
            WatchCommand::ScrollRight => "scroll-strip-right"@,
            WatchCommand::MoveWorkspaceUp => "move-workspace-up"@,
            WatchCommand::MoveWorkspaceDown => "move-workspace-down"@,
            WatchCommand::MoveWorkspaceToMonitorNext => "move-workspace-to-monitor-next"@,
            WatchCommand::MoveWorkspaceToMonitorPrevious => "move-workspace-to-monitor-previous"@,
            WatchCommand::MoveColumnToWorkspaceUp => "move-column-to-workspace-up"@,
            WatchCommand::MoveColumnToWorkspaceDown => "move-column-to-workspace-down"@,
            WatchCommand::CycleColumnWidth => "cycle-column-width"@,
            WatchCommand::ToggleFloating => "toggle-floating"@,
            WatchCommand::ToggleTabbed => "toggle-tabbed"@,
            WatchCommand::ToggleMaximized => "toggle-maximized"@,
            WatchCommand::ToggleFullscreen => "toggle-fullscreen"@,
            WatchCommand::OpenOverview => "open-overview"@,
            WatchCommand::CloseOverview => "close-overview"@,
            WatchCommand::ToggleOverview => "toggle-overview"@,
            WatchCommand::OpenTerminal => "open-terminal"@,
            WatchCommand::OpenWallpaperSelector => "open-wallpaper-selector"@,
            WatchCommand::CloseWindow => "close-window"@,
            WatchCommand::ReloadConfig => "reload-config"@,
            WatchCommand::Snapshot => "snapshot"@,
            WatchCommand::Unwind => "disable-management-and-unwind"@,
            WatchCommand::Rescan => "rescan"@,
            WatchCommand::Quit => "quit"@,
        }
    }

    /// Whether a chord or a gesture may be bound to the command.
    pub open spec fn bindable(self) -> bool {
        !(self is Snapshot || self is Rescan || self is Quit)
    }

    /// The name under which the command is typed at the console.
    pub open spec fn console_name(self) -> Seq<char> {
        match self {
            WatchCommand::ScrollLeft => "scroll-left"@,
            WatchCommand::ScrollRight => "scroll-right"@,
            WatchCommand::Unwind => "unwind"@,
            _ => self.name(),
        }
    }

    /// The name under which a client requests the command.
    pub open spec fn ipc_name(self) -> Option<Seq<char>> {
        match self {
            WatchCommand::FocusNext => Some("focus_next"@),
            WatchCommand::FocusPrev => Some("focus_prev"@),
            WatchCommand::FocusWorkspaceUp => Some("focus_workspace_up"@),
            WatchCommand::FocusWorkspaceDown => Some("focus_workspace_down"@),
            WatchCommand::ScrollLeft => Some("scroll_strip_left"@),
            WatchCommand::ScrollRight => Some("scroll_strip_right"@),
            WatchCommand::MoveWorkspaceUp => Some("move_workspace_up"@),
            WatchCommand::MoveWorkspaceDown => Some("move_workspace_down"@),
            WatchCommand::MoveWorkspaceToMonitorNext => Some("move_workspace_to_monitor_next"@),
            WatchCommand::MoveWorkspaceToMonitorPrevious => Some(
                "move_workspace_to_monitor_previous"@,
            ),
            WatchCommand::MoveColumnToWorkspaceUp => Some("move_column_to_workspace_up"@),
            WatchCommand::MoveColumnToWorkspaceDown => Some("move_column_to_workspace_down"@),
            WatchCommand::CycleColumnWidth => Some("cycle_column_width"@),
            WatchCommand::ToggleFloating => Some("toggle_floating"@),
            WatchCommand::ToggleTabbed => Some("toggle_tabbed"@),
            WatchCommand::ToggleMaximized => Some("toggle_maximized"@),
            WatchCommand::ToggleFullscreen => Some("toggle_fullscreen"@),
            WatchCommand::OpenOverview => Some("open_overview"@),
            WatchCommand::CloseOverview => Some("close_overview"@),
            WatchCommand::ToggleOverview => Some("toggle_overview"@),
            WatchCommand::ReloadConfig => Some("reload_config"@),
            _ => None,
        }
    }

    pub fn as_hotkey_command_name(self) -> (r: &'static str)
        ensures
            r@ == self.name(),
    {
        match self {
            WatchCommand::FocusNext => "focus-next",
            WatchCommand::FocusPrev => "focus-prev",
            WatchCommand::FocusWorkspaceUp => "focus-workspace-up",
            WatchCommand::FocusWorkspaceDown => "focus-workspace-down",
            WatchCommand::ScrollLeft => "scroll-strip-left",
            WatchCommand::ScrollRight => "scroll-strip-right",
            WatchCommand::MoveWorkspaceUp => "move-workspace-up",
            WatchCommand::MoveWorkspaceDown => "move-workspace-down",
            WatchCommand::MoveWorkspaceToMonitorNext => "move-workspace-to-monitor-next",
            WatchCommand::MoveWorkspaceToMonitorPrevious => "move-workspace-to-monitor-previous",
            WatchCommand::MoveColumnToWorkspaceUp => "move-column-to-workspace-up",
            WatchCommand::MoveColumnToWorkspaceDown => "move-column-to-workspace-down",
            WatchCommand::CycleColumnWidth => "cycle-column-width",
            WatchCommand::ToggleFloating => "toggle-floating",
            WatchCommand::ToggleTabbed => "toggle-tabbed",
            WatchCommand::ToggleMaximized => "toggle-maximized",
            WatchCommand::ToggleFullscreen => "toggle-fullscreen",
            WatchCommand::OpenOverview => "open-overview",
            WatchCommand::CloseOverview => "close-overview",
            WatchCommand::ToggleOverview => "toggle-overview",
            WatchCommand::OpenTerminal => "open-terminal",
            WatchCommand::OpenWallpaperSelector => "open-wallpaper-selector",
            WatchCommand::CloseWindow => "close-window",
            WatchCommand::ReloadConfig => "reload-config",
            WatchCommand::Snapshot => "snapshot",
            WatchCommand::Unwind => "disable-management-and-unwind",
            WatchCommand::Rescan => "rescan",
            WatchCommand::Quit => "quit",
        }
    }

    pub fn as_console_name(self) -> (r: &'static str)
        ensures
            r@ == self.console_name(),
    {
        match self {
            WatchCommand::ScrollLeft => "scroll-left",
            WatchCommand::ScrollRight => "scroll-right",
            WatchCommand::Unwind => "unwind",
            _ => self.as_hotkey_command_name(),
        }
    }

    pub fn as_ipc_command_name(self) -> (r: Option<&'static str>)
        ensures
            match r {
                Some(name) => self.ipc_name() == Some(name@),
                None => self.ipc_name() is None,
            },
    {
        match self {
            WatchCommand::FocusNext => Some("focus_next"),
            WatchCommand::FocusPrev => Some("focus_prev"),
            WatchCommand::FocusWorkspaceUp => Some("focus_workspace_up"),
            WatchCommand::FocusWorkspaceDown => Some("focus_workspace_down"),
            WatchCommand::ScrollLeft => Some("scroll_strip_left"),
            WatchCommand::ScrollRight => Some("scroll_strip_right"),
            WatchCommand::MoveWorkspaceUp => Some("move_workspace_up"),
            WatchCommand::MoveWorkspaceDown => Some("move_workspace_down"),
            WatchCommand::MoveWorkspaceToMonitorNext => Some("move_workspace_to_monitor_next"),
            WatchCommand::MoveWorkspaceToMonitorPrevious => Some(
                "move_workspace_to_monitor_previous",
            ),
            WatchCommand::MoveColumnToWorkspaceUp => Some("move_column_to_workspace_up"),
            WatchCommand::MoveColumnToWorkspaceDown => Some("move_column_to_workspace_down"),
            WatchCommand::CycleColumnWidth => Some("cycle_column_width"),
            WatchCommand::ToggleFloating => Some("toggle_floating"),
            WatchCommand::ToggleTabbed => Some("toggle_tabbed"),
            WatchCommand::ToggleMaximized => Some("toggle_maximized"),
            WatchCommand::ToggleFullscreen => Some("toggle_fullscreen"),
            WatchCommand::OpenOverview => Some("open_overview"),
            WatchCommand::CloseOverview => Some("close_overview"),
            WatchCommand::ToggleOverview => Some("toggle_overview"),
            WatchCommand::ReloadConfig => Some("reload_config"),
            _ => None,
        }
    }

    /// The bindable command of a name.
    pub fn from_input_command(name: &str) -> (r: Option<WatchCommand>)
        ensures
            match r {
                Some(command) => command.bindable() && command.name() == name@,
                None => forall|command: WatchCommand|
                    command.bindable() ==> #[trigger] command.name() != name@,
            },
    {
        let mut i: usize = 0;
        while i < 28
            invariant
                i <= 28,
                forall|j: int|
                    0 <= j < i && (#[trigger] all_commands()[j]).bindable()
                        ==> all_commands()[j].name() != name@,
            decreases 28 - i,
        {
            let command: WatchCommand = command_at(i);
            let local: bool = matches!(
                command,
                WatchCommand::Snapshot | WatchCommand::Rescan | WatchCommand::Quit
            );
            if !local && same_text(command.as_hotkey_command_name(), name) {
                return Some(command);
            }
            i = i + 1;
        }
        proof {
            assert forall|command: WatchCommand| command.bindable() implies #[trigger]
                command.name() != name@ by {
                lemma_every_command_is_listed(command);
            }
        }
        None
    }

    /// The command of a console line that has been trimmed and brought to lower case.
    pub fn from_stdin_alias(name: &str) -> (r: Option<WatchCommand>)
        ensures
            match r {
                Some(command) => command.console_name() == name@,
                None => forall|command: WatchCommand| #[trigger]
                    command.console_name() != name@,
            },
    {
        let mut i: usize = 0;
        while i < 28
            invariant
                i <= 28,
                forall|j: int|
                    0 <= j < i ==> (#[trigger] all_commands()[j]).console_name() != name@,
            decreases 28 - i,
        {
            let command: WatchCommand = command_at(i);
            if same_text(command.as_console_name(), name) {
                return Some(command);
            }
            i = i + 1;
        }
        proof {
            assert forall|command: WatchCommand| #[trigger] command.console_name() != name@ by {
                lemma_every_command_is_listed(command);
            }
        }
        None
    }
}

proof fn lemma_every_command_is_listed(command: WatchCommand)
    ensures
        exists|i: int| 0 <= i < 28 && #[trigger] all_commands()[i] == command,
{
    let commands = all_commands();
    assert(commands[0] == WatchCommand::FocusNext);
    assert(commands[1] == WatchCommand::FocusPrev);
    assert(commands[2] == WatchCommand::FocusWorkspaceUp);
    assert(commands[3] == WatchCommand::FocusWorkspaceDown);
    assert(commands[4] == WatchCommand::ScrollLeft);
    assert(commands[5] == WatchCommand::ScrollRight);
    assert(commands[6] == WatchCommand::MoveWorkspaceUp);
    assert(commands[7] == WatchCommand::MoveWorkspaceDown);
    assert(commands[8] == WatchCommand::MoveWorkspaceToMonitorNext);
    assert(commands[9] == WatchCommand::MoveWorkspaceToMonitorPrevious);
    assert(commands[10] == WatchCommand::MoveColumnToWorkspaceUp);
    assert(commands[11] == WatchCommand::MoveColumnToWorkspaceDown);
    assert(commands[12] == WatchCommand::CycleColumnWidth);
    assert(commands[13] == WatchCommand::ToggleFloating);
    assert(commands[14] == WatchCommand::ToggleTabbed);
    assert(commands[15] == WatchCommand::ToggleMaximized);
    assert(commands[16] == WatchCommand::ToggleFullscreen);
    assert(commands[17] == WatchCommand::OpenOverview);
    assert(commands[18] == WatchCommand::CloseOverview);
    assert(commands[19] == WatchCommand::ToggleOverview);
    assert(commands[20] == WatchCommand::OpenTerminal);
    assert(commands[21] == WatchCommand::OpenWallpaperSelector);
    assert(commands[22] == WatchCommand::CloseWindow);
    assert(commands[23] == WatchCommand::ReloadConfig);
    assert(commands[24] == WatchCommand::Snapshot);
    assert(commands[25] == WatchCommand::Unwind);
    assert(commands[26] == WatchCommand::Rescan);
    assert(commands[27] == WatchCommand::Quit);
}

/// Enough of a command's name to tell it from the others.
spec fn signature(name: Seq<char>) -> (nat, char, char, char) {
    (name.len(), name[0], name[1], name.last())
}

/// No two commands share a name, neither in bindings nor at the console.
pub proof fn law_command_names_are_distinct(a: WatchCommand, b: WatchCommand)
    ensures
        a.name() == b.name() ==> a == b,
        a.console_name() == b.console_name() ==> a == b,
{
    reveal_strlit("focus-next");
    assert(signature("focus-next"@) == (10nat, 'f', 'o', 't'));
    reveal_strlit("focus-prev");
    assert(signature("focus-prev"@) == (10nat, 'f', 'o', 'v'));
    reveal_strlit("focus-workspace-up");
    assert(signature("focus-workspace-up"@) == (18nat, 'f', 'o', 'p'));
    reveal_strlit("focus-workspace-down");
    assert(signature("focus-workspace-down"@) == (20nat, 'f', 'o', 'n'));
    reveal_strlit("scroll-strip-left");
    assert(signature("scroll-strip-left"@) == (17nat, 's', 'c', 't'));
    reveal_strlit("scroll-strip-right");
    assert(signature("scroll-strip-right"@) == (18nat, 's', 'c', 't'));
    reveal_strlit("move-workspace-up");
    assert(signature("move-workspace-up"@) == (17nat, 'm', 'o', 'p'));
    reveal_strlit("move-workspace-down");
    assert(signature("move-workspace-down"@) == (19nat, 'm', 'o', 'n'));
    reveal_strlit("move-workspace-to-monitor-next");
    assert(signature("move-workspace-to-monitor-next"@) == (30nat, 'm', 'o', 't'));
    reveal_strlit("move-workspace-to-monitor-previous");
    assert(signature("move-workspace-to-monitor-previous"@) == (34nat, 'm', 'o', 's'));
    reveal_strlit("move-column-to-workspace-up");
    assert(signature("move-column-to-workspace-up"@) == (27nat, 'm', 'o', 'p'));
    reveal_strlit("move-column-to-workspace-down");
    assert(signature("move-column-to-workspace-down"@) == (29nat, 'm', 'o', 'n'));
    reveal_strlit("cycle-column-width");
    assert(signature("cycle-column-width"@) == (18nat, 'c', 'y', 'h'));
    reveal_strlit("toggle-floating");
    assert(signature("toggle-floating"@) == (15nat, 't', 'o', 'g'));
    reveal_strlit("toggle-tabbed");
    assert(signature("toggle-tabbed"@) == (13nat, 't', 'o', 'd'));
    reveal_strlit("toggle-maximized");
    assert(signature("toggle-maximized"@) == (16nat, 't', 'o', 'd'));
    reveal_strlit("toggle-fullscreen");
    assert(signature("toggle-fullscreen"@) == (17nat, 't', 'o', 'n'));
    reveal_strlit("open-overview");
    assert(signature("open-overview"@) == (13nat, 'o', 'p', 'w'));
    reveal_strlit("close-overview");
    assert(signature("close-overview"@) == (14nat, 'c', 'l', 'w'));
    reveal_strlit("toggle-overview");
    assert(signature("toggle-overview"@) == (15nat, 't', 'o', 'w'));
    reveal_strlit("open-terminal");
    assert(signature("open-terminal"@) == (13nat, 'o', 'p', 'l'));
    reveal_strlit("open-wallpaper-selector");
    assert(signature("open-wallpaper-selector"@) == (23nat, 'o', 'p', 'r'));
    reveal_strlit("close-window");
    assert(signature("close-window"@) == (12nat, 'c', 'l', 'w'));
    reveal_strlit("reload-config");
    assert(signature("reload-config"@) == (13nat, 'r', 'e', 'g'));
    reveal_strlit("snapshot");
    assert(signature("snapshot"@) == (8nat, 's', 'n', 't'));
    reveal_strlit("disable-management-and-unwind");
    assert(signature("disable-management-and-unwind"@) == (29nat, 'd', 'i', 'd'));
    reveal_strlit("rescan");
    assert(signature("rescan"@) == (6nat, 'r', 'e', 'n'));
    reveal_strlit("quit");
    assert(signature("quit"@) == (4nat, 'q', 'u', 't'));
    reveal_strlit("scroll-left");
    assert(signature("scroll-left"@) == (11nat, 's', 'c', 't'));
    reveal_strlit("scroll-right");
    assert(signature("scroll-right"@) == (12nat, 's', 'c', 't'));
    reveal_strlit("unwind");
    assert(signature("unwind"@) == (6nat, 'u', 'n', 'd'));
}

/// Every command has the name that it is called by: at the console, in bindings, and among
/// clients, who write it with underscores.
pub proof fn law_commands_go_by_their_names(command: WatchCommand)
    ensures
        command == WatchCommand::FocusNext <==> command.console_name() == "focus-next"@,
        command == WatchCommand::FocusPrev <==> command.console_name() == "focus-prev"@,
        command == WatchCommand::FocusWorkspaceUp <==> command.console_name() == "focus-workspace-up"@,
        command == WatchCommand::FocusWorkspaceDown <==> command.console_name() == "focus-workspace-down"@,
        command == WatchCommand::ScrollLeft <==> command.console_name() == "scroll-left"@,
        command == WatchCommand::ScrollLeft <==> command.name() == "scroll-strip-left"@,
        command == WatchCommand::ScrollRight <==> command.console_name() == "scroll-right"@,
        command == WatchCommand::ScrollRight <==> command.name() == "scroll-strip-right"@,
        command == WatchCommand::MoveWorkspaceUp <==> command.console_name() == "move-workspace-up"@,
        command == WatchCommand::MoveWorkspaceDown <==> command.console_name() == "move-workspace-down"@,
        command == WatchCommand::MoveWorkspaceToMonitorNext <==> command.console_name() == "move-workspace-to-monitor-next"@,
        command == WatchCommand::MoveWorkspaceToMonitorPrevious <==> command.console_name() == "move-workspace-to-monitor-previous"@,
        command == WatchCommand::MoveColumnToWorkspaceUp <==> command.console_name() == "move-column-to-workspace-up"@,
        command == WatchCommand::MoveColumnToWorkspaceDown <==> command.console_name() == "move-column-to-workspace-down"@,
        command == WatchCommand::CycleColumnWidth <==> command.console_name() == "cycle-column-width"@,
        command == WatchCommand::ToggleFloating <==> command.console_name() == "toggle-floating"@,
        command == WatchCommand::ToggleTabbed <==> command.console_name() == "toggle-tabbed"@,
        command == WatchCommand::ToggleMaximized <==> command.console_name() == "toggle-maximized"@,
        command == WatchCommand::ToggleFullscreen <==> command.console_name() == "toggle-fullscreen"@,
        command == WatchCommand::OpenOverview <==> command.console_name() == "open-overview"@,
        command == WatchCommand::CloseOverview <==> command.console_name() == "close-overview"@,
        command == WatchCommand::ToggleOverview <==> command.console_name() == "toggle-overview"@,
        command == WatchCommand::OpenTerminal <==> command.console_name() == "open-terminal"@,
        command == WatchCommand::OpenWallpaperSelector <==> command.console_name() == "open-wallpaper-selector"@,
        command == WatchCommand::CloseWindow <==> command.console_name() == "close-window"@,
        command == WatchCommand::ReloadConfig <==> command.console_name() == "reload-config"@,
        command == WatchCommand::Snapshot <==> command.console_name() == "snapshot"@,
        command == WatchCommand::Unwind <==> command.console_name() == "unwind"@,
        command == WatchCommand::Unwind <==> command.name() == "disable-management-and-unwind"@,
        command == WatchCommand::Rescan <==> command.console_name() == "rescan"@,
        command == WatchCommand::Quit <==> command.console_name() == "quit"@,
        command == WatchCommand::FocusNext <==> command.name() == "focus-next"@,
        command == WatchCommand::FocusPrev <==> command.name() == "focus-prev"@,
        command == WatchCommand::FocusWorkspaceUp <==> command.name() == "focus-workspace-up"@,
        command == WatchCommand::FocusWorkspaceDown <==> command.name() == "focus-workspace-down"@,
        command == WatchCommand::MoveWorkspaceUp <==> command.name() == "move-workspace-up"@,
        command == WatchCommand::MoveWorkspaceDown <==> command.name() == "move-workspace-down"@,
        command == WatchCommand::MoveWorkspaceToMonitorNext <==> command.name() == "move-workspace-to-monitor-next"@,
        command == WatchCommand::MoveWorkspaceToMonitorPrevious <==> command.name() == "move-workspace-to-monitor-previous"@,
        command == WatchCommand::MoveColumnToWorkspaceUp <==> command.name() == "move-column-to-workspace-up"@,
        command == WatchCommand::MoveColumnToWorkspaceDown <==> command.name() == "move-column-to-workspace-down"@,
        command == WatchCommand::CycleColumnWidth <==> command.name() == "cycle-column-width"@,
        command == WatchCommand::ToggleFloating <==> command.name() == "toggle-floating"@,
        command == WatchCommand::ToggleTabbed <==> command.name() == "toggle-tabbed"@,
        command == WatchCommand::ToggleMaximized <==> command.name() == "toggle-maximized"@,
        command == WatchCommand::ToggleFullscreen <==> command.name() == "toggle-fullscreen"@,
        command == WatchCommand::OpenOverview <==> command.name() == "open-overview"@,
        command == WatchCommand::CloseOverview <==> command.name() == "close-overview"@,
        command == WatchCommand::ToggleOverview <==> command.name() == "toggle-overview"@,
        command == WatchCommand::OpenTerminal <==> command.name() == "open-terminal"@,
        command == WatchCommand::OpenWallpaperSelector <==> command.name() == "open-wallpaper-selector"@,
        command == WatchCommand::CloseWindow <==> command.name() == "close-window"@,
        command == WatchCommand::ReloadConfig <==> command.name() == "reload-config"@,
        command == WatchCommand::Snapshot <==> command.name() == "snapshot"@,
        command == WatchCommand::Rescan <==> command.name() == "rescan"@,
        command == WatchCommand::Quit <==> command.name() == "quit"@,
        command == WatchCommand::FocusNext ==> command.ipc_name() == Some("focus_next"@),
        command == WatchCommand::FocusPrev ==> command.ipc_name() == Some("focus_prev"@),
        command == WatchCommand::FocusWorkspaceUp ==> command.ipc_name() == Some("focus_workspace_up"@),
        command == WatchCommand::FocusWorkspaceDown ==> command.ipc_name() == Some("focus_workspace_down"@),
        command == WatchCommand::ScrollLeft ==> command.ipc_name() == Some("scroll_strip_left"@),
        command == WatchCommand::ScrollRight ==> command.ipc_name() == Some("scroll_strip_right"@),
        command == WatchCommand::MoveWorkspaceUp ==> command.ipc_name() == Some("move_workspace_up"@),
        command == WatchCommand::MoveWorkspaceDown ==> command.ipc_name() == Some("move_workspace_down"@),
        command == WatchCommand::MoveWorkspaceToMonitorNext ==> command.ipc_name() == Some("move_workspace_to_monitor_next"@),
        command == WatchCommand::MoveWorkspaceToMonitorPrevious ==> command.ipc_name() == Some("move_workspace_to_monitor_previous"@),
        command == WatchCommand::MoveColumnToWorkspaceUp ==> command.ipc_name() == Some("move_column_to_workspace_up"@),
        command == WatchCommand::MoveColumnToWorkspaceDown ==> command.ipc_name() == Some("move_column_to_workspace_down"@),
        command == WatchCommand::CycleColumnWidth ==> command.ipc_name() == Some("cycle_column_width"@),
        command == WatchCommand::ToggleFloating ==> command.ipc_name() == Some("toggle_floating"@),
        command == WatchCommand::ToggleTabbed ==> command.ipc_name() == Some("toggle_tabbed"@),
        command == WatchCommand::ToggleMaximized ==> command.ipc_name() == Some("toggle_maximized"@),
        command == WatchCommand::ToggleFullscreen ==> command.ipc_name() == Some("toggle_fullscreen"@),
        command == WatchCommand::OpenOverview ==> command.ipc_name() == Some("open_overview"@),
        command == WatchCommand::CloseOverview ==> command.ipc_name() == Some("close_overview"@),
        command == WatchCommand::ToggleOverview ==> command.ipc_name() == Some("toggle_overview"@),
        command == WatchCommand::OpenTerminal ==> command.ipc_name() is None,
        command == WatchCommand::OpenWallpaperSelector ==> command.ipc_name() is None,
        command == WatchCommand::CloseWindow ==> command.ipc_name() is None,
        command == WatchCommand::ReloadConfig ==> command.ipc_name() == Some("reload_config"@),
        command == WatchCommand::Snapshot ==> command.ipc_name() is None,
        command == WatchCommand::Unwind ==> command.ipc_name() is None,
        command == WatchCommand::Rescan ==> command.ipc_name() is None,
        command == WatchCommand::Quit ==> command.ipc_name() is None,
        command.bindable() <==> command != WatchCommand::Snapshot && command
            != WatchCommand::Rescan && command != WatchCommand::Quit,
        command.repeats() <==> command == WatchCommand::ScrollLeft || command
            == WatchCommand::ScrollRight,
{
    law_command_names_are_distinct(command, WatchCommand::FocusNext);
    law_command_names_are_distinct(command, WatchCommand::FocusPrev);
    law_command_names_are_distinct(command, WatchCommand::FocusWorkspaceUp);
    law_command_names_are_distinct(command, WatchCommand::FocusWorkspaceDown);
    law_command_names_are_distinct(command, WatchCommand::ScrollLeft);
    law_command_names_are_distinct(command, WatchCommand::ScrollRight);
    law_command_names_are_distinct(command, WatchCommand::MoveWorkspaceUp);
    law_command_names_are_distinct(command, WatchCommand::MoveWorkspaceDown);
    law_command_names_are_distinct(command, WatchCommand::MoveWorkspaceToMonitorNext);
    law_command_names_are_distinct(command, WatchCommand::MoveWorkspaceToMonitorPrevious);
    law_command_names_are_distinct(command, WatchCommand::MoveColumnToWorkspaceUp);
    law_command_names_are_distinct(command, WatchCommand::MoveColumnToWorkspaceDown);
    law_command_names_are_distinct(command, WatchCommand::CycleColumnWidth);
    law_command_names_are_distinct(command, WatchCommand::ToggleFloating);
    law_command_names_are_distinct(command, WatchCommand::ToggleTabbed);
    law_command_names_are_distinct(command, WatchCommand::ToggleMaximized);
    law_command_names_are_distinct(command, WatchCommand::ToggleFullscreen);
    law_command_names_are_distinct(command, WatchCommand::OpenOverview);
    law_command_names_are_distinct(command, WatchCommand::CloseOverview);
    law_command_names_are_distinct(command, WatchCommand::ToggleOverview);
    law_command_names_are_distinct(command, WatchCommand::OpenTerminal);
    law_command_names_are_distinct(command, WatchCommand::OpenWallpaperSelector);
    law_command_names_are_distinct(command, WatchCommand::CloseWindow);
    law_command_names_are_distinct(command, WatchCommand::ReloadConfig);
    law_command_names_are_distinct(command, WatchCommand::Snapshot);
    law_command_names_are_distinct(command, WatchCommand::Unwind);
    law_command_names_are_distinct(command, WatchCommand::Rescan);
    law_command_names_are_distinct(command, WatchCommand::Quit);
}

} // verus!
