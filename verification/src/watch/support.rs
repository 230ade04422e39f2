//! What the watch loop reads of the window manager's state, and what it tells the user.

use crate::control::WatchCommand;
use crate::ids::{ColumnId, CorrelationId, MonitorId, WindowId, WorkspaceId};
use crate::text::{
    chars_of, decimal_text, lower_chars, quoted, signed_decimal_text, text_of, trim_chars,
    truth_word,
};
use crate::touchpad::assessment::TouchpadOverrideAssessment;
use crate::wm_state::{RuntimeMode, WindowLayer, WindowNode, WmState, Workspace};
use vstd::prelude::*;
use vstd::string::*;

verus! {

use crate::text::{decimal, lowered, signed_decimal, trimmed, truth_text};
use crate::touchpad::assessment::{label_of, AssessmentView};
use crate::wm_state::{
    first_index, first_where, lemma_first_index, lemma_first_index_holds, Monitor,
};

/// The command that a line typed at the console gives.
pub fn stdin_command(line: &str) -> (r: Option<WatchCommand>)
    ensures
        match r {
            Some(command) => lowered(trimmed(line@)) == command.console_name(),
            None => forall|command: WatchCommand|
                lowered(trimmed(line@)) != #[trigger] command.console_name(),
        },
{
    let alias: String = text_of(&lower_chars(&trim_chars(&chars_of(line))));
    WatchCommand::from_stdin_alias(alias.as_str())
}

/// The next number of a counter that tells requests apart.
pub fn next_manual_correlation_id(counter: &mut u64) -> (r: CorrelationId)
    requires
        *old(counter) < u64::MAX,
    ensures
        r.raw == *old(counter),
        *final(counter) == *old(counter) + 1,
{
    let correlation_id: CorrelationId = CorrelationId { raw: *counter };
    *counter = *counter + 1;
    correlation_id
}

/// The handle of the managed window that has the focus.
pub open spec fn focused_hwnd(state: WmState) -> Option<u64> {
    match state.focus.focused_window_id {
        None => None,
        Some(id) => match state.window(id) {
            None => None,
            Some(window) => if window.is_managed {
                window.current_hwnd_binding
            } else {
                None
            },
        },
    }
}

pub fn focused_managed_hwnd(state: &WmState) -> (r: Option<u64>)
    ensures
        r == focused_hwnd(*state),
{
    match state.focus.focused_window_id {
        None => None,
        Some(id) => match state.find_window(id) {
            None => None,
            Some(window) => if window.is_managed {
                window.current_hwnd_binding
            } else {
                None
            },
        },
    }
}

/// Whether a workspace belongs to a monitor.
pub open spec fn workspace_on(state: WmState, id: WorkspaceId, monitor_id: MonitorId) -> bool {
    state.workspace(id) matches Some(workspace) && workspace.monitor_id == monitor_id
}

fn is_workspace_on(state: &WmState, id: WorkspaceId, monitor_id: MonitorId) -> (r: bool)
    ensures
        r == workspace_on(*state, id, monitor_id),
{
    match state.find_workspace(id) {
        Some(workspace) => workspace.monitor_id == monitor_id,
        None => false,
    }
}

/// Whether a window has a handle, is managed, and belongs to a monitor.
pub open spec fn bound_on(
    state: WmState,
    window: WindowNode,
    raw_hwnd: u64,
    monitor_id: MonitorId,
) -> bool {
    window.is_managed && window.current_hwnd_binding == Some(raw_hwnd) && workspace_on(
        state,
        window.workspace_id,
        monitor_id,
    )
}

fn is_bound_on(state: &WmState, window: WindowNode, raw_hwnd: u64, monitor_id: MonitorId) -> (r:
    bool)
    ensures
        r == bound_on(*state, window, raw_hwnd, monitor_id),
{
    let bound: bool = match window.current_hwnd_binding {
        Some(hwnd) => hwnd == raw_hwnd,
        None => false,
    };
    window.is_managed && bound && is_workspace_on(state, window.workspace_id, monitor_id)
}

/// The managed window with a handle on the monitor that the overview is for.
pub open spec fn overview_window(state: WmState, raw_hwnd: u64) -> Option<WindowNode> {
    match state.overview.monitor_id {
        None => None,
        Some(monitor_id) => first_where(
            state.windows@,
            |window: WindowNode| bound_on(state, window, raw_hwnd, monitor_id),
        ),
    }
}

pub fn overview_managed_window_for_hwnd(state: &WmState, raw_hwnd: u64) -> (r: Option<WindowNode>)
    ensures
        r == overview_window(*state, raw_hwnd),
{
    let monitor_id: MonitorId = match state.overview.monitor_id {
        Some(monitor_id) => monitor_id,
        None => {
            return None;
        },
    };
    let ghost test = |window: WindowNode| bound_on(*state, window, raw_hwnd, monitor_id);
    let mut i: usize = 0;
    while i < state.windows.len()
        invariant
            i <= state.windows.len(),
            state.overview.monitor_id == Some(monitor_id),
            test == (|window: WindowNode| bound_on(*state, window, raw_hwnd, monitor_id)),
            forall|j: int| 0 <= j < i ==> !test(#[trigger] state.windows@[j]),
        decreases state.windows.len() - i,
    {
        if is_bound_on(state, state.windows[i], raw_hwnd, monitor_id) {
            proof {
                lemma_first_index(state.windows@, test, i as int);
            }
            return Some(state.windows[i]);
        }
        i = i + 1;
    }
    proof {
        lemma_first_index(state.windows@, test, i as int);
    }
    None
}

/// Whether a click on a preview may activate a window: the overview is open and the window is
/// a managed one of its monitor.
pub open spec fn activation_target_valid(state: WmState, raw_hwnd: u64) -> bool {
    raw_hwnd != 0 && state.overview.is_open && overview_window(state, raw_hwnd) is Some
}

pub fn overview_activation_target_is_valid(state: &WmState, raw_hwnd: u64) -> (r: bool)
    ensures
        r == activation_target_valid(*state, raw_hwnd),
{
    if raw_hwnd == 0 || !state.overview.is_open {
        return false;
    }
    overview_managed_window_for_hwnd(state, raw_hwnd).is_some()
}

/// Whether a column may be dropped on a workspace: the overview is open and the workspace is
/// one of its monitor.
pub open spec fn workspace_target_valid(state: WmState, id: WorkspaceId) -> bool {
    state.overview.is_open && (state.overview.monitor_id matches Some(monitor_id) && workspace_on(
        state,
        id,
        monitor_id,
    ))
}

pub fn overview_workspace_target_is_valid(state: &WmState, workspace_id: WorkspaceId) -> (r: bool)
    ensures
        r == workspace_target_valid(*state, workspace_id),
{
    if !state.overview.is_open {
        return false;
    }
    match state.overview.monitor_id {
        Some(monitor_id) => is_workspace_on(state, workspace_id, monitor_id),
        None => false,
    }
}

/// Whether a window stands in a column.
pub open spec fn stands_in_a_column(window: WindowNode) -> bool {
    window.layer is Tiled && !window.is_floating && !window.is_fullscreen
}

fn is_in_a_column(window: WindowNode) -> (r: bool)
    ensures
        r == stands_in_a_column(window),
{
    window.layer == WindowLayer::Tiled && !window.is_floating && !window.is_fullscreen
}

/// The column that is dragged by one of its windows.
pub open spec fn drag_source(state: WmState, raw_hwnd: u64) -> Option<ColumnId> {
    match overview_window(state, raw_hwnd) {
        Some(window) => if stands_in_a_column(window) {
            window.column_id
        } else {
            None
        },
        None => None,
    }
}

pub fn overview_drag_source_column_id(state: &WmState, raw_hwnd: u64) -> (r: Option<ColumnId>)
    ensures
        r == drag_source(*state, raw_hwnd),
{
    match overview_managed_window_for_hwnd(state, raw_hwnd) {
        Some(window) => if is_in_a_column(window) {
            window.column_id
        } else {
            None
        },
        None => None,
    }
}

/// The column behind which a dragged one is put: the one of the window that it was dropped
/// on, none where it was dropped on none. Nothing where that window is of no use.
pub open spec fn drop_anchor(
    state: WmState,
    target_workspace_id: WorkspaceId,
    raw_hwnd: Option<u64>,
) -> Option<Option<ColumnId>> {
    match raw_hwnd {
        None => Some(None),
        Some(raw_hwnd) => match overview_window(state, raw_hwnd) {
            None => None,
            Some(window) => if window.workspace_id == target_workspace_id && stands_in_a_column(
                window,
            ) && window.column_id is Some {
                Some(window.column_id)
            } else {
                None
            },
        },
    }
}

pub fn overview_drop_anchor_column_id(
    state: &WmState,
    target_workspace_id: WorkspaceId,
    raw_hwnd: Option<u64>,
) -> (r: Option<Option<ColumnId>>)
    ensures
        r == drop_anchor(*state, target_workspace_id, raw_hwnd),
{
    let raw_hwnd: u64 = match raw_hwnd {
        Some(raw_hwnd) => raw_hwnd,
        None => {
            return Some(None);
        },
    };
    match overview_managed_window_for_hwnd(state, raw_hwnd) {
        None => None,
        Some(window) => {
            if window.workspace_id != target_workspace_id || !is_in_a_column(window) {
                return None;
            }
            match window.column_id {
                Some(column_id) => Some(Some(column_id)),
                None => None,
            }
        },
    }
}

/// Whether the state has changed since it was last streamed; if so it counts as streamed now.
pub fn maybe_broadcast_state(current: u64, last_streamed: &mut u64) -> (r: bool)
    ensures
        r == (current != *old(last_streamed)),
        *final(last_streamed) == current,
{
    if current == *last_streamed {
        return false;
    }
    *last_streamed = current;
    true
}

/// The number of an iteration that is recorded, and whether the state has to be streamed
/// after it.
pub fn record_runtime_report(
    completed_iterations: &mut u64,
    current_version: u64,
    last_streamed: &mut u64,
) -> (r: (u64, bool))
    requires
        *old(completed_iterations) < u64::MAX,
    ensures
        *final(completed_iterations) == *old(completed_iterations) + 1,
        r.0 == *final(completed_iterations),
        r.1 == (current_version != *old(last_streamed)),
        *final(last_streamed) == current_version,
{
    *completed_iterations = *completed_iterations + 1;
    let broadcast: bool = maybe_broadcast_state(current_version, last_streamed);
    (*completed_iterations, broadcast)
}

/// A missing overview surface is started again once the overview is open and may be shown.
pub fn overview_surface_is_missed(
    present: bool,
    management_enabled: bool,
    state: &WmState,
) -> (r: bool)
    ensures
        r == (!present && management_enabled && !(state.boot_mode is SafeMode)
            && state.overview.is_open),
{
    !present && management_enabled && state.boot_mode != RuntimeMode::SafeMode
        && state.overview.is_open
}

/// What is said of a surface that failed, and what is logged of it.
pub fn visual_surface_error(kind: &str, error: &str) -> (r: (String, String))
    ensures
        r.0@ == kind@ + " degraded: "@ + error@,
        r.1@ == "watch: "@ + r.0@,
{
    let message: String = quoted(kind, " degraded: ", error);
    let mut log: String = "watch: ".to_owned();
    log.append(message.as_str());
    (message, log)
}

pub open spec fn lines_view(lines: Seq<String>) -> Seq<Seq<char>> {
    Seq::new(lines.len(), |i: int| lines[i]@)
}

pub open spec fn enabled_word(enabled: bool) -> Seq<char> {
    if enabled {
        "enabled"@
    } else {
        "disabled"@
    }
}

pub fn enabled_text(enabled: bool) -> (r: &'static str)
    ensures
        r@ == enabled_word(enabled),
{
    if enabled {
        "enabled"
    } else {
        "disabled"
    }
}

/// What is said of the input listeners after a reload.
pub fn print_reloaded_input_status(hotkeys: bool, touchpad_status: &str, context_suffix: &str) -> (r:
    (String, String))
    ensures
        r.0@ == "global hotkeys reloaded"@ + context_suffix@ + ": "@ + enabled_word(hotkeys),
        r.1@ == "touchpad override reloaded"@ + context_suffix@ + ": "@ + touchpad_status@,
{
    let mut first: String = quoted("global hotkeys reloaded", context_suffix, ": ");
    first.append(enabled_text(hotkeys));
    let mut second: String = quoted("touchpad override reloaded", context_suffix, ": ");
    second.append(touchpad_status);
    (first, second)
}

/// The active workspace of the monitor that has the focus.
pub open spec fn focused_workspace(state: WmState) -> Option<Workspace> {
    match state.focus.focused_monitor_id {
        None => None,
        Some(monitor_id) => match state.monitor(monitor_id) {
            None => None,
            Some(monitor) => match monitor.active_workspace_id {
                None => None,
                Some(id) => state.workspace(id),
            },
        },
    }
}

fn find_focused_workspace(state: &WmState) -> (r: Option<&Workspace>)
    ensures
        match r {
            Some(workspace) => focused_workspace(*state) == Some(*workspace),
            None => focused_workspace(*state) is None,
        },
{
    match state.focus.focused_monitor_id {
        None => None,
        Some(monitor_id) => match state.find_monitor(monitor_id) {
            None => None,
            Some(monitor) => match monitor.active_workspace_id {
                None => None,
                Some(id) => state.find_workspace(id),
            },
        },
    }
}

pub open spec fn focused_window_word(id: Option<WindowId>) -> Seq<char> {
    match id {
        Some(id) => decimal(id.raw as nat),
        None => "none"@,
    }
}

/// The lines of a snapshot that do not depend on a workspace.
pub open spec fn snapshot_head(state: WmState, touchpad: AssessmentView) -> Seq<Seq<char>> {
    seq![
        "state snapshot"@,
        "state version: "@ + decimal(state.state_version as nat),
        "monitors: "@ + decimal(state.monitors@.len()),
        "workspaces: "@ + decimal(state.workspaces@.len()),
        "windows: "@ + decimal(state.windows@.len()),
        "focused window: "@ + focused_window_word(state.focus.focused_window_id),
        "overview open: "@ + truth_text(state.overview.is_open),
        "config version: "@ + decimal(state.config_version as nat),
        "config rules: "@ + decimal(state.active_rule_count as nat),
        "touchpad override: "@ + label_of(touchpad.status),
        "touchpad gesture bindings: "@ + decimal(touchpad.configured),
    ]
}

pub open spec fn snapshot_detail(touchpad: AssessmentView) -> Seq<Seq<char>> {
    match touchpad.detail {
        Some(detail) => seq!["touchpad override detail: "@ + detail],
        None => Seq::empty(),
    }
}

pub open spec fn snapshot_workspace(state: WmState) -> Seq<Seq<char>> {
    match focused_workspace(state) {
        Some(workspace) => seq![
            "active workspace: "@ + decimal(workspace.id.raw as nat),
            "strip scroll offset: "@ + signed_decimal(workspace.scroll_offset as int),
            "strip columns: "@ + decimal(workspace.ordered_column_ids@.len()),
        ],
        None => Seq::empty(),
    }
}

/// What a snapshot of the state tells the user.
pub open spec fn snapshot_lines(state: WmState, touchpad: AssessmentView) -> Seq<Seq<char>> {
    snapshot_head(state, touchpad) + snapshot_detail(touchpad) + snapshot_workspace(state)
}

fn push_line(lines: &mut Vec<String>, label: &str, value: &str)
    ensures
        final(lines)@.len() == old(lines)@.len() + 1,
        lines_view(final(lines)@) == lines_view(old(lines)@).push(label@ + value@),
{
    let mut line: String = label.to_owned();
    line.append(value);
    lines.push(line);
    assert(lines_view(lines@) =~= lines_view(old(lines)@).push(label@ + value@));
}

pub fn print_state_snapshot(state: &WmState, touchpad: &TouchpadOverrideAssessment) -> (r: Vec<
    String,
>)
    ensures
        lines_view(r@) == snapshot_lines(*state, touchpad@),
{
    let mut lines: Vec<String> = Vec::new();
    proof {
        reveal_strlit("");
        assert(lines_view(lines@) =~= Seq::empty());
        assert("state snapshot"@ + ""@ =~= "state snapshot"@);
    }
    push_line(&mut lines, "state snapshot", "");
    push_line(&mut lines, "state version: ", decimal_text(state.state_version).as_str());
    push_line(&mut lines, "monitors: ", decimal_text(state.monitors.len() as u64).as_str());
    push_line(&mut lines, "workspaces: ", decimal_text(state.workspaces.len() as u64).as_str());
    push_line(&mut lines, "windows: ", decimal_text(state.windows.len() as u64).as_str());
    let focused: String = match state.focus.focused_window_id {
        Some(id) => decimal_text(id.raw),
        None => "none".to_owned(),
    };
    push_line(&mut lines, "focused window: ", focused.as_str());
    push_line(&mut lines, "overview open: ", truth_word(state.overview.is_open));
    push_line(&mut lines, "config version: ", decimal_text(state.config_version).as_str());
    push_line(&mut lines, "config rules: ", decimal_text(state.active_rule_count).as_str());
    push_line(&mut lines, "touchpad override: ", touchpad.summary_label());
    push_line(
        &mut lines,
        "touchpad gesture bindings: ",
        decimal_text(touchpad.configured_gesture_count as u64).as_str(),
    );
    assert(lines_view(lines@) =~= snapshot_head(*state, touchpad@));
    if let Some(detail) = &touchpad.detail {
        push_line(&mut lines, "touchpad override detail: ", detail.as_str());
    }
    assert(lines_view(lines@) =~= snapshot_head(*state, touchpad@) + snapshot_detail(touchpad@));
    if let Some(workspace) = find_focused_workspace(state) {
        push_line(&mut lines, "active workspace: ", decimal_text(workspace.id.raw).as_str());
        push_line(
            &mut lines,
            "strip scroll offset: ",
            signed_decimal_text(workspace.scroll_offset as i64).as_str(),
        );
        push_line(
            &mut lines,
            "strip columns: ",
            decimal_text(workspace.ordered_column_ids.len() as u64).as_str(),
        );
    }
    assert(lines_view(lines@) =~= snapshot_lines(*state, touchpad@));
    lines
}

/// A window that can be activated from the overview is one that could be looked up there; and
/// nothing can be activated or dropped while the overview is closed.
pub proof fn law_closed_overview_takes_no_requests(state: WmState, raw_hwnd: u64, id: WorkspaceId)
    requires
        !state.overview.is_open || state.overview.monitor_id is None,
    ensures
        !activation_target_valid(state, raw_hwnd),
        !workspace_target_valid(state, id),
{
}

/// What the overview looks up by a handle is a managed window with that handle on the
/// overview's monitor.
pub proof fn law_overview_window_is_bound(state: WmState, raw_hwnd: u64)
    ensures
        overview_window(state, raw_hwnd) matches Some(window) ==> state.overview.monitor_id
            is Some && bound_on(state, window, raw_hwnd, state.overview.monitor_id->0),
        overview_window(state, raw_hwnd) is None && state.overview.monitor_id is Some ==> forall|
            i: int,
        |
            0 <= i < state.windows@.len() ==> !bound_on(
                state,
                #[trigger] state.windows@[i],
                raw_hwnd,
                state.overview.monitor_id->0,
            ),
{
    if let Some(monitor_id) = state.overview.monitor_id {
        let test = |window: WindowNode| bound_on(state, window, raw_hwnd, monitor_id);
        lemma_first_index_holds(state.windows@, test);
        assert forall|i: int|
            0 <= i < state.windows@.len() && overview_window(state, raw_hwnd)
                is None implies !bound_on(
            state,
            #[trigger] state.windows@[i],
            raw_hwnd,
            monitor_id,
        ) by {
            assert(!test(state.windows@[i]));
        }
    }
}

/// A drop behind a window puts the column into the workspace that it was dropped on, behind a
/// column that stands there.
pub proof fn law_drop_anchor_stands_in_the_target(
    state: WmState,
    target: WorkspaceId,
    raw_hwnd: u64,
)
    ensures
        drop_anchor(state, target, None) == Some(None::<ColumnId>),
        drop_anchor(state, target, Some(raw_hwnd)) matches Some(anchor) ==> anchor is Some && {
            let window = overview_window(state, raw_hwnd)->0;
            window.workspace_id == target && window.column_id == anchor && stands_in_a_column(
                window,
            )
        },
{
}

/// Whether a window is a managed one with a handle, in a workspace of a monitor.
pub open spec fn lives_on(
    state: WmState,
    window: WindowNode,
    raw_hwnd: u64,
    monitor_id: MonitorId,
) -> bool {
    &&& window.is_managed
    &&& window.current_hwnd_binding == Some(raw_hwnd)
    &&& state.workspace(window.workspace_id) matches Some(workspace) && workspace.monitor_id
        == monitor_id
}

/// Exactly the managed windows of the open overview's monitor can be activated by a click, and
/// a column can be dropped on exactly the workspaces of that monitor.
pub proof fn law_the_overview_takes_what_it_shows(
    state: WmState,
    raw_hwnd: u64,
    id: WorkspaceId,
)
    ensures
        activation_target_valid(state, raw_hwnd) <==> {
            &&& raw_hwnd != 0
            &&& state.overview.is_open
            &&& state.overview.monitor_id matches Some(monitor_id) && exists|i: int|
                0 <= i < state.windows@.len() && lives_on(
                    state,
                    #[trigger] state.windows@[i],
                    raw_hwnd,
                    monitor_id,
                )
        },
        workspace_target_valid(state, id) <==> {
            &&& state.overview.is_open
            &&& state.overview.monitor_id matches Some(monitor_id) && (state.workspace(
                id,
            ) matches Some(workspace) && workspace.monitor_id == monitor_id)
        },
{
    if state.overview.monitor_id is Some {
        let monitor_id = state.overview.monitor_id->0;
        let test = |window: WindowNode| bound_on(state, window, raw_hwnd, monitor_id);
        lemma_first_index_holds(state.windows@, test);
        let at = first_index(state.windows@, test);
        if at < state.windows@.len() {
            assert(lives_on(state, state.windows@[at], raw_hwnd, monitor_id));
        }
        assert forall|i: int|
            0 <= i < state.windows@.len() && overview_window(
                state,
                raw_hwnd,
            ) is None implies !lives_on(
            state,
            #[trigger] state.windows@[i],
            raw_hwnd,
            monitor_id,
        ) by {
            assert(!test(state.windows@[i]));
        }
    }
}

/// What a handle stands for in the overview is the first window that lives on its monitor under
/// that handle. It is dragged with its column where it stands in one: on the tiled layer,
/// neither floating nor filling the screen. A drop behind it needs the same, and that it belongs
/// to the workspace that takes the drop; a drop behind nothing always works.
pub proof fn law_columns_are_dragged_by_their_windows(
    state: WmState,
    raw_hwnd: u64,
    monitor_id: MonitorId,
    target: WorkspaceId,
    i: int,
)
    requires
        state.overview.monitor_id == Some(monitor_id),
        0 <= i < state.windows@.len(),
        lives_on(state, state.windows@[i], raw_hwnd, monitor_id),
        forall|j: int|
            0 <= j < i ==> !lives_on(state, #[trigger] state.windows@[j], raw_hwnd, monitor_id),
    ensures
        ({
            let window = state.windows@[i];
            let in_column = window.layer == WindowLayer::Tiled && !window.is_floating
                && !window.is_fullscreen;
            &&& overview_window(state, raw_hwnd) == Some(window)
            &&& in_column ==> drag_source(state, raw_hwnd) == window.column_id
            &&& !in_column ==> drag_source(state, raw_hwnd) is None
            &&& in_column && window.workspace_id == target ==> (match window.column_id {
                Some(column_id) => drop_anchor(state, target, Some(raw_hwnd)) == Some(
                    Some(column_id),
                ),
                None => drop_anchor(state, target, Some(raw_hwnd)) is None,
            })
            &&& !in_column || window.workspace_id != target ==> drop_anchor(
                state,
                target,
                Some(raw_hwnd),
            ) is None
            &&& drop_anchor(state, target, None) == Some(None::<ColumnId>)
        }),
{
    let test = |window: WindowNode| bound_on(state, window, raw_hwnd, monitor_id);
    assert forall|j: int| 0 <= j < i implies !test(#[trigger] state.windows@[j]) by {
        assert(!lives_on(state, state.windows@[j], raw_hwnd, monitor_id));
    }
    lemma_first_index(state.windows@, test, i);
}

/// A handle that no window of the overview's monitor lives under drags nothing and takes no drop.
pub proof fn law_unknown_handles_do_nothing(state: WmState, raw_hwnd: u64, target: WorkspaceId)
    requires
        state.overview.monitor_id matches Some(monitor_id) ==> forall|j: int|
            0 <= j < state.windows@.len() ==> !lives_on(
                state,
                #[trigger] state.windows@[j],
                raw_hwnd,
                monitor_id,
            ),
    ensures
        overview_window(state, raw_hwnd) is None,
        drag_source(state, raw_hwnd) is None,
        drop_anchor(state, target, Some(raw_hwnd)) is None,
{
    if state.overview.monitor_id is Some {
        let monitor_id = state.overview.monitor_id->0;
        let test = |window: WindowNode| bound_on(state, window, raw_hwnd, monitor_id);
        assert forall|j: int| 0 <= j < state.windows@.len() implies !test(
            #[trigger] state.windows@[j],
        ) by {
            assert(!lives_on(state, state.windows@[j], raw_hwnd, monitor_id));
        }
        lemma_first_index(state.windows@, test, state.windows@.len() as int);
    }
}

/// The window to be closed is the managed one that has the focus, if it has a handle.
pub proof fn law_the_focused_window_is_meant(state: WmState, window: WindowNode)
    ensures
        state.focus.focused_window_id is None ==> focused_hwnd(state) is None,
        state.focus.focused_window_id matches Some(id) ==> (state.window(id) == Some(window) ==> {
            &&& window.is_managed ==> focused_hwnd(state) == window.current_hwnd_binding
            &&& !window.is_managed ==> focused_hwnd(state) is None
        }),
{
}

/// A snapshot counts what the state holds, names what has the focus, says whether the overview
/// is open and how the touchpad stands, and ends with the active workspace of the focused
/// monitor, where there is one.
pub proof fn law_snapshots_tell_the_state(state: WmState, touchpad: AssessmentView)
    ensures
        ({
            let lines = snapshot_lines(state, touchpad);
            let after = if touchpad.detail is Some {
                12int
            } else {
                11
            };
            &&& lines.len() >= 11
            &&& lines[0] == "state snapshot"@
            &&& lines[1] == "state version: "@ + decimal(state.state_version as nat)
            &&& lines[2] == "monitors: "@ + decimal(state.monitors@.len())
            &&& lines[3] == "workspaces: "@ + decimal(state.workspaces@.len())
            &&& lines[4] == "windows: "@ + decimal(state.windows@.len())
            &&& state.focus.focused_window_id is None ==> lines[5] == "focused window: "@ + "none"@
            &&& state.focus.focused_window_id matches Some(id) ==> lines[5] == "focused window: "@
                + decimal(id.raw as nat)
            &&& state.overview.is_open ==> lines[6] == "overview open: "@ + "true"@
            &&& !state.overview.is_open ==> lines[6] == "overview open: "@ + "false"@
            &&& lines[7] == "config version: "@ + decimal(state.config_version as nat)
            &&& lines[8] == "config rules: "@ + decimal(state.active_rule_count as nat)
            &&& lines[9] == "touchpad override: "@ + label_of(touchpad.status)
            &&& lines[10] == "touchpad gesture bindings: "@ + decimal(touchpad.configured)
            &&& touchpad.detail matches Some(detail) ==> lines[11] == "touchpad override detail: "@
                + detail
            &&& focused_workspace(state) is None ==> lines.len() == after
            &&& focused_workspace(state) matches Some(workspace) ==> lines.len() == after + 3
                && lines[after] == "active workspace: "@ + decimal(workspace.id.raw as nat)
                && lines[after + 1] == "strip scroll offset: "@ + signed_decimal(
                workspace.scroll_offset as int,
            ) && lines[after + 2] == "strip columns: "@ + decimal(
                workspace.ordered_column_ids@.len(),
            )
        }),
{
}

/// The active workspace is that of the monitor that has the focus.
pub proof fn law_the_active_workspace_has_the_focus(
    state: WmState,
    monitor: Monitor,
    workspace: Workspace,
)
    ensures
        state.focus.focused_monitor_id is None ==> focused_workspace(state) is None,
        state.focus.focused_monitor_id matches Some(id) ==> (state.monitor(id) == Some(monitor)
            ==> focused_workspace(state) == (match monitor.active_workspace_id {
            Some(id) => state.workspace(id),
            None => None,
        })),
{
}

/// A manual request gets the next number, and the one after it the number that follows.
pub proof fn law_numbers_follow_one_another(counter: &mut u64, r: CorrelationId)
    requires
        call_ensures(next_manual_correlation_id, (counter,), r),
    ensures
        r.raw == *old(counter),
        *final(counter) == *old(counter) + 1,
{
}

/// Every report counts one more iteration, and the state is broadcast exactly where its
/// version is not the one that was broadcast last, which it then is.
pub proof fn law_new_versions_are_broadcast(
    completed: &mut u64,
    current_version: u64,
    last_streamed: &mut u64,
    r: (u64, bool),
)
    requires
        call_ensures(record_runtime_report, (completed, current_version, last_streamed), r),
    ensures
        *final(completed) == *old(completed) + 1 && r.0 == *old(completed) + 1,
        r.1 <==> *old(last_streamed) != current_version,
        *final(last_streamed) == current_version,
{
}

/// A surface is missed exactly where there is none although the overview is open and may be
/// shown.
pub proof fn law_open_overviews_miss_their_surface(
    present: bool,
    management_enabled: bool,
    state: &WmState,
    r: bool,
)
    requires
        call_ensures(overview_surface_is_missed, (present, management_enabled, state), r),
    ensures
        r ==> !present && management_enabled && state.overview.is_open && !(state.boot_mode
            is SafeMode),
        !r ==> present || !management_enabled || !state.overview.is_open || state.boot_mode
            is SafeMode,
{
}

/// A surface that fails is told with its name and its error, to the user and in the log.
pub proof fn law_failing_surfaces_are_told(kind: &str, error: &str, r: (String, String))
    requires
        call_ensures(visual_surface_error, (kind, error), r),
    ensures
        r.0@ == kind@ + " degraded: "@ + error@,
        r.1@ == "watch: "@ + (kind@ + " degraded: "@ + error@),
{
}

} // verus!
