//! Requests that reach the watch loop from the overview and from clients.

use crate::control::ControlMessage;
use crate::ids::{ColumnId, CorrelationId, WorkspaceId};
use crate::text::{decimal_text, quoted};
use crate::watch::commands::{handle_watch_command, DomainCommand, DomainEvent, WatchPlan};
use crate::watch::support::{
    next_manual_correlation_id, overview_activation_target_is_valid,
    overview_drag_source_column_id, overview_drop_anchor_column_id,
    overview_workspace_target_is_valid,
};
use crate::wm_state::WmState;
use vstd::prelude::*;
use vstd::string::*;

verus! {

use crate::text::decimal;
use crate::watch::commands::is_plan_for;
use crate::watch::support::{
    activation_target_valid, drag_source, drop_anchor, workspace_target_valid,
};

/// What follows once a request from the overview has been carried out.
#[derive(Clone, Copy, Debug, PartialEq, Eq, Structural)]
pub enum OverviewFollowUp {
    /// The window that was clicked is activated.
    ActivateWindow { raw_hwnd: u64 },
    Dismissed,
    ColumnMoved {
        source_column_id: ColumnId,
        target_workspace_id: WorkspaceId,
        anchor_column_id: Option<ColumnId>,
    },
}

/// What a request from the overview comes to.
#[derive(Clone, Debug, PartialEq, Eq)]
pub enum OverviewPlan {
    /// Nothing, but for a line in the log.
    Ignore { log: String },
    /// A request to the window manager, the name that it is reported under and what it is
    /// announced as. The surfaces follow the state afterwards.
    Dispatch {
        event: DomainEvent,
        runtime_label: &'static str,
        banner: &'static str,
        follow_up: OverviewFollowUp,
    },
}

impl OverviewPlan {
    pub open spec fn ignores(self, log: Seq<char>) -> bool {
        self matches OverviewPlan::Ignore { log: line } && line@ == log
    }

    pub open spec fn dispatches(
        self,
        correlation_id: u64,
        command: DomainCommand,
        label: Seq<char>,
        announced: Seq<char>,
        next: OverviewFollowUp,
    ) -> bool {
        self matches OverviewPlan::Dispatch { event, runtime_label, banner, follow_up } && {
            &&& event == (DomainEvent {
                correlation_id: CorrelationId { raw: correlation_id },
                command,
            })
            &&& runtime_label@ == label
            &&& banner@ == announced
            &&& follow_up == next
        }
    }
}

/// What a click on a window of a preview comes to, and the counter before and after it.
pub open spec fn activation_plan(
    plan: OverviewPlan,
    raw_hwnd: u64,
    state: WmState,
    before: u64,
    after: u64,
) -> bool {
    if activation_target_valid(state, raw_hwnd) {
        &&& after == before + 1
        &&& plan.dispatches(
            before,
            DomainCommand::CloseOverview,
            "overview-click-close-overview"@,
            "overview action: activate-window"@,
            OverviewFollowUp::ActivateWindow { raw_hwnd },
        )
    } else {
        &&& after == before
        &&& plan.ignores(
            "watch: overview-activate-window-ignored hwnd="@ + decimal(raw_hwnd as nat),
        )
    }
}

/// A click on a window of a preview closes the overview, after which the window is activated.
pub fn handle_overview_activate_window(
    raw_hwnd: u64,
    state: &WmState,
    manual_correlation_id: &mut u64,
) -> (r: OverviewPlan)
    requires
        *old(manual_correlation_id) < u64::MAX,
    ensures
        activation_plan(
            r,
            raw_hwnd,
            *state,
            *old(manual_correlation_id),
            *final(manual_correlation_id),
        ),
{
    if !overview_activation_target_is_valid(state, raw_hwnd) {
        let mut log: String = "watch: overview-activate-window-ignored hwnd=".to_owned();
        log.append(decimal_text(raw_hwnd).as_str());
        return OverviewPlan::Ignore { log };
    }
    OverviewPlan::Dispatch {
        event: DomainEvent {
            correlation_id: next_manual_correlation_id(manual_correlation_id),
            command: DomainCommand::CloseOverview,
        },
        runtime_label: "overview-click-close-overview",
        banner: "overview action: activate-window",
        follow_up: OverviewFollowUp::ActivateWindow { raw_hwnd },
    }
}

/// What came of activating a window that was clicked: nothing was tried in a dry run.
#[derive(Clone, Debug, PartialEq, Eq)]
pub enum ActivationOutcome {
    DryRun,
    Activated,
    Failed(String),
}

/// What is logged of the activation, and what the user is told where it failed.
pub fn report_activation(raw_hwnd: u64, outcome: ActivationOutcome) -> (r: (String, Option<String>))
    ensures
        match outcome {
            ActivationOutcome::DryRun => r.0@ == "watch: overview-activate-window-dry-run hwnd="@
                + decimal(raw_hwnd as nat) && r.1 is None,
            ActivationOutcome::Activated => r.0@ == "watch: overview-activate-window-ok hwnd="@
                + decimal(raw_hwnd as nat) && r.1 is None,
            ActivationOutcome::Failed(error) => r.0@
                == "watch: overview-activate-window-error hwnd="@ + decimal(raw_hwnd as nat)
                + " error="@ + error@ && r.1 is Some && (r.1->0)@
                == "overview click activation failed: "@ + error@,
        },
{
    match outcome {
        ActivationOutcome::DryRun => {
            let mut log: String = "watch: overview-activate-window-dry-run hwnd=".to_owned();
            log.append(decimal_text(raw_hwnd).as_str());
            (log, None)
        },
        ActivationOutcome::Activated => {
            let mut log: String = "watch: overview-activate-window-ok hwnd=".to_owned();
            log.append(decimal_text(raw_hwnd).as_str());
            (log, None)
        },
        ActivationOutcome::Failed(error) => {
            let mut log: String = quoted(
                "watch: overview-activate-window-error hwnd=",
                decimal_text(raw_hwnd).as_str(),
                " error=",
            );
            log.append(error.as_str());
            let mut line: String = "overview click activation failed: ".to_owned();
            line.append(error.as_str());
            (log, Some(line))
        },
    }
}

/// What a click beside the previews comes to, and the counter before and after it.
pub open spec fn dismissal_plan(
    plan: OverviewPlan,
    state: WmState,
    before: u64,
    after: u64,
) -> bool {
    if state.overview.is_open {
        &&& after == before + 1
        &&& plan.dispatches(
            before,
            DomainCommand::CloseOverview,
            "overview-dismiss-close-overview"@,
            "overview action: dismiss"@,
            OverviewFollowUp::Dismissed,
        )
    } else {
        &&& after == before
        &&& plan.ignores("watch: overview-dismiss-ignored"@)
    }
}

/// A click beside the previews closes the overview.
pub fn handle_overview_dismiss(state: &WmState, manual_correlation_id: &mut u64) -> (r:
    OverviewPlan)
    requires
        *old(manual_correlation_id) < u64::MAX,
    ensures
        dismissal_plan(r, *state, *old(manual_correlation_id), *final(manual_correlation_id)),
{
    if !state.overview.is_open {
        return OverviewPlan::Ignore { log: "watch: overview-dismiss-ignored".to_owned() };
    }
    OverviewPlan::Dispatch {
        event: DomainEvent {
            correlation_id: next_manual_correlation_id(manual_correlation_id),
            command: DomainCommand::CloseOverview,
        },
        runtime_label: "overview-dismiss-close-overview",
        banner: "overview action: dismiss",
        follow_up: OverviewFollowUp::Dismissed,
    }
}

/// What a request to move a column comes to: the column that moves and the one it is put
/// behind; else why it is ignored.
pub open spec fn column_move(
    state: WmState,
    dragged_raw_hwnd: u64,
    target: WorkspaceId,
    insert_after_raw_hwnd: Option<u64>,
) -> Result<(ColumnId, Option<ColumnId>), Seq<char>> {
    if !workspace_target_valid(state, target) {
        Err(
            "watch: overview-move-column-ignored invalid-target-workspace="@ + decimal(
                target.raw as nat,
            ),
        )
    } else {
        match drag_source(state, dragged_raw_hwnd) {
            None => Err(
                "watch: overview-move-column-ignored invalid-source hwnd="@ + decimal(
                    dragged_raw_hwnd as nat,
                ),
            ),
            Some(source) => match drop_anchor(state, target, insert_after_raw_hwnd) {
                None => Err(
                    "watch: overview-move-column-ignored invalid-anchor hwnd="@ + optional_number(
                        insert_after_raw_hwnd,
                    ),
                ),
                Some(anchor) => Ok((source, anchor)),
            },
        }
    }
}

/// A number that may be missing, as it is logged.
pub open spec fn optional_number(number: Option<u64>) -> Seq<char> {
    match number {
        Some(number) => "Some("@ + decimal(number as nat) + ")"@,
        None => "None"@,
    }
}

fn optional_number_text(number: Option<u64>) -> (r: String)
    ensures
        r@ == optional_number(number),
{
    match number {
        Some(number) => quoted("Some(", decimal_text(number).as_str(), ")"),
        None => "None".to_owned(),
    }
}

/// What a column that was dropped on a preview comes to, and the counter before and after it.
pub open spec fn drop_plan(
    plan: OverviewPlan,
    state: WmState,
    dragged_raw_hwnd: u64,
    target_workspace_id: WorkspaceId,
    insert_after_raw_hwnd: Option<u64>,
    before: u64,
    after: u64,
) -> bool {
    match column_move(state, dragged_raw_hwnd, target_workspace_id, insert_after_raw_hwnd) {
        Ok((source_column_id, anchor_column_id)) => {
            &&& after == before + 1
            &&& plan.dispatches(
                before,
                DomainCommand::MoveColumnToWorkspaceTarget {
                    source_column_id,
                    target_workspace_id,
                    anchor_column_id,
                },
                "overview-drag-drop-column"@,
                "overview action: move-column"@,
                OverviewFollowUp::ColumnMoved {
                    source_column_id,
                    target_workspace_id,
                    anchor_column_id,
                },
            )
        },
        Err(log) => {
            &&& after == before
            &&& plan.ignores(log)
        },
    }
}

/// A column that was dropped on a preview moves to its workspace.
pub fn handle_overview_move_column(
    dragged_raw_hwnd: u64,
    target_workspace_id: WorkspaceId,
    insert_after_raw_hwnd: Option<u64>,
    state: &WmState,
    manual_correlation_id: &mut u64,
) -> (r: OverviewPlan)
    requires
        *old(manual_correlation_id) < u64::MAX,
    ensures
        drop_plan(
            r,
            *state,
            dragged_raw_hwnd,
            target_workspace_id,
            insert_after_raw_hwnd,
            *old(manual_correlation_id),
            *final(manual_correlation_id),
        ),
{
    if !overview_workspace_target_is_valid(state, target_workspace_id) {
        let mut log: String =
            "watch: overview-move-column-ignored invalid-target-workspace=".to_owned();
        log.append(decimal_text(target_workspace_id.raw).as_str());
        return OverviewPlan::Ignore { log };
    }
    let source_column_id: ColumnId = match overview_drag_source_column_id(
        state,
        dragged_raw_hwnd,
    ) {
        Some(source_column_id) => source_column_id,
        None => {
            let mut log: String =
                "watch: overview-move-column-ignored invalid-source hwnd=".to_owned();
            log.append(decimal_text(dragged_raw_hwnd).as_str());
            return OverviewPlan::Ignore { log };
        },
    };
    let anchor_column_id: Option<ColumnId> = match overview_drop_anchor_column_id(
        state,
        target_workspace_id,
        insert_after_raw_hwnd,
    ) {
        Some(anchor_column_id) => anchor_column_id,
        None => {
            let mut log: String =
                "watch: overview-move-column-ignored invalid-anchor hwnd=".to_owned();
            log.append(optional_number_text(insert_after_raw_hwnd).as_str());
            return OverviewPlan::Ignore { log };
        },
    };
    OverviewPlan::Dispatch {
        event: DomainEvent {
            correlation_id: next_manual_correlation_id(manual_correlation_id),
            command: DomainCommand::MoveColumnToWorkspaceTarget {
                source_column_id,
                target_workspace_id,
                anchor_column_id,
            },
        },
        runtime_label: "overview-drag-drop-column",
        banner: "overview action: move-column",
        follow_up: OverviewFollowUp::ColumnMoved {
            source_column_id,
            target_workspace_id,
            anchor_column_id,
        },
    }
}

pub open spec fn moved_column_text(
    source_column_id: ColumnId,
    target_workspace_id: WorkspaceId,
    anchor_column_id: Option<ColumnId>,
) -> Seq<char> {
    "watch: overview-move-column-ok column="@ + decimal(source_column_id.raw as nat)
        + " target_workspace="@ + decimal(target_workspace_id.raw as nat) + " anchor="@
        + optional_number(
        match anchor_column_id {
            Some(column_id) => Some(column_id.raw),
            None => None,
        },
    )
}

/// What is logged of a column that has moved.
pub fn moved_column_log(
    source_column_id: ColumnId,
    target_workspace_id: WorkspaceId,
    anchor_column_id: Option<ColumnId>,
) -> (r: String)
    ensures
        r@ == moved_column_text(source_column_id, target_workspace_id, anchor_column_id),
{
    let anchor: Option<u64> = match anchor_column_id {
        Some(column_id) => Some(column_id.raw),
        None => None,
    };
    let mut log: String = quoted(
        "watch: overview-move-column-ok column=",
        decimal_text(source_column_id.raw).as_str(),
        " target_workspace=",
    );
    log.append(decimal_text(target_workspace_id.raw).as_str());
    log.append(" anchor=");
    log.append(optional_number_text(anchor).as_str());
    log
}

/// What a message to the watch loop comes to.
#[derive(Clone, Debug, PartialEq, Eq)]
pub enum MessagePlan {
    Command(WatchPlan),
    Overview(OverviewPlan),
    /// A client's request has to be answered.
    Request { command: String },
    /// A client wants to be told of changes. It is kept once a first snapshot has reached it.
    Subscription,
}

/// Decides what a message takes.
pub fn handle_control_message(
    message: ControlMessage,
    state: &WmState,
    manual_correlation_id: &mut u64,
) -> (r: MessagePlan)
    requires
        *old(manual_correlation_id) < u64::MAX,
    ensures
        ({
            let before = *old(manual_correlation_id);
            let after = *final(manual_correlation_id);
            match message {
                ControlMessage::Watch(command) => r matches MessagePlan::Command(plan) && after
                    == before + 1 && is_plan_for(plan, command, before, *state),
                ControlMessage::OverviewActivateWindow { raw_hwnd } => r matches MessagePlan::Overview(
                    plan,
                ) && activation_plan(plan, raw_hwnd, *state, before, after),
                ControlMessage::OverviewDismiss => r matches MessagePlan::Overview(plan)
                    && dismissal_plan(plan, *state, before, after),
                ControlMessage::OverviewMoveColumn {
                    dragged_raw_hwnd,
                    target_workspace_id,
                    insert_after_raw_hwnd,
                } => r matches MessagePlan::Overview(plan) && drop_plan(
                    plan,
                    *state,
                    dragged_raw_hwnd,
                    target_workspace_id,
                    insert_after_raw_hwnd,
                    before,
                    after,
                ),
                ControlMessage::IpcRequest { command } => r == (MessagePlan::Request { command })
                    && after == before,
                ControlMessage::EventSubscribe => r == MessagePlan::Subscription && after == before,
            }
        }),
{
    match message {
        ControlMessage::Watch(command) => MessagePlan::Command(
            handle_watch_command(command, manual_correlation_id, state),
        ),
        ControlMessage::OverviewActivateWindow { raw_hwnd } => MessagePlan::Overview(
            handle_overview_activate_window(raw_hwnd, state, manual_correlation_id),
        ),
        ControlMessage::OverviewDismiss => MessagePlan::Overview(
            handle_overview_dismiss(state, manual_correlation_id),
        ),
        ControlMessage::OverviewMoveColumn {
            dragged_raw_hwnd,
            target_workspace_id,
            insert_after_raw_hwnd,
        } => MessagePlan::Overview(
            handle_overview_move_column(
                dragged_raw_hwnd,
                target_workspace_id,
                insert_after_raw_hwnd,
                state,
                manual_correlation_id,
            ),
        ),
        ControlMessage::IpcRequest { command } => MessagePlan::Request { command },
        ControlMessage::EventSubscribe => MessagePlan::Subscription,
    }
}

/// A column is moved only to a workspace of the open overview's monitor, and only where the
/// dragged window stands in a column.
pub proof fn law_columns_move_within_the_overview(
    state: WmState,
    dragged_raw_hwnd: u64,
    target: WorkspaceId,
    insert_after_raw_hwnd: Option<u64>,
)
    ensures
        column_move(state, dragged_raw_hwnd, target, insert_after_raw_hwnd) matches Ok((
            source,
            anchor,
        )) ==> workspace_target_valid(state, target) && drag_source(state, dragged_raw_hwnd)
            == Some(source) && drop_anchor(state, target, insert_after_raw_hwnd) == Some(anchor),
        !state.overview.is_open ==> column_move(
            state,
            dragged_raw_hwnd,
            target,
            insert_after_raw_hwnd,
        ) is Err,
{
}

/// Whether a plan hands a request to the window manager, with its number, its command, the name
/// that it is reported under, what it is announced as, and what follows it.
pub open spec fn asks_for(
    plan: OverviewPlan,
    number: u64,
    command: DomainCommand,
    label: Seq<char>,
    announced: Seq<char>,
    next: OverviewFollowUp,
) -> bool {
    plan matches OverviewPlan::Dispatch { event, runtime_label, banner, follow_up }
        && event.correlation_id.raw == number && event.command == command && runtime_label@ == label
        && banner@ == announced && follow_up == next
}

/// A click on a window that the overview shows closes the overview and then activates that
/// window; any other click is ignored and uses up no number.
pub proof fn law_clicks_close_the_overview(
    plan: OverviewPlan,
    raw_hwnd: u64,
    state: WmState,
    before: u64,
    after: u64,
)
    requires
        activation_plan(plan, raw_hwnd, state, before, after),
    ensures
        activation_target_valid(state, raw_hwnd) ==> after == before + 1 && asks_for(
            plan,
            before,
            DomainCommand::CloseOverview,
            "overview-click-close-overview"@,
            "overview action: activate-window"@,
            OverviewFollowUp::ActivateWindow { raw_hwnd },
        ),
        !activation_target_valid(state, raw_hwnd) ==> after == before && (
        plan matches OverviewPlan::Ignore { log } && log@
            == "watch: overview-activate-window-ignored hwnd="@ + decimal(raw_hwnd as nat)),
{
}

/// A click beside the previews closes an open overview, and is ignored where none is open.
pub proof fn law_dismissals_close_the_overview(
    plan: OverviewPlan,
    state: WmState,
    before: u64,
    after: u64,
)
    requires
        dismissal_plan(plan, state, before, after),
    ensures
        state.overview.is_open ==> after == before + 1 && asks_for(
            plan,
            before,
            DomainCommand::CloseOverview,
            "overview-dismiss-close-overview"@,
            "overview action: dismiss"@,
            OverviewFollowUp::Dismissed,
        ),
        !state.overview.is_open ==> after == before && (plan matches OverviewPlan::Ignore { log }
            && log@ == "watch: overview-dismiss-ignored"@),
{
}

/// A drop moves the column of the dragged window to the workspace that it was dropped on,
/// behind the column of the window it was dropped behind. It is ignored, with the reason, where
/// that workspace takes no drops, where no column is dragged, or where nothing can stand behind
/// that window, in this order.
pub proof fn law_drops_move_the_dragged_column(
    plan: OverviewPlan,
    state: WmState,
    dragged: u64,
    target: WorkspaceId,
    behind: Option<u64>,
    before: u64,
    after: u64,
)
    requires
        drop_plan(plan, state, dragged, target, behind, before, after),
    ensures
        ({
            let taken = workspace_target_valid(state, target);
            let source = drag_source(state, dragged);
            let anchor = drop_anchor(state, target, behind);
            &&& taken && source is Some && anchor is Some ==> after == before + 1 && asks_for(
                plan,
                before,
                DomainCommand::MoveColumnToWorkspaceTarget {
                    source_column_id: source->0,
                    target_workspace_id: target,
                    anchor_column_id: anchor->0,
                },
                "overview-drag-drop-column"@,
                "overview action: move-column"@,
                OverviewFollowUp::ColumnMoved {
                    source_column_id: source->0,
                    target_workspace_id: target,
                    anchor_column_id: anchor->0,
                },
            )
            &&& !(taken && source is Some && anchor is Some) ==> after == before && (
            plan matches OverviewPlan::Ignore { log } && {
                &&& !taken ==> log@
                    == "watch: overview-move-column-ignored invalid-target-workspace="@ + decimal(
                    target.raw as nat,
                )
                &&& taken && source is None ==> log@
                    == "watch: overview-move-column-ignored invalid-source hwnd="@ + decimal(
                    dragged as nat,
                )
                &&& taken && source is Some ==> log@
                    == "watch: overview-move-column-ignored invalid-anchor hwnd="@ + (
                match behind {
                    Some(hwnd) => "Some("@ + decimal(hwnd as nat) + ")"@,
                    None => "None"@,
                })
            })
        }),
{
}

/// What is logged of a column that has moved names it, its workspace and its anchor.
pub proof fn law_moves_are_logged(
    source: ColumnId,
    target: WorkspaceId,
    anchor: Option<ColumnId>,
    log: String,
)
    requires
        call_ensures(moved_column_log, (source, target, anchor), log),
    ensures
        log@ == "watch: overview-move-column-ok column="@ + decimal(source.raw as nat)
            + " target_workspace="@ + decimal(target.raw as nat) + " anchor="@ + (match anchor {
            Some(column) => "Some("@ + decimal(column.raw as nat) + ")"@,
            None => "None"@,
        }),
{
}

/// Every message becomes the plan of its own kind; requests and subscriptions of clients use
/// up no number.
pub proof fn law_messages_become_their_plans(
    message: ControlMessage,
    state: &WmState,
    number: &mut u64,
    r: MessagePlan,
)
    requires
        call_ensures(handle_control_message, (message, state, number), r),
    ensures
        message matches ControlMessage::Watch(command) ==> (r matches MessagePlan::Command(plan)
            && is_plan_for(plan, command, *old(number), *state) && *final(number) == *old(number)
            + 1),
        message matches ControlMessage::OverviewActivateWindow { raw_hwnd } ==> (
        r matches MessagePlan::Overview(plan) && activation_plan(
            plan,
            raw_hwnd,
            *state,
            *old(number),
            *final(number),
        )),
        message is OverviewDismiss ==> (r matches MessagePlan::Overview(plan) && dismissal_plan(
            plan,
            *state,
            *old(number),
            *final(number),
        )),
        message matches ControlMessage::OverviewMoveColumn {
            dragged_raw_hwnd,
            target_workspace_id,
            insert_after_raw_hwnd,
        } ==> (r matches MessagePlan::Overview(plan) && drop_plan(
            plan,
            *state,
            dragged_raw_hwnd,
            target_workspace_id,
            insert_after_raw_hwnd,
            *old(number),
            *final(number),
        )),
        message matches ControlMessage::IpcRequest { command } ==> r == (MessagePlan::Request {
            command,
        }) && *final(number) == *old(number),
        message is EventSubscribe ==> r is Subscription && *final(number) == *old(number),
{
}

/// What is told of a window that was clicked: only a failure reaches the user.
pub proof fn law_activations_are_told(
    raw_hwnd: u64,
    outcome: ActivationOutcome,
    r: (String, Option<String>),
)
    requires
        call_ensures(report_activation, (raw_hwnd, outcome), r),
    ensures
        outcome is DryRun ==> r.0@ == "watch: overview-activate-window-dry-run hwnd="@ + decimal(
            raw_hwnd as nat,
        ),
        outcome is Activated ==> r.0@ == "watch: overview-activate-window-ok hwnd="@ + decimal(
            raw_hwnd as nat,
        ),
        r.1 is Some <==> outcome is Failed,
        outcome matches ActivationOutcome::Failed(error) ==> r.0@
            == "watch: overview-activate-window-error hwnd="@ + decimal(raw_hwnd as nat)
            + " error="@ + error@ && (r.1->0)@ == "overview click activation failed: "@ + error@,
{
}

} // verus!
