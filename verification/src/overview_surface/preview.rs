//! The window that shows the previews: what a pointer does on it, and which part of the
//! screen it covers.

use crate::control::ControlMessage;
use crate::geometry::{intersect_rect, rect_bottom, rect_relative_to, rect_right, Rect};
use crate::ids::WorkspaceId;
use crate::overview_engine::frame::{OverviewRenderFrame, WorkspaceRenderFrame};
use crate::overview_engine::targets::{
    hit_test_preview_targets, hit_test_workspace_drop_targets, overview_viewport_column_rect,
    preview_click_targets, preview_target_at_point, preview_window_rects, PreviewClickTarget,
    WorkspaceDropTarget,
};
use crate::overview_surface::steps::{
    begin_preview_workspace_frame, finish_preview_frame, withdraw_preview_workspace, SurfaceStep,
};
use crate::win32::Win32Rect;
use std::collections::HashSet;
use vstd::prelude::*;

verus! {

use crate::arith::abs_int;
use crate::geometry::{intersection, relative_to};
use crate::overview_engine::frame::{FrameView, WorkspaceFrameView};
use crate::overview_engine::targets::{
    drop_target_at, target_at, viewport_column, window_targets,
};
use crate::overview_surface::steps::{
    frame_drawing, host_closing, host_opening, workspace_withdrawal, SurfaceWindow,
};

/// A button that went down on a window of a preview and is still held.
#[derive(Clone, Copy, Debug, PartialEq, Eq, Structural)]
pub struct PreviewDragSession {
    pub dragged_raw_hwnd: u64,
    pub origin_x: i32,
    pub origin_y: i32,
    /// Whether the pointer has moved far enough to drag the window.
    pub moved: bool,
}

/// What can be hit on the window, and what is being dragged over it.
#[derive(Debug)]
pub struct PreviewWindowState {
    pub click_targets: Vec<PreviewClickTarget>,
    pub workspace_targets: Vec<WorkspaceDropTarget>,
    pub drag_session: Option<PreviewDragSession>,
}

pub ghost struct PreviewStateView {
    pub click_targets: Seq<PreviewClickTarget>,
    pub workspace_targets: Seq<WorkspaceDropTarget>,
    pub drag_session: Option<PreviewDragSession>,
}

impl View for PreviewWindowState {
    type V = PreviewStateView;

    open spec fn view(&self) -> PreviewStateView {
        PreviewStateView {
            click_targets: self.click_targets@,
            workspace_targets: self.workspace_targets@,
            drag_session: self.drag_session,
        }
    }
}

/// What the release of the button means.
#[derive(Clone, Copy, Debug, PartialEq, Eq, Structural)]
pub enum PreviewPointerOutcome {
    ActivateWindow(u64),
    MoveColumn {
        dragged_raw_hwnd: u64,
        target_workspace_id: WorkspaceId,
        insert_after_raw_hwnd: Option<u64>,
    },
    Dismiss,
    Nothing,
}

/// What happened to the pointer over the window.
#[derive(Clone, Copy, Debug, PartialEq, Eq, Structural)]
pub enum PointerMessage {
    LeftDown,
    Move,
    CaptureChanged,
    LeftUp,
    RightUp,
    MiddleUp,
}

/// What becomes of the pointer capture.
#[derive(Clone, Copy, Debug, PartialEq, Eq, Structural)]
pub enum CaptureAction {
    Keep,
    Take,
    Release,
}

pub open spec fn hwnd_at(targets: Seq<PreviewClickTarget>, x: int, y: int) -> Option<u64> {
    match target_at(targets, x, y) {
        Some(target) => Some(target.hwnd),
        None => None,
    }
}

impl PreviewDragSession {
    /// Whether a point is far enough from where the button went down.
    pub open spec fn far_from_origin(self, x: int, y: int, threshold: int) -> bool {
        abs_int(x - self.origin_x) >= threshold || abs_int(y - self.origin_y) >= threshold
    }
}

impl PreviewStateView {
    /// What the release of the button at a point means: a click on what is there, a click on
    /// what the button went down on, or a drop.
    pub open spec fn outcome(self, x: int, y: int) -> PreviewPointerOutcome {
        match self.drag_session {
            None => match hwnd_at(self.click_targets, x, y) {
                Some(hwnd) => PreviewPointerOutcome::ActivateWindow(hwnd),
                None => PreviewPointerOutcome::Dismiss,
            },
            Some(session) => if !session.moved {
                PreviewPointerOutcome::ActivateWindow(session.dragged_raw_hwnd)
            } else {
                match drop_target_at(self.workspace_targets, x, y) {
                    None => PreviewPointerOutcome::Nothing,
                    Some(target_workspace_id) => PreviewPointerOutcome::MoveColumn {
                        dragged_raw_hwnd: session.dragged_raw_hwnd,
                        target_workspace_id,
                        insert_after_raw_hwnd: hwnd_at(self.click_targets, x, y),
                    },
                }
            },
        }
    }

    pub open spec fn pressed(self, x: i32, y: i32) -> PreviewStateView {
        match target_at(self.click_targets, x as int, y as int) {
            Some(target) => PreviewStateView {
                drag_session: Some(
                    PreviewDragSession {
                        dragged_raw_hwnd: target.hwnd,
                        origin_x: x,
                        origin_y: y,
                        moved: false,
                    },
                ),
                ..self
            },
            None => self,
        }
    }

    pub open spec fn dragged(self, x: int, y: int, threshold: int) -> PreviewStateView {
        match self.drag_session {
            Some(session) => if session.far_from_origin(x, y, threshold) {
                PreviewStateView {
                    drag_session: Some(PreviewDragSession { moved: true, ..session }),
                    ..self
                }
            } else {
                self
            },
            None => self,
        }
    }

    pub open spec fn released(self) -> PreviewStateView {
        PreviewStateView { drag_session: None, ..self }
    }

    /// The capture belongs to a session, so it ends with it.
    pub open spec fn capture_at_end(self) -> CaptureAction {
        if self.drag_session is Some {
            CaptureAction::Release
        } else {
            CaptureAction::Keep
        }
    }
}

/// The request that goes with an outcome.
pub open spec fn outcome_message(outcome: PreviewPointerOutcome) -> Option<ControlMessage> {
    match outcome {
        PreviewPointerOutcome::ActivateWindow(raw_hwnd) => Some(
            ControlMessage::OverviewActivateWindow { raw_hwnd },
        ),
        PreviewPointerOutcome::MoveColumn {
            dragged_raw_hwnd,
            target_workspace_id,
            insert_after_raw_hwnd,
        } => Some(
            ControlMessage::OverviewMoveColumn {
                dragged_raw_hwnd,
                target_workspace_id,
                insert_after_raw_hwnd,
            },
        ),
        PreviewPointerOutcome::Dismiss => Some(ControlMessage::OverviewDismiss),
        PreviewPointerOutcome::Nothing => None,
    }
}

/// Requests go nowhere as long as nobody listens to them.
pub open spec fn sent(listening: bool, message: Option<ControlMessage>) -> Option<ControlMessage> {
    if listening {
        message
    } else {
        None
    }
}

pub fn dispatch_overview_activate_window(listening: bool, raw_hwnd: u64) -> (r: Option<
    ControlMessage,
>)
    ensures
        r == sent(listening, Some(ControlMessage::OverviewActivateWindow { raw_hwnd })),
{
    if !listening {
        return None;
    }
    Some(ControlMessage::OverviewActivateWindow { raw_hwnd })
}

pub fn dispatch_overview_move_column(
    listening: bool,
    dragged_raw_hwnd: u64,
    target_workspace_id: WorkspaceId,
    insert_after_raw_hwnd: Option<u64>,
) -> (r: Option<ControlMessage>)
    ensures
        r == sent(
            listening,
            Some(
                ControlMessage::OverviewMoveColumn {
                    dragged_raw_hwnd,
                    target_workspace_id,
                    insert_after_raw_hwnd,
                },
            ),
        ),
{
    if !listening {
        return None;
    }
    Some(
        ControlMessage::OverviewMoveColumn {
            dragged_raw_hwnd,
            target_workspace_id,
            insert_after_raw_hwnd,
        },
    )
}

pub fn dispatch_overview_dismiss(listening: bool) -> (r: Option<ControlMessage>)
    ensures
        r == sent(listening, Some(ControlMessage::OverviewDismiss)),
{
    if !listening {
        return None;
    }
    Some(ControlMessage::OverviewDismiss)
}

fn dispatch_outcome(listening: bool, outcome: PreviewPointerOutcome) -> (r: Option<ControlMessage>)
    ensures
        r == sent(listening, outcome_message(outcome)),
{
    match outcome {
        PreviewPointerOutcome::ActivateWindow(raw_hwnd) => dispatch_overview_activate_window(
            listening,
            raw_hwnd,
        ),
        PreviewPointerOutcome::MoveColumn {
            dragged_raw_hwnd,
            target_workspace_id,
            insert_after_raw_hwnd,
        } => dispatch_overview_move_column(
            listening,
            dragged_raw_hwnd,
            target_workspace_id,
            insert_after_raw_hwnd,
        ),
        PreviewPointerOutcome::Dismiss => dispatch_overview_dismiss(listening),
        PreviewPointerOutcome::Nothing => None,
    }
}

fn same_click_targets(left: &Vec<PreviewClickTarget>, right: &Vec<PreviewClickTarget>) -> (r: bool)
    ensures
        r == (left@ == right@),
{
    if left.len() != right.len() {
        return false;
    }
    let mut i: usize = 0;
    while i < left.len()
        invariant
            i <= left.len(),
            left.len() == right.len(),
            forall|j: int| 0 <= j < i ==> left@[j] == right@[j],
        decreases left.len() - i,
    {
        if left[i] != right[i] {
            return false;
        }
        i = i + 1;
    }
    assert(left@ =~= right@);
    true
}

fn same_drop_targets(left: &Vec<WorkspaceDropTarget>, right: &Vec<WorkspaceDropTarget>) -> (r: bool)
    ensures
        r == (left@ == right@),
{
    if left.len() != right.len() {
        return false;
    }
    let mut i: usize = 0;
    while i < left.len()
        invariant
            i <= left.len(),
            left.len() == right.len(),
            forall|j: int| 0 <= j < i ==> left@[j] == right@[j],
        decreases left.len() - i,
    {
        if left[i] != right[i] {
            return false;
        }
        i = i + 1;
    }
    assert(left@ =~= right@);
    true
}

fn far(from: i32, to: i32, threshold: i32) -> (r: bool)
    ensures
        r == (abs_int(to - from) >= threshold),
{
    let distance: i64 = to as i64 - from as i64;
    if distance < 0 {
        -distance >= threshold as i64
    } else {
        distance >= threshold as i64
    }
}

impl PreviewWindowState {
    pub fn new() -> (r: PreviewWindowState)
        ensures
            r@ == (PreviewStateView {
                click_targets: Seq::empty(),
                workspace_targets: Seq::empty(),
                drag_session: None,
            }),
    {
        PreviewWindowState {
            click_targets: Vec::new(),
            workspace_targets: Vec::new(),
            drag_session: None,
        }
    }

    /// Replaces what can be hit; the window has to be painted again where that changes
    /// anything.
    pub fn update_preview_window_state(
        &mut self,
        click_targets: Vec<PreviewClickTarget>,
        workspace_targets: Vec<WorkspaceDropTarget>,
    ) -> (r: bool)
        ensures
            final(self)@ == (PreviewStateView {
                click_targets: click_targets@,
                workspace_targets: workspace_targets@,
                ..old(self)@
            }),
            r == (old(self)@ != final(self)@),
    {
        if same_click_targets(&self.click_targets, &click_targets) && same_drop_targets(
            &self.workspace_targets,
            &workspace_targets,
        ) {
            return false;
        }
        self.click_targets = click_targets;
        self.workspace_targets = workspace_targets;
        true
    }

    pub fn begin_preview_drag_session(&mut self, x: i32, y: i32, dragged_raw_hwnd: u64)
        ensures
            final(self)@ == (PreviewStateView {
                drag_session: Some(
                    PreviewDragSession { dragged_raw_hwnd, origin_x: x, origin_y: y, moved: false },
                ),
                ..old(self)@
            }),
    {
        self.drag_session = Some(
            PreviewDragSession { dragged_raw_hwnd, origin_x: x, origin_y: y, moved: false },
        );
    }

    /// The pointer moved. A drag starts once it is `threshold` pixels away on either axis.
    pub fn update_preview_drag_session(&mut self, x: i32, y: i32, threshold: i32)
        ensures
            final(self)@ == old(self)@.dragged(x as int, y as int, threshold as int),
    {
        if let Some(session) = self.drag_session {
            if far(session.origin_x, x, threshold) || far(session.origin_y, y, threshold) {
                self.drag_session = Some(
                    PreviewDragSession {
                        dragged_raw_hwnd: session.dragged_raw_hwnd,
                        origin_x: session.origin_x,
                        origin_y: session.origin_y,
                        moved: true,
                    },
                );
            }
        }
    }

    pub fn cancel_preview_drag_session(&mut self) -> (r: CaptureAction)
        ensures
            final(self)@ == old(self)@.released(),
            r == old(self)@.capture_at_end(),
    {
        let held: bool = self.drag_session.is_some();
        self.drag_session = None;
        if held {
            CaptureAction::Release
        } else {
            CaptureAction::Keep
        }
    }

    pub fn finish_preview_pointer_interaction(&mut self, x: i32, y: i32) -> (r: (
        PreviewPointerOutcome,
        CaptureAction,
    ))
        ensures
            final(self)@ == old(self)@.released(),
            r.0 == old(self)@.outcome(x as int, y as int),
            r.1 == old(self)@.capture_at_end(),
    {
        let session: Option<PreviewDragSession> = self.drag_session;
        let capture: CaptureAction = self.cancel_preview_drag_session();
        let session: PreviewDragSession = match session {
            Some(session) => session,
            None => {
                let outcome: PreviewPointerOutcome = match hit_test_preview_targets(
                    &self.click_targets,
                    x,
                    y,
                ) {
                    Some(hwnd) => PreviewPointerOutcome::ActivateWindow(hwnd),
                    None => PreviewPointerOutcome::Dismiss,
                };
                return (outcome, capture);
            },
        };
        if !session.moved {
            return (PreviewPointerOutcome::ActivateWindow(session.dragged_raw_hwnd), capture);
        }
        let outcome: PreviewPointerOutcome = match hit_test_workspace_drop_targets(
            &self.workspace_targets,
            x,
            y,
        ) {
            None => PreviewPointerOutcome::Nothing,
            Some(target_workspace_id) => PreviewPointerOutcome::MoveColumn {
                dragged_raw_hwnd: session.dragged_raw_hwnd,
                target_workspace_id,
                insert_after_raw_hwnd: hit_test_preview_targets(&self.click_targets, x, y),
            },
        };
        (outcome, capture)
    }

    /// Handles a pointer message at a point of the window.
    pub fn handle_pointer(
        &mut self,
        message: PointerMessage,
        x: i32,
        y: i32,
        threshold: i32,
        listening: bool,
    ) -> (r: (CaptureAction, Option<ControlMessage>))
        ensures
            match message {
                PointerMessage::LeftDown => {
                    &&& final(self)@ == old(self)@.pressed(x, y)
                    &&& r.0 == (if target_at(old(self)@.click_targets, x as int, y as int) is Some {
                        CaptureAction::Take
                    } else {
                        CaptureAction::Keep
                    })
                    &&& r.1 is None
                },
                PointerMessage::Move => {
                    &&& final(self)@ == old(self)@.dragged(x as int, y as int, threshold as int)
                    &&& r.0 is Keep
                    &&& r.1 is None
                },
                PointerMessage::CaptureChanged => {
                    &&& final(self)@ == old(self)@.released()
                    &&& r.0 == old(self)@.capture_at_end()
                    &&& r.1 is None
                },
                PointerMessage::LeftUp => {
                    &&& final(self)@ == old(self)@.released()
                    &&& r.0 == old(self)@.capture_at_end()
                    &&& r.1 == sent(
                        listening,
                        outcome_message(old(self)@.outcome(x as int, y as int)),
                    )
                },
                PointerMessage::RightUp | PointerMessage::MiddleUp => {
                    &&& final(self)@ == old(self)@.released()
                    &&& r.0 == old(self)@.capture_at_end()
                    &&& r.1 == sent(listening, Some(ControlMessage::OverviewDismiss))
                },
            },
    {
        match message {
            PointerMessage::LeftDown => match preview_target_at_point(&self.click_targets, x, y) {
                Some(target) => {
                    self.begin_preview_drag_session(x, y, target.hwnd);
                    (CaptureAction::Take, None)
                },
                None => (CaptureAction::Keep, None),
            },
            PointerMessage::Move => {
                self.update_preview_drag_session(x, y, threshold);
                (CaptureAction::Keep, None)
            },
            PointerMessage::CaptureChanged => {
                let capture: CaptureAction = self.cancel_preview_drag_session();
                (capture, None)
            },
            PointerMessage::LeftUp => {
                let (outcome, capture): (PreviewPointerOutcome, CaptureAction) =
                    self.finish_preview_pointer_interaction(x, y);
                (capture, dispatch_outcome(listening, outcome))
            },
            PointerMessage::RightUp | PointerMessage::MiddleUp => {
                let capture: CaptureAction = self.cancel_preview_drag_session();
                (capture, dispatch_overview_dismiss(listening))
            },
        }
    }
}

/// A click: the button goes down on a window and up again without a drag. It activates that
/// window, wherever the pointer is by then.
pub proof fn law_click_activates_what_was_pressed(
    state: PreviewStateView,
    x: i32,
    y: i32,
    via_x: int,
    via_y: int,
    up_x: int,
    up_y: int,
    threshold: int,
)
    requires
        target_at(state.click_targets, x as int, y as int) is Some,
        abs_int(via_x - x) < threshold && abs_int(via_y - y) < threshold,
    ensures
        state.pressed(x, y).dragged(via_x, via_y, threshold).outcome(up_x, up_y)
            == PreviewPointerOutcome::ActivateWindow(
            target_at(state.click_targets, x as int, y as int)->0.hwnd,
        ),
{
}

/// A drag: the button goes down on a window, the pointer moves far enough at any moment, and
/// the button goes up. Over a workspace it moves the window's column there, behind the
/// window under the pointer; elsewhere it does nothing.
pub proof fn law_drag_drops_the_column(
    state: PreviewStateView,
    x: i32,
    y: i32,
    via_x: int,
    via_y: int,
    later_x: int,
    later_y: int,
    up_x: int,
    up_y: int,
    threshold: int,
)
    requires
        target_at(state.click_targets, x as int, y as int) is Some,
        abs_int(via_x - x) >= threshold || abs_int(via_y - y) >= threshold,
    ensures
        ({
            let dragged = state.pressed(x, y).dragged(via_x, via_y, threshold).dragged(
                later_x,
                later_y,
                threshold,
            );
            dragged.outcome(up_x, up_y) == (match drop_target_at(
                state.workspace_targets,
                up_x,
                up_y,
            ) {
                Some(target_workspace_id) => PreviewPointerOutcome::MoveColumn {
                    dragged_raw_hwnd: target_at(
                        state.click_targets,
                        x as int,
                        y as int,
                    )->0.hwnd,
                    target_workspace_id,
                    insert_after_raw_hwnd: hwnd_at(state.click_targets, up_x, up_y),
                },
                None => PreviewPointerOutcome::Nothing,
            })
        }),
{
}

/// What a button that goes up on a preview asks for where nothing can be dragged: the window
/// under the pointer, or to leave the overview.
pub fn click_request(
    click_targets: &Vec<PreviewClickTarget>,
    x: i32,
    y: i32,
    listening: bool,
) -> (r: Option<ControlMessage>)
    ensures
        r == sent(
            listening,
            Some(
                match hwnd_at(click_targets@, x as int, y as int) {
                    Some(raw_hwnd) => ControlMessage::OverviewActivateWindow { raw_hwnd },
                    None => ControlMessage::OverviewDismiss,
                },
            ),
        ),
{
    match hit_test_preview_targets(click_targets, x, y) {
        Some(raw_hwnd) => dispatch_overview_activate_window(listening, raw_hwnd),
        None => dispatch_overview_dismiss(listening),
    }
}

fn same_rects(left: &[Rect], right: &[Rect]) -> (r: bool)
    ensures
        r == (left@ == right@),
{
    if left.len() != right.len() {
        return false;
    }
    let mut i: usize = 0;
    while i < left.len()
        invariant
            i <= left.len(),
            left.len() == right.len(),
            forall|j: int| 0 <= j < i ==> left@[j] == right@[j],
        decreases left.len() - i,
    {
        if left[i] != right[i] {
            return false;
        }
        i = i + 1;
    }
    assert(left@ =~= right@);
    true
}

/// The edges of a part of a window's region.
pub open spec fn region_edges(rect: Rect) -> Win32Rect {
    Win32Rect {
        left: rect.x,
        top: rect.y,
        right: rect.right() as i32,
        bottom: rect.bottom() as i32,
    }
}

/// The parts that a window's region is the union of; an empty region is one empty part.
pub open spec fn region_parts(rects: Seq<Rect>) -> Seq<Win32Rect> {
    if rects.len() == 0 {
        seq![Win32Rect { left: 0, top: 0, right: 0, bottom: 0 }]
    } else {
        Seq::new(rects.len(), |i: int| region_edges(rects[i]))
    }
}

pub fn build_preview_window_region(rects: &[Rect]) -> (r: Vec<Win32Rect>)
    ensures
        r@ == region_parts(rects@),
{
    let mut parts: Vec<Win32Rect> = Vec::new();
    if rects.len() == 0 {
        parts.push(Win32Rect::empty());
        assert(parts@ =~= region_parts(rects@));
        return parts;
    }
    let mut i: usize = 0;
    while i < rects.len()
        invariant
            i <= rects.len(),
            parts.len() == i,
            forall|j: int| 0 <= j < i ==> parts@[j] == region_edges(rects@[j]),
        decreases rects.len() - i,
    {
        let rect: Rect = rects[i];
        parts.push(
            Win32Rect {
                left: rect.x,
                top: rect.y,
                right: rect_right(rect),
                bottom: rect_bottom(rect),
            },
        );
        i = i + 1;
    }
    assert(parts@ =~= region_parts(rects@));
    parts
}

/// The parts of the region that a window needs, unless it has it already.
pub fn plan_preview_window_region(cached_rects: &[Rect], rects: &[Rect]) -> (r: Option<
    Vec<Win32Rect>,
>)
    ensures
        match r {
            Some(parts) => cached_rects@ != rects@ && parts@ == region_parts(rects@),
            None => cached_rects@ == rects@,
        },
{
    if same_rects(cached_rects, rects) {
        return None;
    }
    Some(build_preview_window_region(rects))
}

/// What a frame asks of the backdrop and of the windows before it.
#[derive(Clone, Copy, Debug, PartialEq, Eq, Structural)]
pub struct OverviewFramePlan {
    pub backdrop_rect: Rect,
    /// The column behind the previews, seen from the backdrop.
    pub viewport_column: Option<Rect>,
    /// What the painted frames of the previews stand on.
    pub underlay_rect: Rect,
    /// Nothing is shown, so that everything is hidden.
    pub empty: bool,
}

pub open spec fn frame_plan(frame: FrameView) -> OverviewFramePlan {
    OverviewFramePlan {
        backdrop_rect: frame.monitor_rect,
        viewport_column: match viewport_column(frame) {
            Some(column) => Some(relative_to(column, frame.monitor_rect)),
            None => None,
        },
        underlay_rect: match viewport_column(frame) {
            Some(column) => column,
            None => frame.monitor_rect,
        },
        empty: frame.workspaces.len() == 0,
    }
}

pub fn plan_overview_frame(frame: &OverviewRenderFrame) -> (r: OverviewFramePlan)
    ensures
        r == frame_plan(frame@),
{
    let column: Option<Rect> = overview_viewport_column_rect(frame);
    assert(frame@.workspaces.len() == frame.workspaces@.len());
    OverviewFramePlan {
        backdrop_rect: frame.monitor_rect,
        viewport_column: match column {
            Some(column) => Some(rect_relative_to(column, frame.monitor_rect)),
            None => None,
        },
        underlay_rect: match column {
            Some(column) => column,
            None => frame.monitor_rect,
        },
        empty: frame.workspaces.len() == 0,
    }
}

/// What a workspace's own pair of windows shows: painted frames on the one, live thumbnails
/// on the other.
#[derive(Debug)]
pub struct WorkspaceSurfacePlan {
    pub visible_canvas_rect: Rect,
    pub visible_underlay_rect: Rect,
    pub painted_windows: Vec<Rect>,
}

pub open spec fn target_rects(targets: Seq<PreviewClickTarget>) -> Seq<Rect> {
    Seq::new(targets.len(), |i: int| targets[i].rect)
}

/// The parts of a workspace that its windows show; none where any of its canvas, its
/// underlay and its viewport is out of sight.
pub open spec fn workspace_surface(
    workspace: WorkspaceFrameView,
    underlay_rect: Rect,
    monitor_rect: Rect,
) -> Option<(Rect, Rect, Seq<Rect>)> {
    match (
        intersection(workspace.canvas_rect, monitor_rect),
        intersection(underlay_rect, monitor_rect),
        intersection(workspace.viewport_rect, monitor_rect),
    ) {
        (Some(canvas), Some(underlay), Some(viewport)) => Some(
            (
                canvas,
                underlay,
                target_rects(
                    window_targets(
                        workspace.workspace_id,
                        workspace.windows,
                        viewport,
                        Set::full(),
                        underlay,
                    ),
                ),
            ),
        ),
        _ => None,
    }
}

/// The rectangles of some targets.
pub fn rects_of_targets(targets: &Vec<PreviewClickTarget>) -> (r: Vec<Rect>)
    ensures
        r@ == target_rects(targets@),
{
    let mut rects: Vec<Rect> = Vec::new();
    let mut i: usize = 0;
    while i < targets.len()
        invariant
            i <= targets.len(),
            rects.len() == i,
            forall|j: int| 0 <= j < i ==> rects@[j] == targets@[j].rect,
        decreases targets.len() - i,
    {
        rects.push(targets[i].rect);
        i = i + 1;
    }
    assert(rects@ =~= target_rects(targets@));
    rects
}

pub fn plan_workspace_surface(
    workspace: &WorkspaceRenderFrame,
    underlay_rect: Rect,
    monitor_rect: Rect,
) -> (r: Option<WorkspaceSurfacePlan>)
    ensures
        workspace_surface(workspace@, underlay_rect, monitor_rect) == (match r {
            Some(plan) => Some(plan.parts()),
            None => None,
        }),
{
    let visible_canvas_rect: Rect = match intersect_rect(workspace.canvas_rect, monitor_rect) {
        Some(rect) => rect,
        None => {
            return None;
        },
    };
    let visible_underlay_rect: Rect = match intersect_rect(underlay_rect, monitor_rect) {
        Some(rect) => rect,
        None => {
            return None;
        },
    };
    let visible_viewport_rect: Rect = match intersect_rect(workspace.viewport_rect, monitor_rect) {
        Some(rect) => rect,
        None => {
            return None;
        },
    };
    let targets: Vec<PreviewClickTarget> = preview_window_rects(
        workspace,
        visible_viewport_rect,
        visible_underlay_rect,
    );
    Some(
        WorkspaceSurfacePlan {
            visible_canvas_rect,
            visible_underlay_rect,
            painted_windows: rects_of_targets(&targets),
        },
    )
}

impl WorkspaceSurfacePlan {
    pub open spec fn parts(self) -> (Rect, Rect, Seq<Rect>) {
        (self.visible_canvas_rect, self.visible_underlay_rect, self.painted_windows@)
    }

    /// The painted frames are on the screen where there is any.
    pub open spec fn frame_shown(self) -> bool {
        self.painted_windows@.len() > 0
    }

    pub fn frame_visible(&self) -> (r: bool)
        ensures
            r == self.frame_shown(),
    {
        self.painted_windows.len() > 0
    }
}

/// The window that a workspace's thumbnails stand above: its painted frames where there are
/// any, else what the frames would stand above.
pub fn host_insert_after(
    plan: &WorkspaceSurfacePlan,
    frame_hwnd: isize,
    insert_after: Option<isize>,
) -> (r: Option<isize>)
    ensures
        r == (if plan.frame_shown() {
            Some(frame_hwnd)
        } else {
            insert_after
        }),
{
    if plan.frame_visible() {
        Some(frame_hwnd)
    } else {
        insert_after
    }
}

/// The topmost window of a workspace once it has been drawn: its thumbnails, its painted
/// frames, or none.
pub open spec fn topmost_of(
    host_rects: Seq<Rect>,
    host_hwnd: isize,
    frame_shown: bool,
    frame_hwnd: isize,
) -> Option<isize> {
    if host_rects.len() > 0 {
        Some(host_hwnd)
    } else if frame_shown {
        Some(frame_hwnd)
    } else {
        None
    }
}

/// The steps before the pass over a workspace's thumbnails. A workspace that is out of sight
/// is withdrawn, and there is no pass; else its painted frames are drawn where there are any,
/// and the host is opened where it is not on the screen.
pub open spec fn workspace_opening(
    surface: Option<(Rect, Rect, Seq<Rect>)>,
    was_host_visible: bool,
) -> Seq<SurfaceStep> {
    match surface {
        None => workspace_withdrawal(),
        Some((_, _, painted)) => frame_drawing(painted.len() > 0) + host_opening(was_host_visible),
    }
}

/// Draws a workspace on its own pair of windows: what they show, if they show anything, and
/// the steps before the pass over its thumbnails.
pub fn render_preview_workspace_frame(
    workspace: &WorkspaceRenderFrame,
    underlay_rect: Rect,
    monitor_rect: Rect,
    was_host_visible: bool,
) -> (r: (Option<WorkspaceSurfacePlan>, Vec<SurfaceStep>))
    ensures
        workspace_surface(workspace@, underlay_rect, monitor_rect) == (match r.0 {
            Some(plan) => Some(plan.parts()),
            None => None,
        }),
        r.1@ == workspace_opening(
            workspace_surface(workspace@, underlay_rect, monitor_rect),
            was_host_visible,
        ),
{
    match plan_workspace_surface(workspace, underlay_rect, monitor_rect) {
        None => (None, withdraw_preview_workspace()),
        Some(plan) => {
            let steps: Vec<SurfaceStep> = begin_preview_workspace_frame(
                plan.frame_visible(),
                was_host_visible,
            );
            (Some(plan), steps)
        },
    }
}

/// What follows the pass over a workspace's thumbnails.
#[derive(Debug)]
pub struct WorkspaceSurfaceEnd {
    /// What can be hit on the host.
    pub click_targets: Vec<PreviewClickTarget>,
    /// The shape of the host.
    pub host_rects: Vec<Rect>,
    pub steps: Vec<SurfaceStep>,
    /// The window that the next workspace stands above.
    pub topmost: Option<isize>,
}

/// Ends the drawing of a workspace on its own pair of windows. Every thumbnail that the pass
/// left visible can be hit, and those parts are the shape of the host; where there is none
/// the host leaves the screen.
pub fn finish_preview_workspace_frame(
    workspace: &WorkspaceRenderFrame,
    plan: &WorkspaceSurfacePlan,
    visible_hwnds: &HashSet<u64>,
    host_hwnd: isize,
    frame_hwnd: isize,
) -> (r: WorkspaceSurfaceEnd)
    ensures
        r.click_targets@ == window_targets(
            workspace.workspace_id,
            workspace.windows@,
            plan.visible_canvas_rect,
            visible_hwnds@,
            plan.visible_canvas_rect,
        ),
        r.host_rects@ == target_rects(r.click_targets@),
        r.steps@ == host_closing(r.host_rects@.len() == 0),
        r.topmost == topmost_of(r.host_rects@, host_hwnd, plan.frame_shown(), frame_hwnd),
{
    let click_targets: Vec<PreviewClickTarget> = preview_click_targets(
        workspace,
        plan.visible_canvas_rect,
        visible_hwnds,
        plan.visible_canvas_rect,
    );
    let host_rects: Vec<Rect> = rects_of_targets(&click_targets);
    let steps: Vec<SurfaceStep> = finish_preview_frame(&host_rects);
    let topmost: Option<isize> = if host_rects.len() > 0 {
        Some(host_hwnd)
    } else if plan.frame_visible() {
        Some(frame_hwnd)
    } else {
        None
    };
    WorkspaceSurfaceEnd { click_targets, host_rects, steps, topmost }
}

/// Whether a frame shows a workspace, which is given by its number.
pub open spec fn shows_workspace(frame: FrameView, raw_id: u64) -> bool {
    exists|i: int|
        0 <= i < frame.workspaces.len() && (#[trigger] frame.workspaces[i]).workspace_id.raw
            == raw_id
}

fn frame_shows(frame: &OverviewRenderFrame, raw_id: u64) -> (r: bool)
    ensures
        r == shows_workspace(frame@, raw_id),
{
    let mut i: usize = 0;
    while i < frame.workspaces.len()
        invariant
            i <= frame.workspaces.len(),
            forall|j: int|
                0 <= j < i ==> (#[trigger] frame@.workspaces[j]).workspace_id.raw != raw_id,
        decreases frame.workspaces.len() - i,
    {
        if frame.workspaces[i].workspace_id.raw == raw_id {
            assert(frame@.workspaces[i as int].workspace_id.raw == raw_id);
            return true;
        }
        i = i + 1;
    }
    false
}

/// Of the workspaces that have windows of their own, those that a frame no longer shows.
pub fn stale_workspace_ids(known: &Vec<u64>, frame: &OverviewRenderFrame) -> (r: Vec<u64>)
    ensures
        r@ == known@.filter(|raw_id: u64| !shows_workspace(frame@, raw_id)),
{
    let ghost stale = |raw_id: u64| !shows_workspace(frame@, raw_id);
    let mut ids: Vec<u64> = Vec::new();
    let mut i: usize = 0;
    proof {
        reveal(Seq::filter);
        assert(known@.take(0) =~= Seq::empty());
    }
    while i < known.len()
        invariant
            i <= known.len(),
            stale == (|raw_id: u64| !shows_workspace(frame@, raw_id)),
            ids@ == known@.take(i as int).filter(stale),
        decreases known.len() - i,
    {
        proof {
            reveal(Seq::filter);
            assert(known@.take(i + 1).drop_last() =~= known@.take(i as int));
        }
        if !frame_shows(frame, known[i]) {
            ids.push(known[i]);
        }
        i = i + 1;
    }
    assert(known@.take(i as int) =~= known@);
    ids
}

/// A button that goes up where none went down on a window is a click: it activates the window
/// under the pointer, and dismisses the overview where there is none.
pub proof fn law_clicks_hit_what_is_under_the_pointer(state: PreviewStateView, x: int, y: int)
    requires
        state.drag_session is None,
    ensures
        target_at(state.click_targets, x, y) matches Some(target) ==> state.outcome(x, y)
            == PreviewPointerOutcome::ActivateWindow(target.hwnd),
        target_at(state.click_targets, x, y) is None ==> state.outcome(x, y) is Dismiss,
{
}

/// A button that goes down on a window holds it there, at that very point and not moved; one
/// that goes down beside the windows holds nothing.
pub proof fn law_presses_hold_the_window(state: PreviewStateView, x: i32, y: i32)
    ensures
        target_at(state.click_targets, x as int, y as int) matches Some(target) ==> (state.pressed(
            x,
            y,
        ).drag_session matches Some(session) && session.dragged_raw_hwnd == target.hwnd
            && session.origin_x == x && session.origin_y == y && !session.moved),
        target_at(state.click_targets, x as int, y as int) is None ==> state.pressed(x, y) == state,
        state.pressed(x, y).click_targets == state.click_targets,
        state.pressed(x, y).workspace_targets == state.workspace_targets,
        state.released().drag_session is None,
        state.released().click_targets == state.click_targets,
        state.released().workspace_targets == state.workspace_targets,
        state.capture_at_end() is Release <==> state.drag_session is Some,
        state.capture_at_end() is Keep <==> state.drag_session is None,
{
}

/// A held window counts as moved once the pointer has been as far from where the button went
/// down as the threshold says, sideways or up and down; and it stays moved when the pointer
/// comes back.
pub proof fn law_far_pointers_drag(
    state: PreviewStateView,
    session: PreviewDragSession,
    x: int,
    y: int,
    threshold: int,
)
    requires
        state.drag_session == Some(session),
    ensures
        state.dragged(x, y, threshold).drag_session matches Some(later) && {
            &&& later.dragged_raw_hwnd == session.dragged_raw_hwnd
            &&& later.origin_x == session.origin_x && later.origin_y == session.origin_y
            &&& later.moved <==> session.moved || x - session.origin_x >= threshold
                || session.origin_x - x >= threshold || y - session.origin_y >= threshold
                || session.origin_y - y >= threshold
        },
        state.dragged(x, y, threshold).click_targets == state.click_targets,
        state.dragged(x, y, threshold).workspace_targets == state.workspace_targets,
{
}

/// Every outcome is asked for by its own request, and only while somebody listens.
pub proof fn law_outcomes_are_asked_for(
    hwnd: u64,
    workspace: WorkspaceId,
    behind: Option<u64>,
    message: Option<ControlMessage>,
)
    ensures
        outcome_message(PreviewPointerOutcome::ActivateWindow(hwnd)) == Some(
            ControlMessage::OverviewActivateWindow { raw_hwnd: hwnd },
        ),
        outcome_message(
            PreviewPointerOutcome::MoveColumn {
                dragged_raw_hwnd: hwnd,
                target_workspace_id: workspace,
                insert_after_raw_hwnd: behind,
            },
        ) == Some(
            ControlMessage::OverviewMoveColumn {
                dragged_raw_hwnd: hwnd,
                target_workspace_id: workspace,
                insert_after_raw_hwnd: behind,
            },
        ),
        outcome_message(PreviewPointerOutcome::Dismiss) == Some(ControlMessage::OverviewDismiss),
        outcome_message(PreviewPointerOutcome::Nothing) is None,
        sent(true, message) == message,
        sent(false, message) is None,
{
}

/// Where nothing can be dragged, a click asks for the window under the pointer, and to leave
/// the overview where there is none.
pub proof fn law_click_requests_name_the_window(
    click_targets: &Vec<PreviewClickTarget>,
    x: i32,
    y: i32,
    listening: bool,
    r: Option<ControlMessage>,
)
    requires
        call_ensures(click_request, (click_targets, x, y, listening), r),
    ensures
        !listening ==> r is None,
        listening ==> (target_at(click_targets@, x as int, y as int) matches Some(target) ==> r
            == Some(ControlMessage::OverviewActivateWindow { raw_hwnd: target.hwnd })),
        listening && target_at(click_targets@, x as int, y as int) is None ==> r == Some(
            ControlMessage::OverviewDismiss,
        ),
{
}

/// The region of a window has a part for each rectangle, from its corner to its end; with no
/// rectangle it is one part with nothing in it.
pub proof fn law_regions_cover_the_rectangles(rects: Seq<Rect>, i: int)
    ensures
        rects.len() == 0 ==> region_parts(rects).len() == 1 && region_parts(rects)[0] == (
        Win32Rect { left: 0, top: 0, right: 0, bottom: 0 }),
        rects.len() > 0 ==> region_parts(rects).len() == rects.len(),
        0 <= i < rects.len() && rects[i].x + rects[i].width <= 0x7fff_ffff && rects[i].y
            + rects[i].height <= 0x7fff_ffff && rects[i].width <= 0x7fff_ffff && rects[i].height
            <= 0x7fff_ffff ==> {
            let part = region_parts(rects)[i];
            &&& part.left == rects[i].x && part.top == rects[i].y
            &&& part.right == rects[i].x + rects[i].width
            &&& part.bottom == rects[i].y + rects[i].height
        },
{
}

/// A window gets a new region exactly where what it shows has changed.
pub proof fn law_unchanged_regions_are_kept(
    cached_rects: &[Rect],
    rects: &[Rect],
    r: Option<Vec<Win32Rect>>,
)
    requires
        call_ensures(plan_preview_window_region, (cached_rects, rects), r),
    ensures
        r is None <==> cached_rects@ == rects@,
        r matches Some(parts) ==> parts@ == region_parts(rects@),
{
}

/// The backdrop covers the monitor. The previews stand on the column where there is one, which
/// the backdrop shows from its own corner, and else on the whole monitor. A frame without a
/// workspace shows nothing.
pub proof fn law_frames_fill_the_monitor(frame: FrameView, column: Rect)
    ensures
        frame_plan(frame).backdrop_rect == frame.monitor_rect,
        frame_plan(frame).empty <==> frame.workspaces.len() == 0,
        viewport_column(frame) is None ==> frame_plan(frame).viewport_column is None && frame_plan(
            frame,
        ).underlay_rect == frame.monitor_rect,
        viewport_column(frame) == Some(column) ==> frame_plan(frame).underlay_rect == column,
        viewport_column(frame) == Some(column) && -0x8000_0000 <= column.x - frame.monitor_rect.x
            <= 0x7fff_ffff && -0x8000_0000 <= column.y - frame.monitor_rect.y <= 0x7fff_ffff ==> (
        frame_plan(frame).viewport_column matches Some(seen) && seen.x == column.x
            - frame.monitor_rect.x && seen.y == column.y - frame.monitor_rect.y && seen.width
            == column.width && seen.height == column.height),
{
}

/// A workspace has something on its windows exactly where its canvas, its viewport and what
/// they stand on can all be seen on the monitor; a frame is painted for what can be seen of
/// each of its windows in the viewport.
pub proof fn law_workspaces_in_sight_have_a_surface(
    workspace: WorkspaceFrameView,
    underlay_rect: Rect,
    monitor_rect: Rect,
)
    ensures
        ({
            let surface = workspace_surface(workspace, underlay_rect, monitor_rect);
            &&& surface is Some <==> intersection(workspace.canvas_rect, monitor_rect) is Some
                && intersection(underlay_rect, monitor_rect) is Some && intersection(
                workspace.viewport_rect,
                monitor_rect,
            ) is Some
            &&& surface matches Some(parts) ==> {
                &&& Some(parts.0) == intersection(workspace.canvas_rect, monitor_rect)
                &&& Some(parts.1) == intersection(underlay_rect, monitor_rect)
                &&& parts.2 == target_rects(
                    window_targets(
                        workspace.workspace_id,
                        workspace.windows,
                        intersection(workspace.viewport_rect, monitor_rect)->0,
                        Set::full(),
                        parts.1,
                    ),
                )
            }
        }),
{
}

/// The thumbnails of a workspace stand above its frames where there are any. The next
/// workspace stands above the thumbnails where any can be seen, else above the frames.
pub proof fn law_workspaces_stand_above_one_another(
    plan: &WorkspaceSurfacePlan,
    frame_hwnd: isize,
    insert_after: Option<isize>,
    r: Option<isize>,
    host_rects: Seq<Rect>,
    host_hwnd: isize,
)
    requires
        call_ensures(host_insert_after, (plan, frame_hwnd, insert_after), r),
    ensures
        plan.painted_windows@.len() > 0 ==> r == Some(frame_hwnd),
        plan.painted_windows@.len() == 0 ==> r == insert_after,
        plan.frame_shown() <==> plan.painted_windows@.len() > 0,
        host_rects.len() > 0 ==> topmost_of(host_rects, host_hwnd, plan.frame_shown(), frame_hwnd)
            == Some(host_hwnd),
        host_rects.len() == 0 && plan.painted_windows@.len() > 0 ==> topmost_of(
            host_rects,
            host_hwnd,
            plan.frame_shown(),
            frame_hwnd,
        ) == Some(frame_hwnd),
        host_rects.len() == 0 && plan.painted_windows@.len() == 0 ==> topmost_of(
            host_rects,
            host_hwnd,
            plan.frame_shown(),
            frame_hwnd,
        ) is None,
{
}

/// What a workspace's windows do before its thumbnails are looked at: both leave the screen
/// where it is out of sight, else its frames come first and its host after them.
pub proof fn law_workspaces_open_or_withdraw(
    canvas: Rect,
    underlay: Rect,
    painted: Seq<Rect>,
    was_host_visible: bool,
)
    ensures
        ({
            let gone = workspace_opening(None, was_host_visible);
            let steps = workspace_opening(Some((canvas, underlay, painted)), was_host_visible);
            &&& gone.len() == 5 && gone[0] == SurfaceStep::Hide(SurfaceWindow::Frame) && gone[1]
                == SurfaceStep::Hide(SurfaceWindow::Host)
            &&& painted.len() > 0 ==> steps[0] == SurfaceStep::Fill(SurfaceWindow::Frame)
            &&& painted.len() == 0 ==> steps[0] == SurfaceStep::Empty(SurfaceWindow::Frame)
            &&& was_host_visible ==> steps.len() == 3
            &&& !was_host_visible ==> steps.len() == 6 && steps[3] == SurfaceStep::ShapeToNothing(
                SurfaceWindow::Host,
            )
        }),
{
}

/// Every visible thumbnail of a workspace can be hit, and what can be hit is the shape of its
/// host; where nothing can, the host leaves the screen.
pub proof fn law_visible_thumbnails_can_be_hit(
    workspace: &WorkspaceRenderFrame,
    plan: &WorkspaceSurfacePlan,
    visible_hwnds: &HashSet<u64>,
    host_hwnd: isize,
    frame_hwnd: isize,
    r: WorkspaceSurfaceEnd,
    i: int,
)
    requires
        call_ensures(
            finish_preview_workspace_frame,
            (workspace, plan, visible_hwnds, host_hwnd, frame_hwnd),
            r,
        ),
    ensures
        r.host_rects@.len() == r.click_targets@.len(),
        0 <= i < r.host_rects@.len() ==> r.host_rects@[i] == r.click_targets@[i].rect,
        r.click_targets@ == window_targets(
            workspace.workspace_id,
            workspace.windows@,
            plan.visible_canvas_rect,
            visible_hwnds@,
            plan.visible_canvas_rect,
        ),
        r.host_rects@.len() == 0 ==> r.steps@.len() == 4 && r.steps@[1] == SurfaceStep::Hide(
            SurfaceWindow::Host,
        ),
        r.host_rects@.len() > 0 ==> r.steps@.len() == 3 && r.steps@[2] == SurfaceStep::Place(
            SurfaceWindow::Host,
        ) && r.topmost == Some(host_hwnd),
{
}

/// A workspace loses its windows exactly where no workspace of the frame has its number.
pub proof fn law_workspaces_that_are_gone_are_stale(
    known: &Vec<u64>,
    frame: &OverviewRenderFrame,
    r: Vec<u64>,
    raw_id: u64,
)
    requires
        call_ensures(stale_workspace_ids, (known, frame), r),
    ensures
        r@.contains(raw_id) <==> known@.contains(raw_id) && !exists|i: int|
            0 <= i < frame@.workspaces.len() && (#[trigger] frame@.workspaces[i]).workspace_id.raw
                == raw_id,
{
    let stale = |id: u64| !shows_workspace(frame@, id);
    assert(r@ =~= known@.filter(stale));
    known@.filter_lemma(stale);
    if r@.contains(raw_id) {
        known@.lemma_filter_contains_rev(stale, raw_id);
    }
    if known@.contains(raw_id) && stale(raw_id) {
        let i = choose|i: int| 0 <= i < known@.len() && known@[i] == raw_id;
        assert(known@.filter(stale).contains(known@[i]));
    }
}

/// What a pointer does on the window. A left button that goes down on a window takes the
/// capture and asks for nothing; a move never does; every release or loss of the capture ends
/// the session and gives the capture back where there was one. The left button asks for what
/// its release means, the others to leave the overview.
pub proof fn law_pointers_are_handled(
    state: &mut PreviewWindowState,
    message: PointerMessage,
    x: i32,
    y: i32,
    threshold: i32,
    listening: bool,
    r: (CaptureAction, Option<ControlMessage>),
)
    requires
        call_ensures(
            PreviewWindowState::handle_pointer,
            (state, message, x, y, threshold, listening),
            r,
        ),
    ensures
        ({
            let before = old(state)@;
            let after = final(state)@;
            let hit = target_at(before.click_targets, x as int, y as int) is Some;
            let held = before.drag_session is Some;
            let ends = message is CaptureChanged || message is LeftUp || message is RightUp
                || message is MiddleUp;
            &&& after.click_targets == before.click_targets
            &&& after.workspace_targets == before.workspace_targets
            &&& message is LeftDown ==> after == before.pressed(x, y) && r.1 is None && (r.0 is Take
                <==> hit) && (r.0 is Keep <==> !hit)
            &&& message is Move ==> after == before.dragged(x as int, y as int, threshold as int)
                && r.0 is Keep && r.1 is None
            &&& ends ==> after.drag_session is None && (r.0 is Release <==> held) && (r.0 is Keep
                <==> !held)
            &&& message is CaptureChanged ==> r.1 is None
            &&& !listening ==> r.1 is None
            &&& listening && message is LeftUp ==> r.1 == outcome_message(
                before.outcome(x as int, y as int),
            )
            &&& listening && (message is RightUp || message is MiddleUp) ==> r.1 == Some(
                ControlMessage::OverviewDismiss,
            )
        }),
{
}

/// What can be hit is replaced while a window may be held; the window is painted again exactly
/// where that changes anything.
pub proof fn law_changed_targets_are_painted(
    state: &mut PreviewWindowState,
    click_targets: Vec<PreviewClickTarget>,
    workspace_targets: Vec<WorkspaceDropTarget>,
    r: bool,
)
    requires
        call_ensures(
            PreviewWindowState::update_preview_window_state,
            (state, click_targets, workspace_targets),
            r,
        ),
    ensures
        final(state)@.click_targets == click_targets@,
        final(state)@.workspace_targets == workspace_targets@,
        final(state)@.drag_session == old(state)@.drag_session,
        r <==> old(state)@.click_targets != click_targets@ || old(state)@.workspace_targets
            != workspace_targets@,
{
}

} // verus!
