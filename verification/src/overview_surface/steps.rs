//! In which order the windows of the overview are drawn.
//!
//! A step that fails ends the drawing of a frame; the rest of the list is dropped. Between
//! the opening and the closing steps of a frame lies the pass over its thumbnails.

use crate::geometry::Rect;
use vstd::prelude::*;

verus! {

/// The windows in front of the backdrop. An overview that shows all workspaces on one window
/// has only the host; one with a pair of windows to each workspace has painted frames behind
/// the host.
#[derive(Clone, Copy, Debug, PartialEq, Eq, Structural)]
pub enum SurfaceWindow {
    Frame,
    Host,
}

/// One step.
#[derive(Clone, Copy, Debug, PartialEq, Eq, Structural)]
pub enum SurfaceStep {
    /// Tell the window what can be hit, or what is painted, on it.
    Fill(SurfaceWindow),
    /// Tell the window that there is nothing on it.
    Empty(SurfaceWindow),
    /// Give the window the shape of what is on it.
    Shape(SurfaceWindow),
    /// Give the window an empty shape.
    ShapeToNothing(SurfaceWindow),
    /// Put the window on the screen, above what comes before it.
    Place(SurfaceWindow),
    /// Take the window off the screen.
    Hide(SurfaceWindow),
    /// Forget the shape of the window.
    ForgetShape(SurfaceWindow),
    /// Forget what the thumbnails show.
    ForgetShown,
}

/// The host leaves the screen with nothing on it.
pub open spec fn host_withdrawal() -> Seq<SurfaceStep> {
    seq![
        SurfaceStep::Empty(SurfaceWindow::Host),
        SurfaceStep::Hide(SurfaceWindow::Host),
        SurfaceStep::ForgetShown,
        SurfaceStep::ForgetShape(SurfaceWindow::Host),
    ]
}

/// A host that is not on the screen is put there with an empty shape before its thumbnails
/// are looked at.
pub open spec fn host_opening(was_host_visible: bool) -> Seq<SurfaceStep> {
    if was_host_visible {
        Seq::empty()
    } else {
        seq![
            SurfaceStep::ShapeToNothing(SurfaceWindow::Host),
            SurfaceStep::Place(SurfaceWindow::Host),
            SurfaceStep::ForgetShown,
        ]
    }
}

/// Once the thumbnails are known the host takes their shape, or leaves the screen where none
/// can be seen.
pub open spec fn host_closing(nothing_visible: bool) -> Seq<SurfaceStep> {
    if nothing_visible {
        host_withdrawal()
    } else {
        seq![
            SurfaceStep::Fill(SurfaceWindow::Host),
            SurfaceStep::Shape(SurfaceWindow::Host),
            SurfaceStep::Place(SurfaceWindow::Host),
        ]
    }
}

/// The painted frames of a workspace, which are drawn before the host opens.
pub open spec fn frame_drawing(frame_visible: bool) -> Seq<SurfaceStep> {
    if frame_visible {
        seq![
            SurfaceStep::Fill(SurfaceWindow::Frame),
            SurfaceStep::Shape(SurfaceWindow::Frame),
            SurfaceStep::Place(SurfaceWindow::Frame),
        ]
    } else {
        seq![
            SurfaceStep::Empty(SurfaceWindow::Frame),
            SurfaceStep::ShapeToNothing(SurfaceWindow::Frame),
            SurfaceStep::Hide(SurfaceWindow::Frame),
        ]
    }
}

/// A workspace that is out of sight: both of its windows leave the screen.
pub open spec fn workspace_withdrawal() -> Seq<SurfaceStep> {
    seq![
        SurfaceStep::Hide(SurfaceWindow::Frame),
        SurfaceStep::Hide(SurfaceWindow::Host),
        SurfaceStep::ForgetShown,
        SurfaceStep::ForgetShape(SurfaceWindow::Frame),
        SurfaceStep::ForgetShape(SurfaceWindow::Host),
    ]
}

/// The steps before the pass over the thumbnails of a frame on one window.
pub fn begin_preview_scene_frame(was_host_visible: bool) -> (r: Vec<SurfaceStep>)
    ensures
        r@ == host_opening(was_host_visible),
{
    let mut steps: Vec<SurfaceStep> = Vec::new();
    if !was_host_visible {
        steps.push(SurfaceStep::ShapeToNothing(SurfaceWindow::Host));
        steps.push(SurfaceStep::Place(SurfaceWindow::Host));
        steps.push(SurfaceStep::ForgetShown);
    }
    assert(steps@ =~= host_opening(was_host_visible));
    steps
}

/// The steps after the pass, on one window as well as on a workspace's pair, by the parts of
/// the host that show a thumbnail.
pub fn finish_preview_frame(host_rects: &Vec<Rect>) -> (r: Vec<SurfaceStep>)
    ensures
        r@ == host_closing(host_rects@.len() == 0),
{
    let mut steps: Vec<SurfaceStep> = Vec::new();
    if host_rects.len() == 0 {
        steps.push(SurfaceStep::Empty(SurfaceWindow::Host));
        steps.push(SurfaceStep::Hide(SurfaceWindow::Host));
        steps.push(SurfaceStep::ForgetShown);
        steps.push(SurfaceStep::ForgetShape(SurfaceWindow::Host));
    } else {
        steps.push(SurfaceStep::Fill(SurfaceWindow::Host));
        steps.push(SurfaceStep::Shape(SurfaceWindow::Host));
        steps.push(SurfaceStep::Place(SurfaceWindow::Host));
    }
    assert(steps@ =~= host_closing(host_rects@.len() == 0));
    steps
}

/// The steps before the pass over the thumbnails of a workspace with a pair of windows.
pub fn begin_preview_workspace_frame(frame_visible: bool, was_host_visible: bool) -> (r: Vec<
    SurfaceStep,
>)
    ensures
        r@ == frame_drawing(frame_visible) + host_opening(was_host_visible),
{
    let mut steps: Vec<SurfaceStep> = Vec::new();
    if frame_visible {
        steps.push(SurfaceStep::Fill(SurfaceWindow::Frame));
        steps.push(SurfaceStep::Shape(SurfaceWindow::Frame));
        steps.push(SurfaceStep::Place(SurfaceWindow::Frame));
    } else {
        steps.push(SurfaceStep::Empty(SurfaceWindow::Frame));
        steps.push(SurfaceStep::ShapeToNothing(SurfaceWindow::Frame));
        steps.push(SurfaceStep::Hide(SurfaceWindow::Frame));
    }
    assert(steps@ =~= frame_drawing(frame_visible));
    let mut opening: Vec<SurfaceStep> = begin_preview_scene_frame(was_host_visible);
    steps.append(&mut opening);
    steps
}

/// The steps for a workspace that is out of sight; its thumbnails are not looked at.
pub fn withdraw_preview_workspace() -> (r: Vec<SurfaceStep>)
    ensures
        r@ == workspace_withdrawal(),
{
    let mut steps: Vec<SurfaceStep> = Vec::new();
    steps.push(SurfaceStep::Hide(SurfaceWindow::Frame));
    steps.push(SurfaceStep::Hide(SurfaceWindow::Host));
    steps.push(SurfaceStep::ForgetShown);
    steps.push(SurfaceStep::ForgetShape(SurfaceWindow::Frame));
    steps.push(SurfaceStep::ForgetShape(SurfaceWindow::Host));
    assert(steps@ =~= workspace_withdrawal());
    steps
}

/// No window is put on the screen before it has been given a shape in the same list of steps,
/// and whenever the host leaves the screen what its thumbnails show is forgotten after it.
pub proof fn law_windows_are_shaped_before_they_are_placed(
    frame_visible: bool,
    was_host_visible: bool,
    nothing_visible: bool,
    window: SurfaceWindow,
    i: int,
)
    ensures
        ({
            let opening = frame_drawing(frame_visible) + host_opening(was_host_visible);
            0 <= i < opening.len() && opening[i] == SurfaceStep::Place(window) ==> exists|k: int|
                0 <= k < i && (#[trigger] opening[k] == SurfaceStep::Shape(window) || opening[k]
                    == SurfaceStep::ShapeToNothing(window))
        }),
        ({
            let closing = host_closing(nothing_visible);
            0 <= i < closing.len() && closing[i] == SurfaceStep::Place(window) ==> exists|k: int|
                0 <= k < i && #[trigger] closing[k] == SurfaceStep::Shape(window)
        }),
        ({
            let closing = host_closing(nothing_visible);
            0 <= i < closing.len() && closing[i] == SurfaceStep::Hide(SurfaceWindow::Host)
                ==> exists|k: int|
                i < k < closing.len() && #[trigger] closing[k] == SurfaceStep::ForgetShown
        }),
{
    let opening = frame_drawing(frame_visible) + host_opening(was_host_visible);
    let closing = host_closing(nothing_visible);
    assert(frame_drawing(frame_visible).len() == 3);
    if 0 <= i < opening.len() && opening[i] == SurfaceStep::Place(window) {
        assert(opening[i - 1] == SurfaceStep::Shape(window) || opening[i - 1]
            == SurfaceStep::ShapeToNothing(window));
    }
    if 0 <= i < closing.len() && closing[i] == SurfaceStep::Place(window) {
        assert(closing[i - 1] == SurfaceStep::Shape(window));
    }
    if 0 <= i < closing.len() && closing[i] == SurfaceStep::Hide(SurfaceWindow::Host) {
        assert(closing[i + 1] == SurfaceStep::ForgetShown);
    }
}

/// A host that is on the screen already is not touched before the pass over its thumbnails;
/// any other one is given an empty shape, put on the screen and forgets what it showed, in
/// this order.
pub proof fn law_a_new_host_opens_empty(was_host_visible: bool, r: Vec<SurfaceStep>)
    requires
        call_ensures(begin_preview_scene_frame, (was_host_visible,), r),
    ensures
        was_host_visible ==> r@.len() == 0,
        !was_host_visible ==> r@.len() == 3 && r@[0] == SurfaceStep::ShapeToNothing(
            SurfaceWindow::Host,
        ) && r@[1] == SurfaceStep::Place(SurfaceWindow::Host) && r@[2] == SurfaceStep::ForgetShown,
{
}

/// A host with something to show is told so, given its shape and put on the screen; one with
/// nothing to show is emptied, taken off the screen and forgets what it showed and its shape.
pub proof fn law_a_host_without_thumbnails_leaves(host_rects: &Vec<Rect>, r: Vec<SurfaceStep>)
    requires
        call_ensures(finish_preview_frame, (host_rects,), r),
    ensures
        host_rects@.len() > 0 ==> r@.len() == 3 && r@[0] == SurfaceStep::Fill(SurfaceWindow::Host)
            && r@[1] == SurfaceStep::Shape(SurfaceWindow::Host) && r@[2] == SurfaceStep::Place(
            SurfaceWindow::Host,
        ),
        host_rects@.len() == 0 ==> r@.len() == 4 && r@[0] == SurfaceStep::Empty(SurfaceWindow::Host)
            && r@[1] == SurfaceStep::Hide(SurfaceWindow::Host) && r@[2] == SurfaceStep::ForgetShown
            && r@[3] == SurfaceStep::ForgetShape(SurfaceWindow::Host),
{
}

/// The frames of a workspace are drawn before its host opens: filled, shaped and placed where
/// there are any, else emptied, given an empty shape and hidden.
pub proof fn law_frames_are_drawn_before_the_host(
    frame_visible: bool,
    was_host_visible: bool,
    r: Vec<SurfaceStep>,
)
    requires
        call_ensures(begin_preview_workspace_frame, (frame_visible, was_host_visible), r),
    ensures
        r@.len() == (if was_host_visible {
            3int
        } else {
            6
        }),
        frame_visible ==> r@[0] == SurfaceStep::Fill(SurfaceWindow::Frame) && r@[1]
            == SurfaceStep::Shape(SurfaceWindow::Frame) && r@[2] == SurfaceStep::Place(
            SurfaceWindow::Frame,
        ),
        !frame_visible ==> r@[0] == SurfaceStep::Empty(SurfaceWindow::Frame) && r@[1]
            == SurfaceStep::ShapeToNothing(SurfaceWindow::Frame) && r@[2] == SurfaceStep::Hide(
            SurfaceWindow::Frame,
        ),
        !was_host_visible ==> r@[3] == SurfaceStep::ShapeToNothing(SurfaceWindow::Host) && r@[4]
            == SurfaceStep::Place(SurfaceWindow::Host) && r@[5] == SurfaceStep::ForgetShown,
{
}

/// A workspace that is out of sight takes both of its windows off the screen and forgets what
/// they showed and their shapes.
pub proof fn law_hidden_workspaces_withdraw(r: Vec<SurfaceStep>)
    requires
        call_ensures(withdraw_preview_workspace, (), r),
    ensures
        r@.len() == 5,
        r@[0] == SurfaceStep::Hide(SurfaceWindow::Frame),
        r@[1] == SurfaceStep::Hide(SurfaceWindow::Host),
        r@[2] == SurfaceStep::ForgetShown,
        r@[3] == SurfaceStep::ForgetShape(SurfaceWindow::Frame),
        r@[4] == SurfaceStep::ForgetShape(SurfaceWindow::Host),
{
}

} // verus!
