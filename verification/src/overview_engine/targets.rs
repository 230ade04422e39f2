//! What lies under the pointer, and in which order the previews cover one another.

use std::collections::HashSet;

use crate::geometry::{intersect_rect, rect_contains_point, rect_relative_to, Rect};
use crate::ids::WorkspaceId;
use crate::overview_engine::frame::{OverviewRenderFrame, WindowRenderFrame, WorkspaceRenderFrame};
use vstd::prelude::*;

verus! {

use crate::arith::abs_int;
use crate::geometry::{intersection, relative_to};
use crate::overview_engine::frame::{FrameView, WorkspaceFrameView};
use crate::wm_state::{first_index, lemma_first_index, lemma_first_index_holds};

broadcast use vstd::std_specs::hash::group_hash_axioms;

/// A window of a preview that can be clicked.
#[derive(Clone, Copy, Debug, PartialEq, Eq, Structural)]
pub struct PreviewClickTarget {
    pub hwnd: u64,
    pub workspace_id: WorkspaceId,
    pub rect: Rect,
}

/// A preview that a column can be dropped on.
#[derive(Clone, Copy, Debug, PartialEq, Eq, Structural)]
pub struct WorkspaceDropTarget {
    pub workspace_id: WorkspaceId,
    pub rect: Rect,
}

/// How far apart the middles of a preview and of the monitor are.
pub open spec fn center_distance(canvas_rect: Rect, monitor_rect: Rect) -> int {
    abs_int(
        (canvas_rect.y + canvas_rect.height as int / 2) - (monitor_rect.y + monitor_rect.height
            as int / 2),
    )
}

pub fn preview_center_distance(workspace: &WorkspaceRenderFrame, monitor_rect: Rect) -> (r: i64)
    ensures
        r == center_distance(workspace.canvas_rect, monitor_rect),
{
    let workspace_center: i64 = workspace.canvas_rect.y as i64 + workspace.canvas_rect.height as i64
        / 2;
    let monitor_center: i64 = monitor_rect.y as i64 + monitor_rect.height as i64 / 2;
    let distance: i64 = workspace_center - monitor_center;
    if distance < 0 {
        -distance
    } else {
        distance
    }
}

/// Whether a preview is drawn before another: the further from the middle first, and at the
/// same distance the upper one first.
pub open spec fn drawn_before(
    left: WorkspaceFrameView,
    right: WorkspaceFrameView,
    monitor_rect: Rect,
) -> bool {
    let left_distance = center_distance(left.canvas_rect, monitor_rect);
    let right_distance = center_distance(right.canvas_rect, monitor_rect);
    left_distance > right_distance || (left_distance == right_distance && left.canvas_rect.y
        < right.canvas_rect.y)
}

fn is_drawn_before(
    left: &WorkspaceRenderFrame,
    right: &WorkspaceRenderFrame,
    monitor_rect: Rect,
) -> (r: bool)
    ensures
        r == drawn_before(left@, right@, monitor_rect),
{
    let left_distance: i64 = preview_center_distance(left, monitor_rect);
    let right_distance: i64 = preview_center_distance(right, monitor_rect);
    left_distance > right_distance || (left_distance == right_distance && left.canvas_rect.y
        < right.canvas_rect.y)
}

/// The place of a preview among those that are ordered already: before the first one that
/// it has to be drawn before.
pub open spec fn draw_position(
    ordered: Seq<WorkspaceFrameView>,
    workspace: WorkspaceFrameView,
    monitor_rect: Rect,
) -> int {
    first_index(
        ordered,
        |other: WorkspaceFrameView| drawn_before(workspace, other, monitor_rect),
    )
}

/// The previews in the order in which they are drawn, the topmost one last.
pub open spec fn draw_order(workspaces: Seq<WorkspaceFrameView>, monitor_rect: Rect) -> Seq<
    WorkspaceFrameView,
>
    decreases workspaces.len(),
{
    if workspaces.len() == 0 {
        Seq::empty()
    } else {
        let rest = draw_order(workspaces.drop_last(), monitor_rect);
        rest.insert(draw_position(rest, workspaces.last(), monitor_rect), workspaces.last())
    }
}

pub open spec fn references_view(workspaces: Seq<&WorkspaceRenderFrame>) -> Seq<
    WorkspaceFrameView,
> {
    Seq::new(workspaces.len(), |i: int| workspaces[i]@)
}

pub fn ordered_frame_workspaces(frame: &OverviewRenderFrame) -> (r: Vec<&WorkspaceRenderFrame>)
    ensures
        references_view(r@) == draw_order(frame@.workspaces, frame.monitor_rect),
{
    let monitor_rect: Rect = frame.monitor_rect;
    let ghost views = frame@.workspaces;
    let mut ordered: Vec<&WorkspaceRenderFrame> = Vec::new();
    let mut i: usize = 0;
    assert(views.take(0) =~= Seq::empty());
    assert(references_view(ordered@) =~= Seq::empty());
    while i < frame.workspaces.len()
        invariant
            i <= frame.workspaces.len(),
            monitor_rect == frame.monitor_rect,
            views == frame@.workspaces,
            ordered.len() == i,
            references_view(ordered@) == draw_order(views.take(i as int), monitor_rect),
        decreases frame.workspaces.len() - i,
    {
        let workspace: &WorkspaceRenderFrame = &frame.workspaces[i];
        let ghost before = references_view(ordered@);
        let ghost test = |other: WorkspaceFrameView|
            drawn_before(workspace@, other, monitor_rect);
        let mut position: usize = 0;
        while position < ordered.len() && !is_drawn_before(
            workspace,
            ordered[position],
            monitor_rect,
        )
            invariant
                position <= ordered.len(),
                before == references_view(ordered@),
                test == (|other: WorkspaceFrameView|
                    drawn_before(workspace@, other, monitor_rect)),
                forall|j: int| 0 <= j < position ==> !test(#[trigger] before[j]),
            decreases ordered.len() - position,
        {
            assert(!test(before[position as int]));
            position = position + 1;
        }
        proof {
            lemma_first_index(before, test, position as int);
            assert(views.take(i + 1).drop_last() =~= views.take(i as int));
            assert(views.take(i + 1).last() == workspace@);
        }
        ordered.insert(position, workspace);
        assert(references_view(ordered@) =~= before.insert(position as int, workspace@));
        i = i + 1;
    }
    assert(views.take(i as int) =~= views);
    ordered
}

/// The visible part of the preview nearest to the middle, with its distance; of two at the
/// same distance the first.
pub open spec fn nearest_viewport(workspaces: Seq<WorkspaceFrameView>, monitor_rect: Rect) -> Option<
    (int, Rect),
>
    decreases workspaces.len(),
{
    if workspaces.len() == 0 {
        None
    } else {
        let rest = nearest_viewport(workspaces.drop_last(), monitor_rect);
        let last = workspaces.last();
        let distance = center_distance(last.canvas_rect, monitor_rect);
        match (intersection(last.viewport_rect, monitor_rect), rest) {
            (None, _) => rest,
            (Some(visible), None) => Some((distance, visible)),
            (Some(visible), Some((nearest, rect))) => if distance < nearest {
                Some((distance, visible))
            } else {
                rest
            },
        }
    }
}

/// The column of the screen that the previews' viewports stand in.
pub open spec fn viewport_column(frame: FrameView) -> Option<Rect> {
    match nearest_viewport(frame.workspaces, frame.monitor_rect) {
        None => None,
        Some((_, viewport)) => Some(
            Rect {
                x: viewport.x,
                y: frame.monitor_rect.y,
                width: viewport.width,
                height: frame.monitor_rect.height,
            },
        ),
    }
}

pub fn overview_viewport_column_rect(frame: &OverviewRenderFrame) -> (r: Option<Rect>)
    ensures
        r == viewport_column(frame@),
{
    let monitor_rect: Rect = frame.monitor_rect;
    let ghost views = frame@.workspaces;
    let mut found: bool = false;
    let mut nearest: i64 = 0;
    let mut viewport: Rect = Rect::new(0, 0, 0, 0);
    let mut i: usize = 0;
    assert(views.take(0) =~= Seq::empty());
    while i < frame.workspaces.len()
        invariant
            i <= frame.workspaces.len(),
            monitor_rect == frame.monitor_rect,
            views == frame@.workspaces,
            nearest_viewport(views.take(i as int), monitor_rect) == (if found {
                Some((nearest as int, viewport))
            } else {
                None
            }),
        decreases frame.workspaces.len() - i,
    {
        let workspace: &WorkspaceRenderFrame = &frame.workspaces[i];
        proof {
            assert(views.take(i + 1).drop_last() =~= views.take(i as int));
            assert(views.take(i + 1).last() == workspace@);
        }
        if let Some(visible) = intersect_rect(workspace.viewport_rect, monitor_rect) {
            let distance: i64 = preview_center_distance(workspace, monitor_rect);
            if !found || distance < nearest {
                found = true;
                nearest = distance;
                viewport = visible;
            }
        }
        i = i + 1;
    }
    assert(views.take(i as int) =~= views);
    if found {
        Some(Rect::new(viewport.x, monitor_rect.y, viewport.width, monitor_rect.height))
    } else {
        None
    }
}

/// What can be clicked of a workspace's windows: the part inside a clip, seen from an
/// origin, of those that are visible.
pub open spec fn window_targets(
    workspace_id: WorkspaceId,
    windows: Seq<WindowRenderFrame>,
    clip_rect: Rect,
    visible: Set<u64>,
    origin_rect: Rect,
) -> Seq<PreviewClickTarget>
    decreases windows.len(),
{
    if windows.len() == 0 {
        Seq::empty()
    } else {
        let rest = window_targets(
            workspace_id,
            windows.drop_last(),
            clip_rect,
            visible,
            origin_rect,
        );
        let window = windows.last();
        match intersection(window.rect, clip_rect) {
            Some(clipped) => if visible.contains(window.hwnd) {
                rest.push(
                    PreviewClickTarget {
                        hwnd: window.hwnd,
                        workspace_id,
                        rect: relative_to(clipped, origin_rect),
                    },
                )
            } else {
                rest
            },
            None => rest,
        }
    }
}

pub fn preview_click_targets(
    workspace: &WorkspaceRenderFrame,
    visible_canvas_rect: Rect,
    visible_hwnds: &HashSet<u64>,
    origin_rect: Rect,
) -> (r: Vec<PreviewClickTarget>)
    ensures
        r@ == window_targets(
            workspace.workspace_id,
            workspace.windows@,
            visible_canvas_rect,
            visible_hwnds@,
            origin_rect,
        ),
{
    let mut targets: Vec<PreviewClickTarget> = Vec::new();
    let mut i: usize = 0;
    assert(workspace.windows@.take(0) =~= Seq::empty());
    while i < workspace.windows.len()
        invariant
            i <= workspace.windows.len(),
            targets@ == window_targets(
                workspace.workspace_id,
                workspace.windows@.take(i as int),
                visible_canvas_rect,
                visible_hwnds@,
                origin_rect,
            ),
        decreases workspace.windows.len() - i,
    {
        let window: WindowRenderFrame = workspace.windows[i];
        assert(workspace.windows@.take(i + 1).drop_last() =~= workspace.windows@.take(i as int));
        if visible_hwnds.contains(&window.hwnd) {
            if let Some(clipped) = intersect_rect(window.rect, visible_canvas_rect) {
                targets.push(
                    PreviewClickTarget {
                        hwnd: window.hwnd,
                        workspace_id: workspace.workspace_id,
                        rect: rect_relative_to(clipped, origin_rect),
                    },
                );
            }
        }
        i = i + 1;
    }
    assert(workspace.windows@.take(i as int) =~= workspace.windows@);
    targets
}

/// The clipped windows of a workspace, whether or not they are visible.
pub fn preview_window_rects(
    workspace: &WorkspaceRenderFrame,
    clip_rect: Rect,
    origin_rect: Rect,
) -> (r: Vec<PreviewClickTarget>)
    ensures
        r@ == window_targets(
            workspace.workspace_id,
            workspace.windows@,
            clip_rect,
            Set::full(),
            origin_rect,
        ),
{
    let mut targets: Vec<PreviewClickTarget> = Vec::new();
    let mut i: usize = 0;
    assert(workspace.windows@.take(0) =~= Seq::empty());
    while i < workspace.windows.len()
        invariant
            i <= workspace.windows.len(),
            targets@ == window_targets(
                workspace.workspace_id,
                workspace.windows@.take(i as int),
                clip_rect,
                Set::full(),
                origin_rect,
            ),
        decreases workspace.windows.len() - i,
    {
        let window: WindowRenderFrame = workspace.windows[i];
        assert(workspace.windows@.take(i + 1).drop_last() =~= workspace.windows@.take(i as int));
        if let Some(clipped) = intersect_rect(window.rect, clip_rect) {
            targets.push(
                PreviewClickTarget {
                    hwnd: window.hwnd,
                    workspace_id: workspace.workspace_id,
                    rect: rect_relative_to(clipped, origin_rect),
                },
            );
        }
        i = i + 1;
    }
    assert(workspace.windows@.take(i as int) =~= workspace.windows@);
    targets
}

pub fn preview_shell_targets(
    workspace: &WorkspaceRenderFrame,
    visible_canvas_rect: Rect,
    origin_rect: Rect,
) -> (r: Vec<PreviewClickTarget>)
    ensures
        r@ == window_targets(
            workspace.workspace_id,
            workspace.windows@,
            visible_canvas_rect,
            Set::full(),
            origin_rect,
        ),
{
    preview_window_rects(workspace, visible_canvas_rect, origin_rect)
}

/// What can be clicked of ordered previews: each one's windows, clipped to its canvas on
/// the visible part of the screen.
pub open spec fn ordered_targets(
    ordered: Seq<WorkspaceFrameView>,
    visible_scene_rect: Rect,
    visible: Set<u64>,
) -> Seq<PreviewClickTarget>
    decreases ordered.len(),
{
    if ordered.len() == 0 {
        Seq::empty()
    } else {
        let rest = ordered_targets(ordered.drop_last(), visible_scene_rect, visible);
        let workspace = ordered.last();
        match intersection(workspace.canvas_rect, visible_scene_rect) {
            Some(canvas) => rest + window_targets(
                workspace.workspace_id,
                workspace.windows,
                canvas,
                visible,
                visible_scene_rect,
            ),
            None => rest,
        }
    }
}

pub fn preview_click_targets_for_frame(
    frame: &OverviewRenderFrame,
    visible_scene_rect: Rect,
    visible_hwnds: &HashSet<u64>,
) -> (r: Vec<PreviewClickTarget>)
    ensures
        r@ == ordered_targets(
            draw_order(frame@.workspaces, frame.monitor_rect),
            visible_scene_rect,
            visible_hwnds@,
        ),
{
    let ordered: Vec<&WorkspaceRenderFrame> = ordered_frame_workspaces(frame);
    let ghost views = references_view(ordered@);
    let mut targets: Vec<PreviewClickTarget> = Vec::new();
    let mut i: usize = 0;
    assert(views.take(0) =~= Seq::empty());
    while i < ordered.len()
        invariant
            i <= ordered.len(),
            views == references_view(ordered@),
            targets@ == ordered_targets(
                views.take(i as int),
                visible_scene_rect,
                visible_hwnds@,
            ),
        decreases ordered.len() - i,
    {
        let workspace: &WorkspaceRenderFrame = ordered[i];
        proof {
            assert(views.take(i + 1).drop_last() =~= views.take(i as int));
            assert(views.take(i + 1).last() == workspace@);
        }
        if let Some(canvas) = intersect_rect(workspace.canvas_rect, visible_scene_rect) {
            let mut more: Vec<PreviewClickTarget> = preview_click_targets(
                workspace,
                canvas,
                visible_hwnds,
                visible_scene_rect,
            );
            targets.append(&mut more);
        }
        i = i + 1;
    }
    assert(views.take(i as int) =~= views);
    targets
}

pub fn preview_shell_targets_for_frame(frame: &OverviewRenderFrame, visible_scene_rect: Rect) -> (r:
    Vec<PreviewClickTarget>)
    ensures
        r@ == ordered_targets(
            draw_order(frame@.workspaces, frame.monitor_rect),
            visible_scene_rect,
            Set::full(),
        ),
{
    let ordered: Vec<&WorkspaceRenderFrame> = ordered_frame_workspaces(frame);
    let ghost views = references_view(ordered@);
    let mut targets: Vec<PreviewClickTarget> = Vec::new();
    let mut i: usize = 0;
    assert(views.take(0) =~= Seq::empty());
    while i < ordered.len()
        invariant
            i <= ordered.len(),
            views == references_view(ordered@),
            targets@ == ordered_targets(views.take(i as int), visible_scene_rect, Set::full()),
        decreases ordered.len() - i,
    {
        let workspace: &WorkspaceRenderFrame = ordered[i];
        proof {
            assert(views.take(i + 1).drop_last() =~= views.take(i as int));
            assert(views.take(i + 1).last() == workspace@);
        }
        if let Some(canvas) = intersect_rect(workspace.canvas_rect, visible_scene_rect) {
            let mut more: Vec<PreviewClickTarget> = preview_shell_targets(
                workspace,
                canvas,
                visible_scene_rect,
            );
            targets.append(&mut more);
        }
        i = i + 1;
    }
    assert(views.take(i as int) =~= views);
    targets
}

/// The visible parts of the previews' canvases, seen from the visible part of the screen.
pub open spec fn drop_targets(
    workspaces: Seq<WorkspaceFrameView>,
    visible_scene_rect: Rect,
) -> Seq<WorkspaceDropTarget>
    decreases workspaces.len(),
{
    if workspaces.len() == 0 {
        Seq::empty()
    } else {
        let rest = drop_targets(workspaces.drop_last(), visible_scene_rect);
        let workspace = workspaces.last();
        match intersection(workspace.canvas_rect, visible_scene_rect) {
            Some(clipped) => rest.push(
                WorkspaceDropTarget {
                    workspace_id: workspace.workspace_id,
                    rect: relative_to(clipped, visible_scene_rect),
                },
            ),
            None => rest,
        }
    }
}

pub fn workspace_drop_targets_for_frame(frame: &OverviewRenderFrame, visible_scene_rect: Rect) -> (r:
    Vec<WorkspaceDropTarget>)
    ensures
        r@ == drop_targets(frame@.workspaces, visible_scene_rect),
{
    let ghost views = frame@.workspaces;
    let mut targets: Vec<WorkspaceDropTarget> = Vec::new();
    let mut i: usize = 0;
    assert(views.take(0) =~= Seq::empty());
    while i < frame.workspaces.len()
        invariant
            i <= frame.workspaces.len(),
            views == frame@.workspaces,
            targets@ == drop_targets(views.take(i as int), visible_scene_rect),
        decreases frame.workspaces.len() - i,
    {
        let workspace: &WorkspaceRenderFrame = &frame.workspaces[i];
        proof {
            assert(views.take(i + 1).drop_last() =~= views.take(i as int));
            assert(views.take(i + 1).last() == workspace@);
        }
        if let Some(clipped) = intersect_rect(workspace.canvas_rect, visible_scene_rect) {
            targets.push(
                WorkspaceDropTarget {
                    workspace_id: workspace.workspace_id,
                    rect: rect_relative_to(clipped, visible_scene_rect),
                },
            );
        }
        i = i + 1;
    }
    assert(views.take(i as int) =~= views);
    targets
}

/// The topmost of the targets at a point: the last one that covers it.
pub open spec fn target_at(targets: Seq<PreviewClickTarget>, x: int, y: int) -> Option<
    PreviewClickTarget,
>
    decreases targets.len(),
{
    if targets.len() == 0 {
        None
    } else if targets.last().rect.covers(x, y) {
        Some(targets.last())
    } else {
        target_at(targets.drop_last(), x, y)
    }
}

pub fn preview_target_at_point(click_targets: &[PreviewClickTarget], x: i32, y: i32) -> (r:
    Option<PreviewClickTarget>)
    ensures
        r == target_at(click_targets@, x as int, y as int),
{
    let mut i: usize = click_targets.len();
    assert(click_targets@.take(i as int) =~= click_targets@);
    while i > 0
        invariant
            i <= click_targets.len(),
            target_at(click_targets@, x as int, y as int) == target_at(
                click_targets@.take(i as int),
                x as int,
                y as int,
            ),
        decreases i,
    {
        assert(click_targets@.take(i as int).drop_last() =~= click_targets@.take(i - 1));
        i = i - 1;
        if rect_contains_point(click_targets[i].rect, x, y) {
            return Some(click_targets[i]);
        }
    }
    None
}

pub fn hit_test_preview_targets(click_targets: &[PreviewClickTarget], x: i32, y: i32) -> (r:
    Option<u64>)
    ensures
        r == (match target_at(click_targets@, x as int, y as int) {
            Some(target) => Some(target.hwnd),
            None => None,
        }),
{
    match preview_target_at_point(click_targets, x, y) {
        Some(target) => Some(target.hwnd),
        None => None,
    }
}

/// The workspace of the last drop target that covers a point.
pub open spec fn drop_target_at(targets: Seq<WorkspaceDropTarget>, x: int, y: int) -> Option<
    WorkspaceId,
>
    decreases targets.len(),
{
    if targets.len() == 0 {
        None
    } else if targets.last().rect.covers(x, y) {
        Some(targets.last().workspace_id)
    } else {
        drop_target_at(targets.drop_last(), x, y)
    }
}

pub fn hit_test_workspace_drop_targets(
    workspace_targets: &[WorkspaceDropTarget],
    x: i32,
    y: i32,
) -> (r: Option<WorkspaceId>)
    ensures
        r == drop_target_at(workspace_targets@, x as int, y as int),
{
    let mut i: usize = workspace_targets.len();
    assert(workspace_targets@.take(i as int) =~= workspace_targets@);
    while i > 0
        invariant
            i <= workspace_targets.len(),
            drop_target_at(workspace_targets@, x as int, y as int) == drop_target_at(
                workspace_targets@.take(i as int),
                x as int,
                y as int,
            ),
        decreases i,
    {
        assert(workspace_targets@.take(i as int).drop_last() =~= workspace_targets@.take(i - 1));
        i = i - 1;
        if rect_contains_point(workspace_targets[i].rect, x, y) {
            return Some(workspace_targets[i].workspace_id);
        }
    }
    None
}

proof fn lemma_draw_position_in_range(
    ordered: Seq<WorkspaceFrameView>,
    workspace: WorkspaceFrameView,
    monitor_rect: Rect,
)
    ensures
        0 <= draw_position(ordered, workspace, monitor_rect) <= ordered.len(),
{
    lemma_first_index_holds(
        ordered,
        |other: WorkspaceFrameView| drawn_before(workspace, other, monitor_rect),
    );
}

/// The draw order holds every preview as often as the frame does.
pub proof fn law_draw_order_keeps_every_preview(
    workspaces: Seq<WorkspaceFrameView>,
    monitor_rect: Rect,
)
    ensures
        draw_order(workspaces, monitor_rect).to_multiset() == workspaces.to_multiset(),
        draw_order(workspaces, monitor_rect).len() == workspaces.len(),
    decreases workspaces.len(),
{
    broadcast use vstd::seq_lib::group_to_multiset_ensures;

    if workspaces.len() > 0 {
        let rest = draw_order(workspaces.drop_last(), monitor_rect);
        let last = workspaces.last();
        let k = draw_position(rest, last, monitor_rect);
        lemma_draw_position_in_range(rest, last, monitor_rect);
        law_draw_order_keeps_every_preview(workspaces.drop_last(), monitor_rect);
        assert(workspaces.drop_last().push(last) =~= workspaces);
        assert(rest.insert(k, last).to_multiset() =~= rest.to_multiset().insert(last));
    }
}

/// No preview of the draw order has to be drawn before one that stands earlier in it.
pub proof fn law_draw_order_is_sorted(
    workspaces: Seq<WorkspaceFrameView>,
    monitor_rect: Rect,
    i: int,
    j: int,
)
    requires
        0 <= i < j < draw_order(workspaces, monitor_rect).len(),
    ensures
        !drawn_before(
            draw_order(workspaces, monitor_rect)[j],
            draw_order(workspaces, monitor_rect)[i],
            monitor_rect,
        ),
    decreases workspaces.len(),
{
    if workspaces.len() > 0 {
        let before = workspaces.drop_last();
        let rest = draw_order(before, monitor_rect);
        let last = workspaces.last();
        let k = draw_position(rest, last, monitor_rect);
        lemma_first_index_holds(
            rest,
            |other: WorkspaceFrameView| drawn_before(last, other, monitor_rect),
        );
        let i0 = if i < k {
            i
        } else {
            i - 1
        };
        let j0 = if j < k {
            j
        } else {
            j - 1
        };
        if i != k && j != k {
            law_draw_order_is_sorted(before, monitor_rect, i0, j0);
        } else if j == k {
            let test = |other: WorkspaceFrameView| drawn_before(last, other, monitor_rect);
            assert(!test(rest[i]));
        } else {
            assert(drawn_before(last, rest[k], monitor_rect));
            if j0 > k {
                law_draw_order_is_sorted(before, monitor_rect, k, j0);
            }
        }
    }
}

/// The previews at a given distance and height.
pub open spec fn drawn_alike(
    distance: int,
    y: int,
    monitor_rect: Rect,
) -> spec_fn(WorkspaceFrameView) -> bool {
    |workspace: WorkspaceFrameView|
        center_distance(workspace.canvas_rect, monitor_rect) == distance && workspace.canvas_rect.y
            == y
}

proof fn lemma_filter_of_none<T>(items: Seq<T>, test: spec_fn(T) -> bool)
    requires
        forall|i: int| 0 <= i < items.len() ==> !test(#[trigger] items[i]),
    ensures
        items.filter(test) == Seq::<T>::empty(),
    decreases items.len(),
{
    reveal(Seq::filter);
    if items.len() > 0 {
        lemma_filter_of_none(items.drop_last(), test);
    }
}

proof fn lemma_filter_of_push<T>(items: Seq<T>, item: T, test: spec_fn(T) -> bool)
    ensures
        items.push(item).filter(test) == (if test(item) {
            items.filter(test).push(item)
        } else {
            items.filter(test)
        }),
{
    reveal(Seq::filter);
    assert(items.push(item).drop_last() =~= items);
}

/// Previews at the same distance and height stay in the frame's order.
pub proof fn law_draw_order_is_stable(
    workspaces: Seq<WorkspaceFrameView>,
    monitor_rect: Rect,
    distance: int,
    y: int,
)
    ensures
        draw_order(workspaces, monitor_rect).filter(drawn_alike(distance, y, monitor_rect))
            == workspaces.filter(drawn_alike(distance, y, monitor_rect)),
    decreases workspaces.len(),
{
    let alike = drawn_alike(distance, y, monitor_rect);
    if workspaces.len() == 0 {
        assert(draw_order(workspaces, monitor_rect) =~= workspaces);
    } else {
        let before = workspaces.drop_last();
        let rest = draw_order(before, monitor_rect);
        let last = workspaces.last();
        let k = draw_position(rest, last, monitor_rect);
        lemma_first_index_holds(
            rest,
            |other: WorkspaceFrameView| drawn_before(last, other, monitor_rect),
        );
        law_draw_order_is_stable(before, monitor_rect, distance, y);
        let head = rest.take(k);
        let tail = rest.skip(k);
        assert(rest =~= head + tail);
        assert(rest.insert(k, last) =~= head.push(last) + tail);
        assert(workspaces =~= before.push(last));
        lemma_filter_of_push(before, last, alike);
        lemma_filter_of_push(head, last, alike);
        Seq::filter_distributes_over_add(head, tail, alike);
        Seq::filter_distributes_over_add(head.push(last), tail, alike);
        if alike(last) {
            assert forall|i: int| 0 <= i < tail.len() implies !alike(#[trigger] tail[i]) by {
                assert(drawn_before(last, rest[k], monitor_rect));
                if i > 0 {
                    law_draw_order_is_sorted(before, monitor_rect, k, k + i);
                }
            }
            lemma_filter_of_none(tail, alike);
            assert(head.filter(alike) + tail.filter(alike) =~= head.filter(alike));
            assert(head.filter(alike).push(last) + tail.filter(alike) =~= head.filter(
                alike,
            ).push(last));
        }
    }
}

/// Every click target is the clipped part of a visible window, seen from the origin.
pub proof fn law_click_targets_are_clipped_windows(
    workspace_id: WorkspaceId,
    windows: Seq<WindowRenderFrame>,
    clip_rect: Rect,
    visible: Set<u64>,
    origin_rect: Rect,
    i: int,
) -> (k: int)
    requires
        0 <= i < window_targets(workspace_id, windows, clip_rect, visible, origin_rect).len(),
    ensures
        0 <= k < windows.len(),
        visible.contains(windows[k].hwnd),
        intersection(windows[k].rect, clip_rect) matches Some(clipped) && window_targets(
            workspace_id,
            windows,
            clip_rect,
            visible,
            origin_rect,
        )[i] == (PreviewClickTarget {
            hwnd: windows[k].hwnd,
            workspace_id,
            rect: relative_to(clipped, origin_rect),
        }),
    decreases windows.len(),
{
    let rest = window_targets(
        workspace_id,
        windows.drop_last(),
        clip_rect,
        visible,
        origin_rect,
    );
    if i < rest.len() {
        law_click_targets_are_clipped_windows(
            workspace_id,
            windows.drop_last(),
            clip_rect,
            visible,
            origin_rect,
            i,
        )
    } else {
        windows.len() - 1
    }
}

/// A click hits a target exactly where one covers the point, and of those the one that was
/// drawn last.
pub proof fn law_click_hits_the_topmost_target(targets: Seq<PreviewClickTarget>, x: int, y: int)
    ensures
        match target_at(targets, x, y) {
            Some(hit) => exists|i: int|
                #![trigger targets[i]]
                0 <= i < targets.len() && targets[i] == hit && hit.rect.covers(x, y) && forall|
                    j: int,
                |
                    i < j < targets.len() ==> !(#[trigger] targets[j]).rect.covers(x, y),
            None => forall|j: int|
                0 <= j < targets.len() ==> !(#[trigger] targets[j]).rect.covers(x, y),
        },
    decreases targets.len(),
{
    if targets.len() > 0 && !targets.last().rect.covers(x, y) {
        let shorter = targets.drop_last();
        law_click_hits_the_topmost_target(shorter, x, y);
        match target_at(shorter, x, y) {
            Some(hit) => {
                let i = choose|i: int|
                    #![trigger shorter[i]]
                    0 <= i < shorter.len() && shorter[i] == hit && hit.rect.covers(x, y) && forall|
                        j: int,
                    |
                        i < j < shorter.len() ==> !(#[trigger] shorter[j]).rect.covers(x, y);
                assert(targets[i] == hit);
                assert forall|j: int| i < j < targets.len() implies !(
                #[trigger] targets[j]).rect.covers(x, y) by {
                    if j < shorter.len() {
                        assert(shorter[j] == targets[j]);
                    }
                }
            },
            None => {
                assert forall|j: int| 0 <= j < targets.len() implies !(
                #[trigger] targets[j]).rect.covers(x, y) by {
                    if j < shorter.len() {
                        assert(shorter[j] == targets[j]);
                    }
                }
            },
        }
    } else if targets.len() > 0 {
        assert(targets[targets.len() - 1] == targets.last());
    }
}

/// Previews nearer to the middle of the monitor are drawn later, over the others; at the same
/// distance the lower one is drawn later.
pub proof fn law_nearer_previews_are_drawn_later(
    workspaces: Seq<WorkspaceFrameView>,
    monitor_rect: Rect,
    i: int,
    j: int,
)
    requires
        0 <= i < j < draw_order(workspaces, monitor_rect).len(),
    ensures
        ({
            let earlier = draw_order(workspaces, monitor_rect)[i].canvas_rect;
            let later = draw_order(workspaces, monitor_rect)[j].canvas_rect;
            let middle = monitor_rect.y + monitor_rect.height as int / 2;
            let far = earlier.y + earlier.height as int / 2 - middle;
            let near = later.y + later.height as int / 2 - middle;
            &&& near <= far || near <= -far
            &&& -near <= far || -near <= -far
            &&& near == far || near == -far ==> earlier.y <= later.y
        }),
{
    law_draw_order_is_sorted(workspaces, monitor_rect, i, j);
}

/// Every visible window that reaches into the clip can be clicked, in the order of the windows
/// and each once.
pub proof fn law_every_visible_window_can_be_clicked(
    workspace_id: WorkspaceId,
    windows: Seq<WindowRenderFrame>,
    clip_rect: Rect,
    visible: Set<u64>,
    origin_rect: Rect,
) -> (at: Seq<int>)
    ensures
        ({
            let targets = window_targets(workspace_id, windows, clip_rect, visible, origin_rect);
            &&& at.len() == targets.len()
            &&& forall|i: int| 0 <= i < at.len() ==> 0 <= #[trigger] at[i] < windows.len()
            &&& forall|i: int, j: int| 0 <= i < j < at.len() ==> #[trigger] at[i] < #[trigger] at[j]
            &&& forall|i: int|
                0 <= i < at.len() ==> targets[i].hwnd == windows[#[trigger] at[i]].hwnd
                    && targets[i].workspace_id == workspace_id && visible.contains(targets[i].hwnd)
                    && intersection(windows[at[i]].rect, clip_rect) is Some && targets[i].rect
                    == relative_to(
                    intersection(windows[at[i]].rect, clip_rect)->0,
                    origin_rect,
                )
            &&& forall|k: int|
                0 <= k < windows.len() && visible.contains((#[trigger] windows[k]).hwnd)
                    && intersection(windows[k].rect, clip_rect) is Some ==> at.contains(k)
        }),
    decreases windows.len(),
{
    if windows.len() == 0 {
        Seq::empty()
    } else {
        let rest = windows.drop_last();
        let last = windows.len() - 1;
        let before = law_every_visible_window_can_be_clicked(
            workspace_id,
            rest,
            clip_rect,
            visible,
            origin_rect,
        );
        let hit = visible.contains(windows[last].hwnd) && intersection(
            windows[last].rect,
            clip_rect,
        ) is Some;
        let at = if hit {
            before.push(last)
        } else {
            before
        };
        assert forall|i: int| 0 <= i < before.len() implies #[trigger] windows[before[i]]
            == rest[before[i]] by {}
        assert forall|k: int|
            0 <= k < windows.len() && visible.contains((#[trigger] windows[k]).hwnd)
                && intersection(windows[k].rect, clip_rect) is Some implies at.contains(k) by {
            if k < last {
                assert(rest[k] == windows[k]);
                let i = choose|i: int| 0 <= i < before.len() && before[i] == k;
                assert(at[i] == k);
            } else {
                assert(at[before.len() as int] == last);
            }
        }
        at
    }
}

/// The previews contribute their windows one after another, clipped to the part of their canvas
/// that can be seen; a preview that cannot be seen contributes none.
pub proof fn law_click_targets_follow_the_draw_order(
    first: Seq<WorkspaceFrameView>,
    second: Seq<WorkspaceFrameView>,
    workspace: WorkspaceFrameView,
    visible_scene_rect: Rect,
    visible: Set<u64>,
)
    ensures
        ordered_targets(first + second, visible_scene_rect, visible) == ordered_targets(
            first,
            visible_scene_rect,
            visible,
        ) + ordered_targets(second, visible_scene_rect, visible),
        ordered_targets(seq![workspace], visible_scene_rect, visible) == (match intersection(
            workspace.canvas_rect,
            visible_scene_rect,
        ) {
            Some(canvas) => window_targets(
                workspace.workspace_id,
                workspace.windows,
                canvas,
                visible,
                visible_scene_rect,
            ),
            None => Seq::empty(),
        }),
    decreases second.len(),
{
    let alone = seq![workspace];
    assert(ordered_targets(alone.drop_last(), visible_scene_rect, visible).len() == 0);
    assert(alone.last() == workspace);
    match intersection(workspace.canvas_rect, visible_scene_rect) {
        Some(canvas) => {
            assert(ordered_targets(alone, visible_scene_rect, visible) =~= window_targets(
                workspace.workspace_id,
                workspace.windows,
                canvas,
                visible,
                visible_scene_rect,
            ));
        },
        None => {
            assert(ordered_targets(alone, visible_scene_rect, visible) =~= Seq::empty());
        },
    }
    if second.len() == 0 {
        assert(first + second =~= first);
        assert(ordered_targets(first, visible_scene_rect, visible) + Seq::<
            PreviewClickTarget,
        >::empty() =~= ordered_targets(first, visible_scene_rect, visible));
    } else {
        let rest = second.drop_last();
        law_click_targets_follow_the_draw_order(first, rest, workspace, visible_scene_rect, visible);
        assert((first + second).drop_last() =~= first + rest);
        assert((first + second).last() == second.last());
        assert(ordered_targets(first + second, visible_scene_rect, visible) =~= ordered_targets(
            first,
            visible_scene_rect,
            visible,
        ) + ordered_targets(second, visible_scene_rect, visible));
    }
}

/// A column can be dropped on every preview that can be seen, as far as it can be seen, and on
/// nothing else.
pub proof fn law_every_visible_preview_takes_drops(
    workspaces: Seq<WorkspaceFrameView>,
    visible_scene_rect: Rect,
) -> (at: Seq<int>)
    ensures
        ({
            let targets = drop_targets(workspaces, visible_scene_rect);
            &&& at.len() == targets.len()
            &&& forall|i: int| 0 <= i < at.len() ==> 0 <= #[trigger] at[i] < workspaces.len()
            &&& forall|i: int, j: int| 0 <= i < j < at.len() ==> #[trigger] at[i] < #[trigger] at[j]
            &&& forall|i: int|
                0 <= i < at.len() ==> targets[i].workspace_id == workspaces[
                #[trigger] at[i]].workspace_id && intersection(
                    workspaces[at[i]].canvas_rect,
                    visible_scene_rect,
                ) is Some && targets[i].rect == relative_to(
                    intersection(workspaces[at[i]].canvas_rect, visible_scene_rect)->0,
                    visible_scene_rect,
                )
            &&& forall|k: int|
                0 <= k < workspaces.len() && intersection(
                    (#[trigger] workspaces[k]).canvas_rect,
                    visible_scene_rect,
                ) is Some ==> at.contains(k)
        }),
    decreases workspaces.len(),
{
    if workspaces.len() == 0 {
        Seq::empty()
    } else {
        let rest = workspaces.drop_last();
        let last = workspaces.len() - 1;
        let before = law_every_visible_preview_takes_drops(rest, visible_scene_rect);
        let at = if intersection(workspaces[last].canvas_rect, visible_scene_rect) is Some {
            before.push(last)
        } else {
            before
        };
        assert forall|i: int| 0 <= i < before.len() implies #[trigger] workspaces[before[i]]
            == rest[before[i]] by {}
        assert forall|k: int|
            0 <= k < workspaces.len() && intersection(
                (#[trigger] workspaces[k]).canvas_rect,
                visible_scene_rect,
            ) is Some implies at.contains(k) by {
            if k < last {
                assert(rest[k] == workspaces[k]);
                let i = choose|i: int| 0 <= i < before.len() && before[i] == k;
                assert(at[i] == k);
            } else {
                assert(at[before.len() as int] == last);
            }
        }
        at
    }
}

/// A drop goes to the last of the targets that cover the point, and nowhere where none does.
pub proof fn law_drops_hit_the_last_target(targets: Seq<WorkspaceDropTarget>, x: int, y: int)
    ensures
        match drop_target_at(targets, x, y) {
            Some(id) => exists|i: int|
                #![trigger targets[i]]
                0 <= i < targets.len() && targets[i].workspace_id == id && targets[i].rect.covers(
                    x,
                    y,
                ) && forall|j: int|
                    i < j < targets.len() ==> !(#[trigger] targets[j]).rect.covers(x, y),
            None => forall|j: int|
                0 <= j < targets.len() ==> !(#[trigger] targets[j]).rect.covers(x, y),
        },
    decreases targets.len(),
{
    if targets.len() > 0 {
        let rest = targets.drop_last();
        let last = targets.len() - 1;
        if targets[last].rect.covers(x, y) {
            assert(targets[last].workspace_id == drop_target_at(targets, x, y)->0);
        } else {
            law_drops_hit_the_last_target(rest, x, y);
            match drop_target_at(rest, x, y) {
                Some(id) => {
                    let i = choose|i: int|
                        #![trigger rest[i]]
                        0 <= i < rest.len() && rest[i].workspace_id == id && rest[i].rect.covers(
                            x,
                            y,
                        ) && forall|j: int|
                            i < j < rest.len() ==> !(#[trigger] rest[j]).rect.covers(x, y);
                    assert(targets[i] == rest[i]);
                    assert forall|j: int| i < j < targets.len() implies !(
                    #[trigger] targets[j]).rect.covers(x, y) by {
                        if j < last {
                            assert(targets[j] == rest[j]);
                        }
                    }
                },
                None => {
                    assert forall|j: int| 0 <= j < targets.len() implies !(
                    #[trigger] targets[j]).rect.covers(x, y) by {
                        if j < last {
                            assert(targets[j] == rest[j]);
                        }
                    }
                },
            }
        }
    }
}

proof fn lemma_nearest_viewport(workspaces: Seq<WorkspaceFrameView>, monitor_rect: Rect) -> (i: int)
    ensures
        match nearest_viewport(workspaces, monitor_rect) {
            None => forall|j: int|
                0 <= j < workspaces.len() ==> intersection(
                    (#[trigger] workspaces[j]).viewport_rect,
                    monitor_rect,
                ) is None,
            Some((distance, viewport)) => {
                &&& 0 <= i < workspaces.len()
                &&& intersection(workspaces[i].viewport_rect, monitor_rect) == Some(viewport)
                &&& distance == center_distance(workspaces[i].canvas_rect, monitor_rect)
                &&& forall|j: int|
                    0 <= j < workspaces.len() && intersection(
                        (#[trigger] workspaces[j]).viewport_rect,
                        monitor_rect,
                    ) is Some ==> distance <= center_distance(
                        workspaces[j].canvas_rect,
                        monitor_rect,
                    ) && (j < i ==> distance < center_distance(
                        workspaces[j].canvas_rect,
                        monitor_rect,
                    ))
            },
        },
    decreases workspaces.len(),
{
    if workspaces.len() == 0 {
        0
    } else {
        let rest = workspaces.drop_last();
        let last = workspaces.len() - 1;
        let before = lemma_nearest_viewport(rest, monitor_rect);
        assert forall|j: int| 0 <= j < last implies #[trigger] workspaces[j] == rest[j] by {}
        let distance = center_distance(workspaces[last].canvas_rect, monitor_rect);
        match (
            intersection(workspaces[last].viewport_rect, monitor_rect),
            nearest_viewport(rest, monitor_rect),
        ) {
            (None, _) => before,
            (Some(_), None) => last,
            (Some(_), Some((nearest, _))) => if distance < nearest {
                last
            } else {
                before
            },
        }
    }
}

/// The column behind the previews is as high as the monitor and as wide as what can be seen of
/// the preview whose middle is nearest to the monitor's, the first of several. It is missing
/// exactly where no preview can be seen.
pub proof fn law_the_column_follows_the_nearest_preview(frame: FrameView) -> (i: int)
    ensures
        match viewport_column(frame) {
            None => forall|j: int|
                0 <= j < frame.workspaces.len() ==> intersection(
                    (#[trigger] frame.workspaces[j]).viewport_rect,
                    frame.monitor_rect,
                ) is None,
            Some(column) => {
                let middle = frame.monitor_rect.y + frame.monitor_rect.height as int / 2;
                let own = frame.workspaces[i].canvas_rect;
                let distance = abs_int(own.y + own.height as int / 2 - middle);
                &&& 0 <= i < frame.workspaces.len()
                &&& intersection(
                    frame.workspaces[i].viewport_rect,
                    frame.monitor_rect,
                ) matches Some(seen) && column.x == seen.x && column.width == seen.width
                &&& column.y == frame.monitor_rect.y && column.height == frame.monitor_rect.height
                &&& forall|j: int|
                    0 <= j < frame.workspaces.len() && intersection(
                        (#[trigger] frame.workspaces[j]).viewport_rect,
                        frame.monitor_rect,
                    ) is Some ==> {
                        let other = frame.workspaces[j].canvas_rect;
                        let further = abs_int(other.y + other.height as int / 2 - middle);
                        distance <= further && (j < i ==> distance < further)
                    }
            },
        },
{
    lemma_nearest_viewport(frame.workspaces, frame.monitor_rect)
}

} // verus!
