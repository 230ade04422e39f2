//! One scene turning into another.

use crate::arith::saturating_sub_i32;
use crate::geometry::{interpolate_rect, signed_axis_delta, translate_rect, Rect};
use crate::ids::{holds_hwnd, WorkspaceId};
use crate::overview_engine::frame::{OverviewRenderFrame, WindowRenderFrame, WorkspaceRenderFrame};
use crate::overview_engine::scene::{
    find_preview, OverviewScene, WindowPreviewScene, WorkspacePreviewScene,
};
use vstd::prelude::*;

verus! {

use crate::arith::clamp_i32;
use crate::geometry::{between_rects, translated};
use crate::overview_engine::frame::{FrameView, WorkspaceFrameView};
use crate::overview_engine::scene::{preview_of, PreviewView, SceneView};
use crate::wm_state::{first_where, lemma_first_index, lemma_first_index_holds};

/// A list followed by what another one holds beyond it, each once.
pub open spec fn with_missing<T>(items: Seq<T>, more: Seq<T>) -> Seq<T>
    decreases more.len(),
{
    if more.len() == 0 {
        items
    } else {
        let rest = with_missing(items, more.drop_last());
        if rest.contains(more.last()) {
            rest
        } else {
            rest.push(more.last())
        }
    }
}

/// The list with what is missing holds what either list holds, starts with the first one,
/// and repeats nothing that the first one does not repeat.
pub proof fn lemma_with_missing<T>(items: Seq<T>, more: Seq<T>)
    ensures
        forall|x: T| #[trigger]
            with_missing(items, more).contains(x) <==> items.contains(x) || more.contains(x),
        items.len() <= with_missing(items, more).len(),
        with_missing(items, more).take(items.len() as int) == items,
        items.no_duplicates() ==> with_missing(items, more).no_duplicates(),
    decreases more.len(),
{
    let whole = with_missing(items, more);
    if more.len() == 0 {
        assert(items.take(items.len() as int) =~= items);
    } else {
        let rest = with_missing(items, more.drop_last());
        lemma_with_missing(items, more.drop_last());
        assert(whole.take(items.len() as int) =~= rest.take(items.len() as int));
        assert forall|x: T| #[trigger] whole.contains(x) <==> items.contains(x) || more.contains(
            x,
        ) by {
            if more.contains(x) {
                let i = choose|i: int| 0 <= i < more.len() && more[i] == x;
                if i < more.len() - 1 {
                    assert(more.drop_last()[i] == x);
                    assert(rest.contains(x));
                    let k = rest.index_of(x);
                    assert(whole[k] == x);
                } else if !rest.contains(x) {
                    assert(whole.last() == x);
                    assert(whole[whole.len() - 1] == x);
                }
            }
            if items.contains(x) {
                assert(rest.contains(x));
                let k = rest.index_of(x);
                assert(whole[k] == x);
            }
            if whole.contains(x) {
                let k = whole.index_of(x);
                if k < rest.len() {
                    assert(rest[k] == x);
                    assert(rest.contains(x));
                    if more.drop_last().contains(x) {
                        let i = more.drop_last().index_of(x);
                        assert(more[i] == x);
                    }
                } else {
                    assert(x == more.last());
                    assert(more[more.len() - 1] == x);
                }
            }
        }
    }
}

pub open spec fn workspace_ids(workspaces: Seq<PreviewView>) -> Seq<WorkspaceId> {
    Seq::new(workspaces.len(), |i: int| workspaces[i].workspace_id)
}

/// The workspaces of two scenes, those of the second one first.
pub open spec fn transition_ids(from: SceneView, to: SceneView) -> Seq<WorkspaceId> {
    with_missing(workspace_ids(to.workspaces), workspace_ids(from.workspaces))
}

fn holds_workspace(ids: &Vec<WorkspaceId>, id: WorkspaceId) -> (r: bool)
    ensures
        r == ids@.contains(id),
{
    let mut i: usize = 0;
    while i < ids.len()
        invariant
            i <= ids.len(),
            forall|j: int| 0 <= j < i ==> ids@[j] != id,
        decreases ids.len() - i,
    {
        if ids[i] == id {
            return true;
        }
        i = i + 1;
    }
    false
}

pub fn collect_transition_workspace_ids(from_scene: &OverviewScene, to_scene: &OverviewScene) -> (r:
    Vec<WorkspaceId>)
    ensures
        r@ == transition_ids(from_scene@, to_scene@),
{
    let ghost first = workspace_ids(to_scene@.workspaces);
    let ghost second = workspace_ids(from_scene@.workspaces);
    let mut ids: Vec<WorkspaceId> = Vec::new();
    let mut i: usize = 0;
    while i < to_scene.workspaces.len()
        invariant
            i <= to_scene.workspaces.len(),
            first == workspace_ids(to_scene@.workspaces),
            ids@ == first.take(i as int),
        decreases to_scene.workspaces.len() - i,
    {
        ids.push(to_scene.workspaces[i].workspace_id);
        assert(ids@ =~= first.take(i + 1));
        i = i + 1;
    }
    assert(first.take(i as int) =~= first);
    assert(second.take(0) =~= Seq::empty());
    let mut k: usize = 0;
    while k < from_scene.workspaces.len()
        invariant
            k <= from_scene.workspaces.len(),
            second == workspace_ids(from_scene@.workspaces),
            ids@ == with_missing(first, second.take(k as int)),
        decreases from_scene.workspaces.len() - k,
    {
        let id: WorkspaceId = from_scene.workspaces[k].workspace_id;
        assert(second.take(k + 1).drop_last() =~= second.take(k as int));
        if !holds_workspace(&ids, id) {
            ids.push(id);
        }
        k = k + 1;
    }
    assert(second.take(k as int) =~= second);
    ids
}

/// How far the column of previews moves from one scene to another: as far as the first
/// preview that both show.
pub open spec fn stack_movement(from: SceneView, to: SceneView) -> (int, int) {
    match first_where(
        to.workspaces,
        |workspace: PreviewView| preview_of(from, workspace.workspace_id) is Some,
    ) {
        None => (0, 0),
        Some(after) => {
            let before = preview_of(from, after.workspace_id)->0;
            (
                clamp_i32(after.frame_rect.x - before.frame_rect.x),
                clamp_i32(after.frame_rect.y - before.frame_rect.y),
            )
        },
    }
}

pub fn transition_stack_delta(from_scene: &OverviewScene, to_scene: &OverviewScene) -> (r: (
    i32,
    i32,
))
    ensures
        (r.0 as int, r.1 as int) == stack_movement(from_scene@, to_scene@),
{
    let ghost test = |workspace: PreviewView|
        preview_of(from_scene@, workspace.workspace_id) is Some;
    let mut i: usize = 0;
    while i < to_scene.workspaces.len()
        invariant
            i <= to_scene.workspaces.len(),
            test == (|workspace: PreviewView|
                preview_of(from_scene@, workspace.workspace_id) is Some),
            forall|j: int| 0 <= j < i ==> !test(#[trigger] to_scene@.workspaces[j]),
        decreases to_scene.workspaces.len() - i,
    {
        let after: &WorkspacePreviewScene = &to_scene.workspaces[i];
        assert(to_scene@.workspaces[i as int] == after@);
        if let Some(before) = find_preview(from_scene, after.workspace_id) {
            proof {
                lemma_first_index(to_scene@.workspaces, test, i as int);
            }
            return (
                signed_axis_delta(before.frame_rect.x, after.frame_rect.x),
                signed_axis_delta(before.frame_rect.y, after.frame_rect.y),
            );
        }
        i = i + 1;
    }
    proof {
        lemma_first_index(to_scene@.workspaces, test, i as int);
    }
    (0, 0)
}

/// The window with a handle among those of a preview.
pub open spec fn window_of(windows: Seq<WindowPreviewScene>, hwnd: u64) -> Option<
    WindowPreviewScene,
> {
    first_where(windows, |window: WindowPreviewScene| window.hwnd == hwnd)
}

fn find_window_preview(windows: &Vec<WindowPreviewScene>, hwnd: u64) -> (r: Option<
    WindowPreviewScene,
>)
    ensures
        r == window_of(windows@, hwnd),
{
    let ghost test = |window: WindowPreviewScene| window.hwnd == hwnd;
    let mut i: usize = 0;
    while i < windows.len()
        invariant
            i <= windows.len(),
            test == (|window: WindowPreviewScene| window.hwnd == hwnd),
            forall|j: int| 0 <= j < i ==> !test(#[trigger] windows@[j]),
        decreases windows.len() - i,
    {
        if windows[i].hwnd == hwnd {
            proof {
                lemma_first_index(windows@, test, i as int);
            }
            return Some(windows[i]);
        }
        i = i + 1;
    }
    proof {
        lemma_first_index(windows@, test, i as int);
    }
    None
}

/// How far the windows of a preview move: as far as the first window that both scenes show,
/// else as the preview does, else as the column does.
pub open spec fn window_movement(
    from: Option<PreviewView>,
    to: Option<PreviewView>,
    fallback: (int, int),
) -> (int, int) {
    match (from, to) {
        (Some(before), Some(after)) => match first_where(
            after.windows,
            |window: WindowPreviewScene| window_of(before.windows, window.hwnd) is Some,
        ) {
            Some(window) => {
                let earlier = window_of(before.windows, window.hwnd)->0;
                (
                    clamp_i32(window.overview_rect.x - earlier.overview_rect.x),
                    clamp_i32(window.overview_rect.y - earlier.overview_rect.y),
                )
            },
            None => (
                clamp_i32(after.frame_rect.x - before.frame_rect.x),
                clamp_i32(after.frame_rect.y - before.frame_rect.y),
            ),
        },
        _ => fallback,
    }
}

pub open spec fn optional_view(workspace: Option<&WorkspacePreviewScene>) -> Option<PreviewView> {
    match workspace {
        Some(workspace) => Some(workspace@),
        None => None,
    }
}

pub fn transition_window_delta_for_workspace(
    from_workspace: Option<&WorkspacePreviewScene>,
    to_workspace: Option<&WorkspacePreviewScene>,
    fallback_delta: (i32, i32),
) -> (r: (i32, i32))
    ensures
        (r.0 as int, r.1 as int) == window_movement(
            optional_view(from_workspace),
            optional_view(to_workspace),
            (fallback_delta.0 as int, fallback_delta.1 as int),
        ),
{
    let before: &WorkspacePreviewScene = match from_workspace {
        Some(workspace) => workspace,
        None => {
            return fallback_delta;
        },
    };
    let after: &WorkspacePreviewScene = match to_workspace {
        Some(workspace) => workspace,
        None => {
            return fallback_delta;
        },
    };
    let ghost before_windows = before@.windows;
    let ghost test = |window: WindowPreviewScene| window_of(before_windows, window.hwnd) is Some;
    let mut i: usize = 0;
    while i < after.windows.len()
        invariant
            i <= after.windows.len(),
            from_workspace == Some(before),
            to_workspace == Some(after),
            before_windows == before@.windows,
            test == (|window: WindowPreviewScene|
                window_of(before_windows, window.hwnd) is Some),
            forall|j: int| 0 <= j < i ==> !test(#[trigger] after.windows@[j]),
        decreases after.windows.len() - i,
    {
        let window: WindowPreviewScene = after.windows[i];
        if let Some(earlier) = find_window_preview(&before.windows, window.hwnd) {
            proof {
                lemma_first_index(after.windows@, test, i as int);
            }
            return (
                signed_axis_delta(earlier.overview_rect.x, window.overview_rect.x),
                signed_axis_delta(earlier.overview_rect.y, window.overview_rect.y),
            );
        }
        i = i + 1;
    }
    proof {
        lemma_first_index(after.windows@, test, i as int);
    }
    (
        signed_axis_delta(before.frame_rect.x, after.frame_rect.x),
        signed_axis_delta(before.frame_rect.y, after.frame_rect.y),
    )
}

/// A rectangle on its way from one scene to another. What only one of them shows moves in
/// from, or out to, where the movement puts it.
pub open spec fn moving_rect(
    from: Option<Rect>,
    to: Option<Rect>,
    movement: (int, int),
    progress_milli: int,
) -> Rect {
    let start = match from {
        Some(rect) => rect,
        None => translated(to->0, -movement.0, -movement.1),
    };
    let end = match to {
        Some(rect) => rect,
        None => translated(from->0, movement.0, movement.1),
    };
    between_rects(start, end, progress_milli)
}

fn move_rect(
    from: Option<Rect>,
    to: Option<Rect>,
    movement: (i32, i32),
    progress_milli: u16,
) -> (r: Rect)
    requires
        from is Some || to is Some,
    ensures
        r == moving_rect(
            from,
            to,
            (movement.0 as int, movement.1 as int),
            progress_milli as int,
        ),
{
    match (from, to) {
        (Some(start), Some(end)) => interpolate_rect(start, end, progress_milli),
        (Some(start), None) => interpolate_rect(
            start,
            translate_rect(start, movement.0, movement.1),
            progress_milli,
        ),
        (None, Some(end)) => {
            let start: Rect = Rect::new(
                saturating_sub_i32(end.x, movement.0),
                saturating_sub_i32(end.y, movement.1),
                end.width,
                end.height,
            );
            interpolate_rect(start, end, progress_milli)
        },
        (None, None) => Rect::new(0, 0, 0, 0),
    }
}

pub open spec fn window_handles(workspace: Option<PreviewView>) -> Seq<u64> {
    match workspace {
        Some(workspace) => Seq::new(
            workspace.windows.len(),
            |i: int| workspace.windows[i].hwnd,
        ),
        None => Seq::empty(),
    }
}

pub open spec fn window_rect_in(workspace: Option<PreviewView>, hwnd: u64) -> Option<Rect> {
    match workspace {
        Some(workspace) => match window_of(workspace.windows, hwnd) {
            Some(window) => Some(window.overview_rect),
            None => None,
        },
        None => None,
    }
}

/// The handles of the windows of a workspace in two scenes, those of the second one first.
pub open spec fn transition_handles(from: Option<PreviewView>, to: Option<PreviewView>) -> Seq<
    u64,
> {
    with_missing(window_handles(to), window_handles(from))
}

/// The windows of a workspace on their way from one scene to another.
pub open spec fn moving_windows(
    from: Option<PreviewView>,
    to: Option<PreviewView>,
    stack_movement: (int, int),
    progress_milli: int,
) -> Seq<WindowRenderFrame> {
    let movement = window_movement(from, to, stack_movement);
    let handles = transition_handles(from, to);
    Seq::new(
        handles.len(),
        |i: int|
            WindowRenderFrame {
                hwnd: handles[i],
                rect: moving_rect(
                    window_rect_in(from, handles[i]),
                    window_rect_in(to, handles[i]),
                    movement,
                    progress_milli,
                ),
            },
    )
}

proof fn lemma_handle_has_a_rect(workspace: Option<PreviewView>, hwnd: u64)
    requires
        window_handles(workspace).contains(hwnd),
    ensures
        window_rect_in(workspace, hwnd) is Some,
{
    let windows = (workspace->0).windows;
    let i = window_handles(workspace).index_of(hwnd);
    assert(windows[i].hwnd == hwnd);
    lemma_first_index_holds(windows, |window: WindowPreviewScene| window.hwnd == hwnd);
}

fn collect_transition_handles(
    from_workspace: Option<&WorkspacePreviewScene>,
    to_workspace: Option<&WorkspacePreviewScene>,
) -> (r: Vec<u64>)
    ensures
        r@ == transition_handles(optional_view(from_workspace), optional_view(to_workspace)),
{
    let ghost first = window_handles(optional_view(to_workspace));
    let ghost second = window_handles(optional_view(from_workspace));
    let mut handles: Vec<u64> = Vec::new();
    if let Some(workspace) = to_workspace {
        let mut i: usize = 0;
        while i < workspace.windows.len()
            invariant
                i <= workspace.windows.len(),
                first == window_handles(Some(workspace@)),
                handles@ == first.take(i as int),
            decreases workspace.windows.len() - i,
        {
            handles.push(workspace.windows[i].hwnd);
            assert(handles@ =~= first.take(i + 1));
            i = i + 1;
        }
        assert(first.take(i as int) =~= first);
    }
    assert(handles@ =~= first);
    assert(second.take(0) =~= Seq::empty());
    if let Some(workspace) = from_workspace {
        let mut k: usize = 0;
        while k < workspace.windows.len()
            invariant
                k <= workspace.windows.len(),
                second == window_handles(Some(workspace@)),
                handles@ == with_missing(first, second.take(k as int)),
            decreases workspace.windows.len() - k,
        {
            let hwnd: u64 = workspace.windows[k].hwnd;
            assert(second.take(k + 1).drop_last() =~= second.take(k as int));
            if !holds_hwnd(&handles, hwnd) {
                handles.push(hwnd);
            }
            k = k + 1;
        }
        assert(second.take(k as int) =~= second);
    }
    handles
}

fn find_window_rect(workspace: Option<&WorkspacePreviewScene>, hwnd: u64) -> (r: Option<Rect>)
    ensures
        r == window_rect_in(optional_view(workspace), hwnd),
{
    match workspace {
        Some(workspace) => match find_window_preview(&workspace.windows, hwnd) {
            Some(window) => Some(window.overview_rect),
            None => None,
        },
        None => None,
    }
}

pub fn render_transition_window_frames(
    from_workspace: Option<&WorkspacePreviewScene>,
    to_workspace: Option<&WorkspacePreviewScene>,
    stack_delta: (i32, i32),
    progress_milli: u16,
) -> (r: Vec<WindowRenderFrame>)
    ensures
        r@ == moving_windows(
            optional_view(from_workspace),
            optional_view(to_workspace),
            (stack_delta.0 as int, stack_delta.1 as int),
            progress_milli as int,
        ),
{
    let ghost from = optional_view(from_workspace);
    let ghost to = optional_view(to_workspace);
    let ghost expected = moving_windows(
        from,
        to,
        (stack_delta.0 as int, stack_delta.1 as int),
        progress_milli as int,
    );
    let movement: (i32, i32) = transition_window_delta_for_workspace(
        from_workspace,
        to_workspace,
        stack_delta,
    );
    let handles: Vec<u64> = collect_transition_handles(from_workspace, to_workspace);
    let mut windows: Vec<WindowRenderFrame> = Vec::new();
    let mut i: usize = 0;
    while i < handles.len()
        invariant
            i <= handles.len(),
            windows@.len() == i,
            from == optional_view(from_workspace),
            to == optional_view(to_workspace),
            handles@ == transition_handles(from, to),
            (movement.0 as int, movement.1 as int) == window_movement(
                from,
                to,
                (stack_delta.0 as int, stack_delta.1 as int),
            ),
            expected == moving_windows(
                from,
                to,
                (stack_delta.0 as int, stack_delta.1 as int),
                progress_milli as int,
            ),
            forall|j: int| 0 <= j < i ==> windows@[j] == expected[j],
        decreases handles.len() - i,
    {
        let hwnd: u64 = handles[i];
        proof {
            lemma_with_missing(window_handles(to), window_handles(from));
            assert(handles@.contains(hwnd));
            if window_handles(to).contains(hwnd) {
                lemma_handle_has_a_rect(to, hwnd);
            } else {
                lemma_handle_has_a_rect(from, hwnd);
            }
        }
        let rect: Rect = move_rect(
            find_window_rect(from_workspace, hwnd),
            find_window_rect(to_workspace, hwnd),
            movement,
            progress_milli,
        );
        windows.push(WindowRenderFrame { hwnd, rect });
        i = i + 1;
    }
    assert(windows@ =~= expected);
    windows
}

pub open spec fn optional_canvas(workspace: Option<PreviewView>) -> Option<Rect> {
    match workspace {
        Some(workspace) => Some(workspace.canvas_rect),
        None => None,
    }
}

pub open spec fn optional_frame(workspace: Option<PreviewView>) -> Option<Rect> {
    match workspace {
        Some(workspace) => Some(workspace.frame_rect),
        None => None,
    }
}

/// A workspace on its way from one scene to another.
pub open spec fn moving_workspace(
    from: SceneView,
    to: SceneView,
    id: WorkspaceId,
    progress_milli: int,
) -> WorkspaceFrameView {
    let movement = stack_movement(from, to);
    let before = preview_of(from, id);
    let after = preview_of(to, id);
    WorkspaceFrameView {
        workspace_id: id,
        canvas_rect: moving_rect(
            optional_canvas(before),
            optional_canvas(after),
            movement,
            progress_milli,
        ),
        viewport_rect: moving_rect(
            optional_frame(before),
            optional_frame(after),
            movement,
            progress_milli,
        ),
        windows: moving_windows(before, after, movement, progress_milli),
    }
}

/// One scene turning into another.
pub open spec fn transition_frame(
    from: SceneView,
    to: SceneView,
    progress_milli: int,
) -> FrameView {
    let ids = transition_ids(from, to);
    FrameView {
        monitor_rect: between_rects(from.monitor_rect, to.monitor_rect, progress_milli),
        workspaces: Seq::new(
            ids.len(),
            |i: int| moving_workspace(from, to, ids[i], progress_milli),
        ),
    }
}

proof fn lemma_id_has_a_preview(scene: SceneView, id: WorkspaceId)
    requires
        workspace_ids(scene.workspaces).contains(id),
    ensures
        preview_of(scene, id) is Some,
{
    let i = workspace_ids(scene.workspaces).index_of(id);
    assert(scene.workspaces[i].workspace_id == id);
    lemma_first_index_holds(
        scene.workspaces,
        |workspace: PreviewView| workspace.workspace_id == id,
    );
}

fn move_workspace(
    from_workspace: Option<&WorkspacePreviewScene>,
    to_workspace: Option<&WorkspacePreviewScene>,
    workspace_id: WorkspaceId,
    stack_delta: (i32, i32),
    progress_milli: u16,
) -> (r: WorkspaceRenderFrame)
    requires
        from_workspace is Some || to_workspace is Some,
    ensures
        ({
            let before = optional_view(from_workspace);
            let after = optional_view(to_workspace);
            let movement = (stack_delta.0 as int, stack_delta.1 as int);
            let p = progress_milli as int;
            r@ == (WorkspaceFrameView {
                workspace_id,
                canvas_rect: moving_rect(
                    optional_canvas(before),
                    optional_canvas(after),
                    movement,
                    p,
                ),
                viewport_rect: moving_rect(
                    optional_frame(before),
                    optional_frame(after),
                    movement,
                    p,
                ),
                windows: moving_windows(before, after, movement, p),
            })
        }),
{
    let from_canvas: Option<Rect> = match from_workspace {
        Some(workspace) => Some(workspace.canvas_rect),
        None => None,
    };
    let to_canvas: Option<Rect> = match to_workspace {
        Some(workspace) => Some(workspace.canvas_rect),
        None => None,
    };
    let from_viewport: Option<Rect> = match from_workspace {
        Some(workspace) => Some(workspace.frame_rect),
        None => None,
    };
    let to_viewport: Option<Rect> = match to_workspace {
        Some(workspace) => Some(workspace.frame_rect),
        None => None,
    };
    WorkspaceRenderFrame {
        workspace_id,
        canvas_rect: move_rect(from_canvas, to_canvas, stack_delta, progress_milli),
        viewport_rect: move_rect(from_viewport, to_viewport, stack_delta, progress_milli),
        windows: render_transition_window_frames(
            from_workspace,
            to_workspace,
            stack_delta,
            progress_milli,
        ),
    }
}

pub fn render_frame_for_transition(
    from_scene: &OverviewScene,
    to_scene: &OverviewScene,
    progress_milli: u16,
) -> (r: OverviewRenderFrame)
    ensures
        r@ == transition_frame(from_scene@, to_scene@, progress_milli as int),
{
    let ghost expected = transition_frame(from_scene@, to_scene@, progress_milli as int);
    let stack_delta: (i32, i32) = transition_stack_delta(from_scene, to_scene);
    let ids: Vec<WorkspaceId> = collect_transition_workspace_ids(from_scene, to_scene);
    let mut workspaces: Vec<WorkspaceRenderFrame> = Vec::new();
    let mut i: usize = 0;
    while i < ids.len()
        invariant
            i <= ids.len(),
            workspaces@.len() == i,
            ids@ == transition_ids(from_scene@, to_scene@),
            (stack_delta.0 as int, stack_delta.1 as int) == stack_movement(
                from_scene@,
                to_scene@,
            ),
            expected == transition_frame(from_scene@, to_scene@, progress_milli as int),
            forall|j: int| 0 <= j < i ==> (#[trigger] workspaces@[j])@ == expected.workspaces[j],
        decreases ids.len() - i,
    {
        let id: WorkspaceId = ids[i];
        let before: Option<&WorkspacePreviewScene> = find_preview(from_scene, id);
        let after: Option<&WorkspacePreviewScene> = find_preview(to_scene, id);
        proof {
            lemma_with_missing(
                workspace_ids(to_scene@.workspaces),
                workspace_ids(from_scene@.workspaces),
            );
            assert(ids@.contains(id));
            if workspace_ids(to_scene@.workspaces).contains(id) {
                lemma_id_has_a_preview(to_scene@, id);
            } else {
                lemma_id_has_a_preview(from_scene@, id);
            }
        }
        workspaces.push(move_workspace(before, after, id, stack_delta, progress_milli));
        i = i + 1;
    }
    let frame: OverviewRenderFrame = OverviewRenderFrame {
        monitor_rect: interpolate_rect(
            from_scene.monitor_rect,
            to_scene.monitor_rect,
            progress_milli,
        ),
        workspaces,
    };
    assert(frame@.workspaces =~= expected.workspaces);
    frame
}

/// A transition draws the workspaces of either scene, the second scene's first and in their
/// order, and none of them twice where the second scene repeats none.
pub proof fn law_transition_draws_each_workspace_once(
    from: SceneView,
    to: SceneView,
    id: WorkspaceId,
)
    requires
        workspace_ids(to.workspaces).no_duplicates(),
    ensures
        transition_ids(from, to).contains(id) <==> workspace_ids(to.workspaces).contains(id)
            || workspace_ids(from.workspaces).contains(id),
        transition_ids(from, to).no_duplicates(),
        transition_ids(from, to).take(to.workspaces.len() as int) == workspace_ids(to.workspaces),
{
    lemma_with_missing(workspace_ids(to.workspaces), workspace_ids(from.workspaces));
}

/// A transition starts with what the first scene shows of a workspace and its windows, and
/// ends with what the second one shows of them.
pub proof fn law_transition_joins_the_scenes(
    from: SceneView,
    to: SceneView,
    id: WorkspaceId,
    progress_milli: int,
)
    requires
        progress_milli >= 1000,
    ensures
        preview_of(from, id) matches Some(before) ==> {
            let start = moving_workspace(from, to, id, 0);
            &&& start.canvas_rect == before.canvas_rect
            &&& start.viewport_rect == before.frame_rect
            &&& forall|k: int|
                0 <= k < start.windows.len() && window_rect_in(
                    Some(before),
                    start.windows[k].hwnd,
                ) is Some ==> (#[trigger] start.windows[k]).rect == window_rect_in(
                    Some(before),
                    start.windows[k].hwnd,
                )->0
        },
        preview_of(to, id) matches Some(after) ==> {
            let end = moving_workspace(from, to, id, progress_milli);
            &&& end.canvas_rect == after.canvas_rect
            &&& end.viewport_rect == after.frame_rect
            &&& forall|k: int|
                0 <= k < end.windows.len() && window_rect_in(
                    Some(after),
                    end.windows[k].hwnd,
                ) is Some ==> (#[trigger] end.windows[k]).rect == window_rect_in(
                    Some(after),
                    end.windows[k].hwnd,
                )->0
        },
{
}

/// What a scene shows of a workspace is the first of its previews with that identifier.
pub proof fn law_previews_are_found_by_their_workspace(scene: SceneView, id: WorkspaceId, i: int)
    ensures
        match preview_of(scene, id) {
            Some(preview) => preview.workspace_id == id && scene.workspaces.contains(preview),
            None => forall|j: int|
                0 <= j < scene.workspaces.len() ==> (
                #[trigger] scene.workspaces[j]).workspace_id != id,
        },
        0 <= i < scene.workspaces.len() && scene.workspaces[i].workspace_id == id && (forall|j: int|
            0 <= j < i ==> (#[trigger] scene.workspaces[j]).workspace_id != id) ==> preview_of(
            scene,
            id,
        ) == Some(scene.workspaces[i]),
{
    let test = |workspace: PreviewView| workspace.workspace_id == id;
    lemma_first_index_holds(scene.workspaces, test);
    assert forall|j: int|
        0 <= j < scene.workspaces.len() && preview_of(scene, id) is None implies (
    #[trigger] scene.workspaces[j]).workspace_id != id by {
        assert(!test(scene.workspaces[j]));
    }
    if 0 <= i < scene.workspaces.len() && scene.workspaces[i].workspace_id == id && (forall|j: int|
        0 <= j < i ==> (#[trigger] scene.workspaces[j]).workspace_id != id) {
        lemma_first_index(scene.workspaces, test, i);
    }
}

/// A workspace that both scenes show goes straight from the one place to the other, as far as
/// the progress says, and so does each of its windows that both show.
pub proof fn law_common_previews_move_straight(
    from: SceneView,
    to: SceneView,
    id: WorkspaceId,
    progress_milli: int,
    k: int,
)
    requires
        preview_of(from, id) is Some,
        preview_of(to, id) is Some,
    ensures
        ({
            let before = preview_of(from, id)->0;
            let after = preview_of(to, id)->0;
            let moving = moving_workspace(from, to, id, progress_milli);
            &&& moving.workspace_id == id
            &&& moving.canvas_rect == between_rects(
                before.canvas_rect,
                after.canvas_rect,
                progress_milli,
            )
            &&& moving.viewport_rect == between_rects(
                before.frame_rect,
                after.frame_rect,
                progress_milli,
            )
            &&& 0 <= k < moving.windows.len() ==> {
                let window = moving.windows[k];
                window_rect_in(Some(before), window.hwnd) is Some && window_rect_in(
                    Some(after),
                    window.hwnd,
                ) is Some ==> window.rect == between_rects(
                    window_rect_in(Some(before), window.hwnd)->0,
                    window_rect_in(Some(after), window.hwnd)->0,
                    progress_milli,
                )
            }
        }),
{
}

/// The place of a window in a preview is that of the first window with its handle.
pub proof fn law_windows_are_found_by_their_handle(preview: PreviewView, hwnd: u64, i: int)
    ensures
        match window_rect_in(Some(preview), hwnd) {
            Some(rect) => exists|j: int|
                0 <= j < preview.windows.len() && (#[trigger] preview.windows[j]).hwnd == hwnd
                    && preview.windows[j].overview_rect == rect,
            None => forall|j: int|
                0 <= j < preview.windows.len() ==> (#[trigger] preview.windows[j]).hwnd != hwnd,
        },
        0 <= i < preview.windows.len() && preview.windows[i].hwnd == hwnd && (forall|j: int|
            0 <= j < i ==> (#[trigger] preview.windows[j]).hwnd != hwnd) ==> window_rect_in(
            Some(preview),
            hwnd,
        ) == Some(preview.windows[i].overview_rect),
{
    let test = |window: WindowPreviewScene| window.hwnd == hwnd;
    lemma_first_index_holds(preview.windows, test);
    assert forall|j: int|
        0 <= j < preview.windows.len() && window_of(preview.windows, hwnd) is None implies (
    #[trigger] preview.windows[j]).hwnd != hwnd by {
        assert(!test(preview.windows[j]));
    }
    if 0 <= i < preview.windows.len() && preview.windows[i].hwnd == hwnd && (forall|j: int|
        0 <= j < i ==> (#[trigger] preview.windows[j]).hwnd != hwnd) {
        lemma_first_index(preview.windows, test, i);
    }
}

/// A transition draws every window that either scene shows of a workspace, those of the second
/// scene first and in their order.
pub proof fn law_transition_draws_every_window(
    from: SceneView,
    to: SceneView,
    id: WorkspaceId,
    progress_milli: int,
    hwnd: u64,
)
    ensures
        ({
            let before = preview_of(from, id);
            let after = preview_of(to, id);
            let windows = moving_workspace(from, to, id, progress_milli).windows;
            &&& (exists|k: int|
                0 <= k < windows.len() && (#[trigger] windows[k]).hwnd == hwnd) <==> (
            before matches Some(preview) && exists|j: int|
                0 <= j < preview.windows.len() && (#[trigger] preview.windows[j]).hwnd == hwnd) || (
            after matches Some(preview) && exists|j: int|
                0 <= j < preview.windows.len() && (#[trigger] preview.windows[j]).hwnd == hwnd)
            &&& after matches Some(preview) ==> windows.len() >= preview.windows.len() && (forall|
                k: int,
            |
                0 <= k < preview.windows.len() ==> (#[trigger] windows[k]).hwnd
                    == preview.windows[k].hwnd)
        }),
{
    let before = preview_of(from, id);
    let after = preview_of(to, id);
    let windows = moving_workspace(from, to, id, progress_milli).windows;
    let old_handles = window_handles(before);
    let new_handles = window_handles(after);
    let handles = transition_handles(before, after);
    lemma_with_missing(new_handles, old_handles);
    assert(handles.contains(hwnd) <==> new_handles.contains(hwnd) || old_handles.contains(hwnd));
    if handles.contains(hwnd) {
        let k = choose|k: int| 0 <= k < handles.len() && handles[k] == hwnd;
        assert(windows[k].hwnd == hwnd);
    }
    if exists|k: int| 0 <= k < windows.len() && (#[trigger] windows[k]).hwnd == hwnd {
        let k = choose|k: int| 0 <= k < windows.len() && (#[trigger] windows[k]).hwnd == hwnd;
        assert(handles[k] == hwnd);
    }
    if before is Some {
        let preview = before->0;
        if old_handles.contains(hwnd) {
            let j = choose|j: int| 0 <= j < old_handles.len() && old_handles[j] == hwnd;
            assert(preview.windows[j].hwnd == hwnd);
        }
        if exists|j: int|
            0 <= j < preview.windows.len() && (#[trigger] preview.windows[j]).hwnd == hwnd {
            let j = choose|j: int|
                0 <= j < preview.windows.len() && (#[trigger] preview.windows[j]).hwnd == hwnd;
            assert(old_handles[j] == hwnd);
        }
    }
    if after is Some {
        let preview = after->0;
        if new_handles.contains(hwnd) {
            let j = choose|j: int| 0 <= j < new_handles.len() && new_handles[j] == hwnd;
            assert(preview.windows[j].hwnd == hwnd);
        }
        if exists|j: int|
            0 <= j < preview.windows.len() && (#[trigger] preview.windows[j]).hwnd == hwnd {
            let j = choose|j: int|
                0 <= j < preview.windows.len() && (#[trigger] preview.windows[j]).hwnd == hwnd;
            assert(new_handles[j] == hwnd);
        }
        assert forall|k: int| 0 <= k < preview.windows.len() implies (#[trigger] windows[k]).hwnd
            == preview.windows[k].hwnd by {
            assert(handles.take(new_handles.len() as int)[k] == new_handles[k]);
        }
    }
}

/// What only one of two scenes shows moves along with what both show: a preview that is new
/// comes from as far before its place as the first common preview has moved, and one that goes
/// ends as far behind its place. Without a common preview they stay.
pub proof fn law_other_previews_move_along(
    from: SceneView,
    to: SceneView,
    id: WorkspaceId,
    c: int,
    progress_milli: int,
)
    requires
        0 <= c < to.workspaces.len(),
        preview_of(from, to.workspaces[c].workspace_id) is Some,
        forall|j: int|
            0 <= j < c ==> preview_of(from, (#[trigger] to.workspaces[j]).workspace_id) is None,
        progress_milli >= 1000,
        ({
            let dx = to.workspaces[c].frame_rect.x - (preview_of(
                from,
                to.workspaces[c].workspace_id,
            )->0).frame_rect.x;
            let dy = to.workspaces[c].frame_rect.y - (preview_of(
                from,
                to.workspaces[c].workspace_id,
            )->0).frame_rect.y;
            &&& -0x1000_0000 <= dx <= 0x1000_0000 && -0x1000_0000 <= dy <= 0x1000_0000
            &&& preview_of(to, id) matches Some(after) ==> -0x1000_0000 <= after.frame_rect.x
                <= 0x1000_0000 && -0x1000_0000 <= after.frame_rect.y <= 0x1000_0000
            &&& preview_of(from, id) matches Some(before) ==> -0x1000_0000 <= before.frame_rect.x
                <= 0x1000_0000 && -0x1000_0000 <= before.frame_rect.y <= 0x1000_0000
        }),
    ensures
        ({
            let earlier = preview_of(from, to.workspaces[c].workspace_id)->0;
            let dx = to.workspaces[c].frame_rect.x - earlier.frame_rect.x;
            let dy = to.workspaces[c].frame_rect.y - earlier.frame_rect.y;
            &&& preview_of(from, id) is None ==> (preview_of(to, id) matches Some(after) ==> {
                let start = moving_workspace(from, to, id, 0).viewport_rect;
                let end = moving_workspace(from, to, id, progress_milli).viewport_rect;
                &&& start.x + dx == after.frame_rect.x && start.y + dy == after.frame_rect.y
                &&& start.width == after.frame_rect.width && start.height
                    == after.frame_rect.height
                &&& end == after.frame_rect
            })
            &&& preview_of(to, id) is None ==> (preview_of(from, id) matches Some(before) ==> {
                let start = moving_workspace(from, to, id, 0).viewport_rect;
                let end = moving_workspace(from, to, id, progress_milli).viewport_rect;
                &&& start == before.frame_rect
                &&& end.x == before.frame_rect.x + dx && end.y == before.frame_rect.y + dy
                &&& end.width == before.frame_rect.width && end.height == before.frame_rect.height
            })
        }),
{
    let test = |workspace: PreviewView| preview_of(from, workspace.workspace_id) is Some;
    assert forall|j: int| 0 <= j < c implies !test(#[trigger] to.workspaces[j]) by {}
    lemma_first_index(to.workspaces, test, c);
}

/// Without a preview that both scenes show, previews neither move in nor out.
pub proof fn law_nothing_common_nothing_moves(
    from: SceneView,
    to: SceneView,
    id: WorkspaceId,
    progress_milli: int,
)
    requires
        forall|j: int|
            0 <= j < to.workspaces.len() ==> preview_of(
                from,
                (#[trigger] to.workspaces[j]).workspace_id,
            ) is None,
        preview_of(from, id) is Some || preview_of(to, id) is Some,
    ensures
        ({
            let moving = moving_workspace(from, to, id, progress_milli).viewport_rect;
            &&& preview_of(from, id) is None ==> moving == between_rects(
                (preview_of(to, id)->0).frame_rect,
                (preview_of(to, id)->0).frame_rect,
                progress_milli,
            )
            &&& preview_of(to, id) is None ==> moving == between_rects(
                (preview_of(from, id)->0).frame_rect,
                (preview_of(from, id)->0).frame_rect,
                progress_milli,
            )
        }),
{
    let test = |workspace: PreviewView| preview_of(from, workspace.workspace_id) is Some;
    assert forall|j: int| 0 <= j < to.workspaces.len() implies !test(#[trigger] to.workspaces[j]) by {}
    lemma_first_index(to.workspaces, test, to.workspaces.len() as int);
}

/// A window that only one of the scenes shows moves along with the first window of its
/// workspace that both show.
pub proof fn law_other_windows_move_along(
    before: PreviewView,
    after: PreviewView,
    stack: (int, int),
    c: int,
    k: int,
    progress_milli: int,
)
    requires
        0 <= c < after.windows.len(),
        window_of(before.windows, after.windows[c].hwnd) is Some,
        forall|j: int|
            0 <= j < c ==> window_of(before.windows, (#[trigger] after.windows[j]).hwnd) is None,
        progress_milli >= 1000,
        ({
            let earlier = (window_of(before.windows, after.windows[c].hwnd)->0).overview_rect;
            let dx = after.windows[c].overview_rect.x - earlier.x;
            let dy = after.windows[c].overview_rect.y - earlier.y;
            -0x1000_0000 <= dx <= 0x1000_0000 && -0x1000_0000 <= dy <= 0x1000_0000
        }),
        0 <= k < moving_windows(Some(before), Some(after), stack, 0).len(),
    ensures
        ({
            let earlier = (window_of(before.windows, after.windows[c].hwnd)->0).overview_rect;
            let dx = after.windows[c].overview_rect.x - earlier.x;
            let dy = after.windows[c].overview_rect.y - earlier.y;
            let start = moving_windows(Some(before), Some(after), stack, 0)[k];
            let end = moving_windows(Some(before), Some(after), stack, progress_milli)[k];
            let old = window_rect_in(Some(before), start.hwnd);
            let new = window_rect_in(Some(after), start.hwnd);
            &&& start.hwnd == end.hwnd
            &&& old is None ==> (new matches Some(place) ==> (-0x1000_0000 <= place.x <= 0x1000_0000
                && -0x1000_0000 <= place.y <= 0x1000_0000 ==> {
                &&& start.rect.x + dx == place.x && start.rect.y + dy == place.y
                &&& end.rect == place
            }))
            &&& new is None ==> (old matches Some(place) ==> (-0x1000_0000 <= place.x <= 0x1000_0000
                && -0x1000_0000 <= place.y <= 0x1000_0000 ==> {
                &&& start.rect == place
                &&& end.rect.x == place.x + dx && end.rect.y == place.y + dy
            }))
        }),
{
    let test = |window: WindowPreviewScene| window_of(before.windows, window.hwnd) is Some;
    assert forall|j: int| 0 <= j < c implies !test(#[trigger] after.windows[j]) by {}
    lemma_first_index(after.windows, test, c);
}

/// The workspaces of a transition are drawn in the order of its identifiers, on a monitor that
/// turns from the one into the other.
pub proof fn law_transition_draws_the_workspaces(
    from: SceneView,
    to: SceneView,
    progress_milli: int,
    i: int,
)
    requires
        0 <= i < transition_ids(from, to).len(),
    ensures
        ({
            let frame = transition_frame(from, to, progress_milli);
            &&& frame.workspaces.len() == transition_ids(from, to).len()
            &&& frame.workspaces[i].workspace_id == transition_ids(from, to)[i]
            &&& frame.workspaces[i] == moving_workspace(
                from,
                to,
                transition_ids(from, to)[i],
                progress_milli,
            )
            &&& frame.monitor_rect == between_rects(
                from.monitor_rect,
                to.monitor_rect,
                progress_milli,
            )
        }),
{
}

/// Where no window is common to both scenes, the windows of a workspace move as its preview
/// does; and as the column does where only one of the scenes shows the workspace.
pub proof fn law_windows_move_with_their_preview(
    before: PreviewView,
    after: PreviewView,
    stack: (int, int),
)
    requires
        forall|j: int|
            0 <= j < after.windows.len() ==> window_of(
                before.windows,
                (#[trigger] after.windows[j]).hwnd,
            ) is None,
        -0x1000_0000 <= before.frame_rect.x <= 0x1000_0000,
        -0x1000_0000 <= before.frame_rect.y <= 0x1000_0000,
        -0x1000_0000 <= after.frame_rect.x <= 0x1000_0000,
        -0x1000_0000 <= after.frame_rect.y <= 0x1000_0000,
    ensures
        window_movement(Some(before), Some(after), stack) == (
            after.frame_rect.x - before.frame_rect.x,
            after.frame_rect.y - before.frame_rect.y,
        ),
        window_movement(Some(before), None, stack) == stack,
        window_movement(None, Some(after), stack) == stack,
        window_movement(None, None, stack) == stack,
{
    let test = |window: WindowPreviewScene| window_of(before.windows, window.hwnd) is Some;
    assert forall|j: int| 0 <= j < after.windows.len() implies !test(#[trigger] after.windows[j]) by {}
    lemma_first_index(after.windows, test, after.windows.len() as int);
}

} // verus!
