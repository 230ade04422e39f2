//! A scene at a moment of an animation.

use crate::arith::{extent_to_i32, saturating_sub_i32};
use crate::geometry::{interpolate_rect, Rect};
use crate::ids::WorkspaceId;
use crate::overview_engine::scene::{OverviewScene, WindowPreviewScene, WorkspacePreviewScene};
use crate::overview_engine::stack::{
    build_preview_stack_layout_with_zoom, scale_rect_between_rects, workspace_preview_frame_rect,
    PreviewStackLayout, PreviewZoom,
};
use vstd::prelude::*;

verus! {

use crate::arith::{clamp_i32, clamp_int};
use crate::geometry::between_rects;
use crate::overview_engine::scene::{PreviewView, SceneView};
use crate::overview_engine::stack::{
    carried_saturating, live_rect, preview_frame_rect, stack_layout,
};

#[derive(Clone, Copy, Debug, PartialEq, Eq, Structural)]
pub struct WindowRenderFrame {
    pub hwnd: u64,
    pub rect: Rect,
}

#[derive(Clone, Debug, PartialEq, Eq)]
pub struct WorkspaceRenderFrame {
    pub workspace_id: WorkspaceId,
    pub canvas_rect: Rect,
    pub viewport_rect: Rect,
    pub windows: Vec<WindowRenderFrame>,
}

/// What is drawn at one moment.
#[derive(Clone, Debug, PartialEq, Eq)]
pub struct OverviewRenderFrame {
    pub monitor_rect: Rect,
    pub workspaces: Vec<WorkspaceRenderFrame>,
}

pub ghost struct WorkspaceFrameView {
    pub workspace_id: WorkspaceId,
    pub canvas_rect: Rect,
    pub viewport_rect: Rect,
    pub windows: Seq<WindowRenderFrame>,
}

pub ghost struct FrameView {
    pub monitor_rect: Rect,
    pub workspaces: Seq<WorkspaceFrameView>,
}

impl View for WorkspaceRenderFrame {
    type V = WorkspaceFrameView;

    open spec fn view(&self) -> WorkspaceFrameView {
        WorkspaceFrameView {
            workspace_id: self.workspace_id,
            canvas_rect: self.canvas_rect,
            viewport_rect: self.viewport_rect,
            windows: self.windows@,
        }
    }
}

pub open spec fn workspace_frames_view(workspaces: Seq<WorkspaceRenderFrame>) -> Seq<
    WorkspaceFrameView,
> {
    workspaces.map_values(|workspace: WorkspaceRenderFrame| workspace@)
}

impl View for OverviewRenderFrame {
    type V = FrameView;

    open spec fn view(&self) -> FrameView {
        FrameView {
            monitor_rect: self.monitor_rect,
            workspaces: workspace_frames_view(self.workspaces@),
        }
    }
}

/// Which moment of a scene is drawn.
#[derive(Clone, Copy, Debug, PartialEq, Eq, Structural)]
pub enum SceneFrameMode {
    Final,
    Opening { progress_milli: u16 },
    Closing { progress_milli: u16 },
}

/// Where the previews come from when the overview opens and go to when it closes.
#[derive(Clone, Copy, Debug, PartialEq, Eq, Structural)]
pub enum PreviewOrigin {
    /// Each from where its workspace lives.
    Live,
    /// All from a column of larger previews.
    ZoomedStack,
}

/// How many monitor heights below the monitor a workspace lives.
pub open spec fn stack_offset(live_y: int, monitor_rect: Rect) -> int {
    clamp_i32(live_y - monitor_rect.y) / clamp_int(monitor_rect.height as int, 1, i32::MAX as int)
}

/// `n / d` rounded down.
fn div_down(n: i64, d: i64) -> (r: i64)
    requires
        -0x1_0000_0000 <= n <= 0x1_0000_0000,
        0 < d <= 0x1_0000_0000,
    ensures
        r == n as int / d as int,
{
    if n >= 0 {
        n / d
    } else {
        let q: i64 = (d - 1 - n) / d;
        assert(n as int / d as int == -((d - 1 - n) as int / d as int)) by (nonlinear_arith)
            requires
                d > 0,
                n < 0,
        ;
        assert(0 <= (d - 1 - n) as int / d as int <= d - 1 - n) by (nonlinear_arith)
            requires
                d > 0,
                n < 0,
        ;
        -q
    }
}

pub fn workspace_stack_offset(workspace: &WorkspacePreviewScene, monitor_rect: Rect) -> (r: i64)
    ensures
        r == stack_offset(workspace.live_rect.y as int, monitor_rect),
{
    let height: i32 = extent_to_i32(monitor_rect.height);
    let height: i64 = if height < 1 {
        1
    } else {
        height as i64
    };
    div_down(saturating_sub_i32(workspace.live_rect.y, monitor_rect.y) as i64, height)
}

/// Where a preview comes from and goes to.
pub open spec fn source_rect(
    workspace_live_rect: Rect,
    monitor_rect: Rect,
    origin: PreviewOrigin,
) -> Rect {
    match origin {
        PreviewOrigin::Live => workspace_live_rect,
        PreviewOrigin::ZoomedStack => preview_frame_rect(
            monitor_rect,
            stack_layout(monitor_rect, PreviewZoom::OpenCloseSource),
            stack_offset(workspace_live_rect.y as int, monitor_rect),
        ),
    }
}

pub fn workspace_open_close_source_rect(
    workspace: &WorkspacePreviewScene,
    monitor_rect: Rect,
    origin: PreviewOrigin,
) -> (r: Rect)
    ensures
        r == source_rect(workspace.live_rect, monitor_rect, origin),
{
    match origin {
        PreviewOrigin::Live => workspace.live_rect,
        PreviewOrigin::ZoomedStack => {
            let layout: PreviewStackLayout = build_preview_stack_layout_with_zoom(
                monitor_rect,
                PreviewZoom::OpenCloseSource,
            );
            workspace_preview_frame_rect(
                monitor_rect,
                layout,
                workspace_stack_offset(workspace, monitor_rect) as i128,
            )
        },
    }
}

/// A rectangle on its way between its source and where the overview shows it.
pub open spec fn at_moment(shown: Rect, source: Rect, mode: SceneFrameMode) -> Rect {
    match mode {
        SceneFrameMode::Final => shown,
        SceneFrameMode::Opening { progress_milli } => between_rects(
            source,
            shown,
            progress_milli as int,
        ),
        SceneFrameMode::Closing { progress_milli } => between_rects(
            shown,
            source,
            progress_milli as int,
        ),
    }
}

fn rect_at_moment(shown: Rect, source: Rect, mode: SceneFrameMode) -> (r: Rect)
    ensures
        r == at_moment(shown, source, mode),
{
    match mode {
        SceneFrameMode::Final => shown,
        SceneFrameMode::Opening { progress_milli } => interpolate_rect(
            source,
            shown,
            progress_milli,
        ),
        SceneFrameMode::Closing { progress_milli } => interpolate_rect(
            shown,
            source,
            progress_milli,
        ),
    }
}

pub fn workspace_canvas_rect(
    workspace: &WorkspacePreviewScene,
    monitor_rect: Rect,
    mode: SceneFrameMode,
    origin: PreviewOrigin,
) -> (r: Rect)
    ensures
        r == at_moment(
            workspace.canvas_rect,
            source_rect(workspace.live_rect, monitor_rect, origin),
            mode,
        ),
{
    let source: Rect = workspace_open_close_source_rect(workspace, monitor_rect, origin);
    rect_at_moment(workspace.canvas_rect, source, mode)
}

pub fn workspace_viewport_rect(
    workspace: &WorkspacePreviewScene,
    monitor_rect: Rect,
    mode: SceneFrameMode,
    origin: PreviewOrigin,
) -> (r: Rect)
    ensures
        r == at_moment(
            workspace.frame_rect,
            source_rect(workspace.live_rect, monitor_rect, origin),
            mode,
        ),
{
    let source: Rect = workspace_open_close_source_rect(workspace, monitor_rect, origin);
    rect_at_moment(workspace.frame_rect, source, mode)
}

/// Where a window of a preview comes from and goes to: where it lives, or the same place
/// within the preview's own source.
pub open spec fn window_source_rect(
    window: WindowPreviewScene,
    workspace_live_rect: Rect,
    monitor_rect: Rect,
    origin: PreviewOrigin,
) -> Rect {
    match origin {
        PreviewOrigin::Live => window.live_rect,
        PreviewOrigin::ZoomedStack => carried_saturating(
            window.live_rect,
            workspace_live_rect,
            source_rect(workspace_live_rect, monitor_rect, origin),
        ),
    }
}

pub fn window_rect_for_mode(
    window: WindowPreviewScene,
    workspace: &WorkspacePreviewScene,
    monitor_rect: Rect,
    mode: SceneFrameMode,
    origin: PreviewOrigin,
) -> (r: Rect)
    ensures
        r == at_moment(
            window.overview_rect,
            window_source_rect(window, workspace.live_rect, monitor_rect, origin),
            mode,
        ),
{
    let source: Rect = match origin {
        PreviewOrigin::Live => window.live_rect,
        PreviewOrigin::ZoomedStack => scale_rect_between_rects(
            window.live_rect,
            workspace.live_rect,
            workspace_open_close_source_rect(workspace, monitor_rect, origin),
        ),
    };
    rect_at_moment(window.overview_rect, source, mode)
}

/// A preview as it is drawn at a moment.
pub open spec fn preview_frame(
    workspace: PreviewView,
    monitor_rect: Rect,
    mode: SceneFrameMode,
    origin: PreviewOrigin,
) -> WorkspaceFrameView {
    let source = source_rect(workspace.live_rect, monitor_rect, origin);
    WorkspaceFrameView {
        workspace_id: workspace.workspace_id,
        canvas_rect: at_moment(workspace.canvas_rect, source, mode),
        viewport_rect: at_moment(workspace.frame_rect, source, mode),
        windows: Seq::new(
            workspace.windows.len(),
            |i: int|
                WindowRenderFrame {
                    hwnd: workspace.windows[i].hwnd,
                    rect: at_moment(
                        workspace.windows[i].overview_rect,
                        window_source_rect(
                            workspace.windows[i],
                            workspace.live_rect,
                            monitor_rect,
                            origin,
                        ),
                        mode,
                    ),
                },
        ),
    }
}

/// A scene as it is drawn at a moment.
pub open spec fn scene_frame(
    scene: SceneView,
    mode: SceneFrameMode,
    origin: PreviewOrigin,
) -> FrameView {
    FrameView {
        monitor_rect: scene.monitor_rect,
        workspaces: Seq::new(
            scene.workspaces.len(),
            |i: int| preview_frame(scene.workspaces[i], scene.monitor_rect, mode, origin),
        ),
    }
}

fn render_preview(
    workspace: &WorkspacePreviewScene,
    monitor_rect: Rect,
    mode: SceneFrameMode,
    origin: PreviewOrigin,
) -> (r: WorkspaceRenderFrame)
    ensures
        r@ == preview_frame(workspace@, monitor_rect, mode, origin),
{
    let ghost expected = preview_frame(workspace@, monitor_rect, mode, origin);
    let mut windows: Vec<WindowRenderFrame> = Vec::new();
    let mut i: usize = 0;
    while i < workspace.windows.len()
        invariant
            i <= workspace.windows.len(),
            windows@.len() == i,
            expected == preview_frame(workspace@, monitor_rect, mode, origin),
            forall|j: int| 0 <= j < i ==> windows@[j] == expected.windows[j],
        decreases workspace.windows.len() - i,
    {
        let window: WindowPreviewScene = workspace.windows[i];
        windows.push(
            WindowRenderFrame {
                hwnd: window.hwnd,
                rect: window_rect_for_mode(window, workspace, monitor_rect, mode, origin),
            },
        );
        i = i + 1;
    }
    assert(windows@ =~= expected.windows);
    WorkspaceRenderFrame {
        workspace_id: workspace.workspace_id,
        canvas_rect: workspace_canvas_rect(workspace, monitor_rect, mode, origin),
        viewport_rect: workspace_viewport_rect(workspace, monitor_rect, mode, origin),
        windows,
    }
}

pub fn render_frame_for_scene(
    scene: &OverviewScene,
    mode: SceneFrameMode,
    origin: PreviewOrigin,
) -> (r: OverviewRenderFrame)
    ensures
        r@ == scene_frame(scene@, mode, origin),
{
    let ghost expected = scene_frame(scene@, mode, origin);
    let mut workspaces: Vec<WorkspaceRenderFrame> = Vec::new();
    let mut i: usize = 0;
    while i < scene.workspaces.len()
        invariant
            i <= scene.workspaces.len(),
            workspaces@.len() == i,
            expected == scene_frame(scene@, mode, origin),
            forall|j: int| 0 <= j < i ==> (#[trigger] workspaces@[j])@ == expected.workspaces[j],
        decreases scene.workspaces.len() - i,
    {
        let drawn: WorkspaceRenderFrame = render_preview(
            &scene.workspaces[i],
            scene.monitor_rect,
            mode,
            origin,
        );
        assert(scene@.workspaces[i as int] == scene.workspaces@[i as int]@);
        workspaces.push(drawn);
        i = i + 1;
    }
    let frame: OverviewRenderFrame = OverviewRenderFrame {
        monitor_rect: scene.monitor_rect,
        workspaces,
    };
    assert(frame@.workspaces =~= expected.workspaces);
    frame
}

/// An opening overview ends, and a closing one starts, with the overview as it stands open.
pub proof fn law_opening_ends_and_closing_starts_open(
    scene: SceneView,
    origin: PreviewOrigin,
    progress_milli: u16,
)
    requires
        progress_milli >= 1000,
    ensures
        scene_frame(scene, SceneFrameMode::Opening { progress_milli }, origin) == scene_frame(
            scene,
            SceneFrameMode::Final,
            origin,
        ),
        scene_frame(scene, SceneFrameMode::Closing { progress_milli: 0 }, origin) == scene_frame(
            scene,
            SceneFrameMode::Final,
            origin,
        ),
        scene_frame(scene, SceneFrameMode::Opening { progress_milli: 0 }, origin) == scene_frame(
            scene,
            SceneFrameMode::Closing { progress_milli },
            origin,
        ),
{
    let open = scene_frame(scene, SceneFrameMode::Final, origin);
    let opened = scene_frame(scene, SceneFrameMode::Opening { progress_milli }, origin);
    let closing = scene_frame(scene, SceneFrameMode::Closing { progress_milli: 0 }, origin);
    let opening = scene_frame(scene, SceneFrameMode::Opening { progress_milli: 0 }, origin);
    let closed = scene_frame(scene, SceneFrameMode::Closing { progress_milli }, origin);
    assert forall|i: int| 0 <= i < scene.workspaces.len() implies {
        &&& #[trigger] opened.workspaces[i] == open.workspaces[i]
        &&& closing.workspaces[i] == open.workspaces[i]
    } by {
        assert(opened.workspaces[i].windows =~= open.workspaces[i].windows);
        assert(closing.workspaces[i].windows =~= open.workspaces[i].windows);
    }
    assert forall|i: int| 0 <= i < scene.workspaces.len() implies
        #[trigger] opening.workspaces[i] == closed.workspaces[i] by {
        assert(opening.workspaces[i].windows =~= closed.workspaces[i].windows);
    }
    assert(opened.workspaces =~= open.workspaces);
    assert(closing.workspaces =~= open.workspaces);
    assert(opening.workspaces =~= closed.workspaces);
}

/// An overview that opens from the live windows starts with every window where it lives.
pub proof fn law_opening_starts_from_the_live_windows(scene: SceneView, i: int, k: int)
    requires
        0 <= i < scene.workspaces.len(),
        0 <= k < scene.workspaces[i].windows.len(),
    ensures
        scene_frame(
            scene,
            SceneFrameMode::Opening { progress_milli: 0 },
            PreviewOrigin::Live,
        ).workspaces[i].windows[k] == (WindowRenderFrame {
            hwnd: scene.workspaces[i].windows[k].hwnd,
            rect: scene.workspaces[i].windows[k].live_rect,
        }),
{
}

/// The open overview is drawn as its scene says: the same workspaces and windows in the same
/// order, each preview in its frame and each window in its place.
pub proof fn law_the_open_overview_shows_its_scene(
    scene: SceneView,
    origin: PreviewOrigin,
    i: int,
    k: int,
)
    requires
        0 <= i < scene.workspaces.len(),
    ensures
        ({
            let frame = scene_frame(scene, SceneFrameMode::Final, origin);
            let drawn = frame.workspaces[i];
            let preview = scene.workspaces[i];
            &&& frame.monitor_rect == scene.monitor_rect
            &&& frame.workspaces.len() == scene.workspaces.len()
            &&& drawn.workspace_id == preview.workspace_id
            &&& drawn.canvas_rect == preview.canvas_rect
            &&& drawn.viewport_rect == preview.frame_rect
            &&& drawn.windows.len() == preview.windows.len()
            &&& 0 <= k < preview.windows.len() ==> drawn.windows[k].hwnd
                == preview.windows[k].hwnd && drawn.windows[k].rect
                == preview.windows[k].overview_rect
        }),
{
}

/// While the overview opens, previews and windows are on their way from where they live to
/// where the overview shows them; while it closes they go the other way, as far as the progress
/// says. What is drawn stays the same.
pub proof fn law_opening_and_closing_are_opposite_ways(
    scene: SceneView,
    progress_milli: u16,
    i: int,
    k: int,
)
    requires
        0 <= i < scene.workspaces.len(),
    ensures
        ({
            let opening = scene_frame(
                scene,
                SceneFrameMode::Opening { progress_milli },
                PreviewOrigin::Live,
            );
            let closing = scene_frame(
                scene,
                SceneFrameMode::Closing { progress_milli },
                PreviewOrigin::Live,
            );
            let preview = scene.workspaces[i];
            let p = progress_milli as int;
            let coming = opening.workspaces[i];
            let going = closing.workspaces[i];
            &&& opening.monitor_rect == scene.monitor_rect && closing.monitor_rect
                == scene.monitor_rect
            &&& opening.workspaces.len() == scene.workspaces.len() && closing.workspaces.len()
                == scene.workspaces.len()
            &&& coming.workspace_id == preview.workspace_id && going.workspace_id
                == preview.workspace_id
            &&& coming.viewport_rect == between_rects(preview.live_rect, preview.frame_rect, p)
            &&& coming.canvas_rect == between_rects(preview.live_rect, preview.canvas_rect, p)
            &&& going.viewport_rect == between_rects(preview.frame_rect, preview.live_rect, p)
            &&& going.canvas_rect == between_rects(preview.canvas_rect, preview.live_rect, p)
            &&& coming.windows.len() == preview.windows.len() && going.windows.len()
                == preview.windows.len()
            &&& 0 <= k < preview.windows.len() ==> {
                let window = preview.windows[k];
                &&& coming.windows[k].hwnd == window.hwnd && going.windows[k].hwnd == window.hwnd
                &&& coming.windows[k].rect == between_rects(
                    window.live_rect,
                    window.overview_rect,
                    p,
                )
                &&& going.windows[k].rect == between_rects(
                    window.overview_rect,
                    window.live_rect,
                    p,
                )
            }
        }),
{
}

/// A workspace that lives so many monitor heights below the monitor comes from the place that
/// is so many places below the active one among the larger previews, and its windows come from
/// the same place within that preview.
pub proof fn law_zoomed_previews_come_from_their_place(
    monitor_rect: Rect,
    offset: int,
    window: WindowPreviewScene,
)
    requires
        0 < monitor_rect.height <= 0x100_0000,
        -0x100_0000 <= monitor_rect.y <= 0x100_0000,
        -0x10 <= offset <= 0x10,
    ensures
        ({
            let home = live_rect(monitor_rect, offset);
            let source = source_rect(home, monitor_rect, PreviewOrigin::ZoomedStack);
            &&& stack_offset(home.y as int, monitor_rect) == offset
            &&& source == preview_frame_rect(
                monitor_rect,
                stack_layout(monitor_rect, PreviewZoom::OpenCloseSource),
                offset,
            )
            &&& window_source_rect(window, home, monitor_rect, PreviewOrigin::ZoomedStack)
                == carried_saturating(window.live_rect, home, source)
            &&& source_rect(home, monitor_rect, PreviewOrigin::Live) == home
            &&& window_source_rect(window, home, monitor_rect, PreviewOrigin::Live)
                == window.live_rect
        }),
{
    let height = monitor_rect.height as int;
    assert(offset * height <= 0x10 * 0x100_0000 && offset * height >= -0x10 * 0x100_0000)
        by (nonlinear_arith)
        requires
            0 <= height <= 0x100_0000,
            -0x10 <= offset <= 0x10,
    ;
    assert((offset * height) / height == offset) by (nonlinear_arith)
        requires
            height > 0,
    ;
}

/// At the progress of the animation a preview of the zoomed column is between its source and its
/// place, in either direction.
pub proof fn law_zoomed_previews_are_on_their_way(
    scene: SceneView,
    progress_milli: u16,
    i: int,
    k: int,
)
    requires
        0 <= i < scene.workspaces.len(),
    ensures
        ({
            let origin = PreviewOrigin::ZoomedStack;
            let preview = scene.workspaces[i];
            let source = source_rect(preview.live_rect, scene.monitor_rect, origin);
            let p = progress_milli as int;
            let coming = scene_frame(
                scene,
                SceneFrameMode::Opening { progress_milli },
                origin,
            ).workspaces[i];
            let going = scene_frame(
                scene,
                SceneFrameMode::Closing { progress_milli },
                origin,
            ).workspaces[i];
            &&& coming.workspace_id == preview.workspace_id && going.workspace_id
                == preview.workspace_id
            &&& coming.viewport_rect == between_rects(source, preview.frame_rect, p)
            &&& coming.canvas_rect == between_rects(source, preview.canvas_rect, p)
            &&& going.viewport_rect == between_rects(preview.frame_rect, source, p)
            &&& going.canvas_rect == between_rects(preview.canvas_rect, source, p)
            &&& coming.windows.len() == preview.windows.len() && going.windows.len()
                == preview.windows.len()
            &&& 0 <= k < preview.windows.len() ==> {
                let window = preview.windows[k];
                let home = carried_saturating(window.live_rect, preview.live_rect, source);
                &&& coming.windows[k].hwnd == window.hwnd && going.windows[k].hwnd == window.hwnd
                &&& coming.windows[k].rect == between_rects(home, window.overview_rect, p)
                &&& going.windows[k].rect == between_rects(window.overview_rect, home, p)
            }
        }),
{
}

} // verus!
