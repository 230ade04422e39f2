//! What the overview shows.

use crate::geometry::{rects_intersect, translate_rect_between_origins, Rect};
use crate::ids::{MonitorId, WorkspaceId};
use crate::overview_engine::stack::{
    build_preview_stack_layout, scale_rect_between_rects, scale_rect_to_overview,
    workspace_live_rect, workspace_preview_canvas_rect, workspace_preview_frame_rect,
    PreviewStackLayout,
};
use crate::wm_state::{
    recompute_workspace, LayoutError, Monitor, WindowGeometryProjection, WindowLayer, WmState,
    WorkspaceLayout, WorkspaceLayoutProjection, WorkspaceSet,
};
use vstd::prelude::*;

verus! {

use crate::geometry::{moved_between_origins, overlap};
use crate::overview_engine::stack::{
    canvas_rect, carried, carried_saturating, live_rect, preview_frame_rect, stack_layout,
    PreviewZoom,
};
use crate::wm_state::{first_index, first_where, layout_of, lemma_first_index};

/// A window of a preview: where it lives and where the overview shows it.
#[derive(Clone, Copy, Debug, PartialEq, Eq, Structural)]
pub struct WindowPreviewScene {
    pub hwnd: u64,
    pub live_rect: Rect,
    pub overview_rect: Rect,
}

/// The preview of a workspace.
#[derive(Clone, Debug, PartialEq, Eq)]
pub struct WorkspacePreviewScene {
    pub workspace_id: WorkspaceId,
    pub live_rect: Rect,
    pub canvas_rect: Rect,
    pub frame_rect: Rect,
    pub selected: bool,
    pub windows: Vec<WindowPreviewScene>,
}

/// Everything that the overview shows.
#[derive(Clone, Debug, PartialEq, Eq)]
pub struct OverviewScene {
    pub monitor_rect: Rect,
    pub workspaces: Vec<WorkspacePreviewScene>,
}

pub ghost struct PreviewView {
    pub workspace_id: WorkspaceId,
    pub live_rect: Rect,
    pub canvas_rect: Rect,
    pub frame_rect: Rect,
    pub selected: bool,
    pub windows: Seq<WindowPreviewScene>,
}

pub ghost struct SceneView {
    pub monitor_rect: Rect,
    pub workspaces: Seq<PreviewView>,
}

impl View for WorkspacePreviewScene {
    type V = PreviewView;

    open spec fn view(&self) -> PreviewView {
        PreviewView {
            workspace_id: self.workspace_id,
            live_rect: self.live_rect,
            canvas_rect: self.canvas_rect,
            frame_rect: self.frame_rect,
            selected: self.selected,
            windows: self.windows@,
        }
    }
}

pub open spec fn previews_view(workspaces: Seq<WorkspacePreviewScene>) -> Seq<PreviewView> {
    workspaces.map_values(|workspace: WorkspacePreviewScene| workspace@)
}

impl View for OverviewScene {
    type V = SceneView;

    open spec fn view(&self) -> SceneView {
        SceneView {
            monitor_rect: self.monitor_rect,
            workspaces: previews_view(self.workspaces@),
        }
    }
}

/// How a window's distance from the monitor's corner is scaled.
#[derive(Clone, Copy, Debug, PartialEq, Eq, Structural)]
pub enum DistanceRule {
    /// Whatever the distance is.
    Exact,
    /// As far as the distance fits a coordinate.
    Saturating,
}

/// A change of space that scales one rectangle onto another.
#[derive(Clone, Copy, Debug, PartialEq, Eq, Structural)]
pub struct OverviewRectTransform {
    pub source_space: Rect,
    pub target_space: Rect,
    pub rule: DistanceRule,
}

impl OverviewRectTransform {
    pub open spec fn maps(self, rect: Rect) -> Rect {
        match self.rule {
            DistanceRule::Exact => carried(rect, self.source_space, self.target_space),
            DistanceRule::Saturating => carried_saturating(
                rect,
                self.source_space,
                self.target_space,
            ),
        }
    }

    pub fn map_rect(self, source_rect: Rect) -> (r: Rect)
        ensures
            r == self.maps(source_rect),
    {
        match self.rule {
            DistanceRule::Exact => scale_rect_to_overview(
                source_rect,
                self.source_space,
                self.target_space,
            ),
            DistanceRule::Saturating => scale_rect_between_rects(
                source_rect,
                self.source_space,
                self.target_space,
            ),
        }
    }
}

/// The spaces of a preview.
#[derive(Clone, Copy, Debug, PartialEq, Eq, Structural)]
pub struct WorkspaceOverviewGeometry {
    pub canvas_rect: Rect,
    pub viewport_rect: Rect,
    pub tiled_window_transform: OverviewRectTransform,
    pub monitor_window_transform: OverviewRectTransform,
}

/// A preview's canvas, and the change of space into its frame, which is the same for tiled
/// windows and for those that float over the monitor.
pub open spec fn overview_geometry(
    monitor_rect: Rect,
    frame_rect: Rect,
    rule: DistanceRule,
) -> WorkspaceOverviewGeometry {
    let transform = OverviewRectTransform {
        source_space: monitor_rect,
        target_space: frame_rect,
        rule,
    };
    WorkspaceOverviewGeometry {
        canvas_rect: canvas_rect(frame_rect, monitor_rect),
        viewport_rect: frame_rect,
        tiled_window_transform: transform,
        monitor_window_transform: transform,
    }
}

pub fn workspace_overview_geometry(monitor_rect: Rect, frame_rect: Rect, rule: DistanceRule) -> (r:
    WorkspaceOverviewGeometry)
    ensures
        r == overview_geometry(monitor_rect, frame_rect, rule),
{
    let transform: OverviewRectTransform = OverviewRectTransform {
        source_space: monitor_rect,
        target_space: frame_rect,
        rule,
    };
    WorkspaceOverviewGeometry {
        canvas_rect: workspace_preview_canvas_rect(frame_rect, monitor_rect),
        viewport_rect: frame_rect,
        tiled_window_transform: transform,
        monitor_window_transform: transform,
    }
}

/// Where the overview shows a window.
pub open spec fn window_overview_rect(
    geometry: WorkspaceOverviewGeometry,
    window: WindowGeometryProjection,
) -> Rect {
    if window.layer is Tiled {
        geometry.tiled_window_transform.maps(window.rect)
    } else {
        geometry.monitor_window_transform.maps(window.rect)
    }
}

pub fn workspace_window_overview_rect(
    geometry: WorkspaceOverviewGeometry,
    window: WindowGeometryProjection,
) -> (r: Rect)
    ensures
        r == window_overview_rect(geometry, window),
{
    match window.layer {
        WindowLayer::Tiled => geometry.tiled_window_transform.map_rect(window.rect),
        _ => geometry.monitor_window_transform.map_rect(window.rect),
    }
}

/// Where the overview shows a rectangle of a space that is scaled onto a target; the layer
/// makes no difference.
pub fn overview_window_rect(
    source_rect: Rect,
    source_space: Rect,
    target_rect: Rect,
    _layer: WindowLayer,
) -> (r: Rect)
    ensures
        r == carried(source_rect, source_space, target_rect),
{
    scale_rect_to_overview(source_rect, source_space, target_rect)
}

/// The preview of a window: none where the window is unknown or has no handle.
pub open spec fn window_preview(
    state: WmState,
    monitor_rect: Rect,
    workspace_rect: Rect,
    geometry: WorkspaceOverviewGeometry,
    projection: WindowGeometryProjection,
) -> Option<WindowPreviewScene> {
    match state.window(projection.window_id) {
        None => None,
        Some(window) => match window.current_hwnd_binding {
            None => None,
            Some(hwnd) => Some(
                WindowPreviewScene {
                    hwnd,
                    live_rect: moved_between_origins(
                        projection.rect,
                        monitor_rect,
                        workspace_rect,
                    ),
                    overview_rect: window_overview_rect(geometry, projection),
                },
            ),
        },
    }
}

/// The windows of a preview, in the order of the layout: those that reach its canvas.
pub open spec fn window_previews(
    state: WmState,
    monitor_rect: Rect,
    workspace_rect: Rect,
    geometry: WorkspaceOverviewGeometry,
    projections: Seq<WindowGeometryProjection>,
) -> Seq<WindowPreviewScene>
    decreases projections.len(),
{
    if projections.len() == 0 {
        Seq::empty()
    } else {
        let rest = window_previews(
            state,
            monitor_rect,
            workspace_rect,
            geometry,
            projections.drop_last(),
        );
        match window_preview(state, monitor_rect, workspace_rect, geometry, projections.last()) {
            Some(window) => if overlap(window.overview_rect, geometry.canvas_rect) {
                rest.push(window)
            } else {
                rest
            },
            None => rest,
        }
    }
}

fn build_window_previews(
    state: &WmState,
    monitor_rect: Rect,
    workspace_rect: Rect,
    geometry: WorkspaceOverviewGeometry,
    projections: &Vec<WindowGeometryProjection>,
) -> (r: Vec<WindowPreviewScene>)
    ensures
        r@ == window_previews(*state, monitor_rect, workspace_rect, geometry, projections@),
{
    let mut windows: Vec<WindowPreviewScene> = Vec::new();
    let mut i: usize = 0;
    assert(projections@.take(0) =~= Seq::empty());
    while i < projections.len()
        invariant
            i <= projections.len(),
            windows@ == window_previews(
                *state,
                monitor_rect,
                workspace_rect,
                geometry,
                projections@.take(i as int),
            ),
        decreases projections.len() - i,
    {
        assert(projections@.take(i + 1).drop_last() =~= projections@.take(i as int));
        let projection: WindowGeometryProjection = projections[i];
        if let Some(window) = state.find_window(projection.window_id) {
            if let Some(hwnd) = window.current_hwnd_binding {
                let overview_rect: Rect = workspace_window_overview_rect(geometry, projection);
                let preview: WindowPreviewScene = WindowPreviewScene {
                    hwnd,
                    live_rect: translate_rect_between_origins(
                        projection.rect,
                        monitor_rect,
                        workspace_rect,
                    ),
                    overview_rect,
                };
                if rects_intersect(overview_rect, geometry.canvas_rect) {
                    windows.push(preview);
                }
            }
        }
        i = i + 1;
    }
    assert(projections@.take(projections@.len() as int) =~= projections@);
    windows
}

/// What the previews of a monitor's workspaces have in common.
pub ghost struct StackContext {
    pub state: WmState,
    pub layouts: Seq<WorkspaceLayout>,
    pub monitor_rect: Rect,
    pub ids: Seq<WorkspaceId>,
    pub active_index: int,
    pub selection: Option<WorkspaceId>,
    pub rule: DistanceRule,
}

impl StackContext {
    pub open spec fn frame(self, index: int) -> Rect {
        preview_frame_rect(
            self.monitor_rect,
            stack_layout(self.monitor_rect, PreviewZoom::Overview),
            index - self.active_index,
        )
    }

    /// The preview of the workspace at an index, drawn from its layout.
    pub open spec fn preview(self, index: int, layout: WorkspaceLayoutProjection) -> PreviewView {
        let frame_rect = self.frame(index);
        let workspace_rect = live_rect(self.monitor_rect, index - self.active_index);
        let geometry = overview_geometry(self.monitor_rect, frame_rect, self.rule);
        PreviewView {
            workspace_id: self.ids[index],
            live_rect: workspace_rect,
            canvas_rect: geometry.canvas_rect,
            frame_rect,
            selected: self.selection == Some(self.ids[index]),
            windows: window_previews(
                self.state,
                self.monitor_rect,
                workspace_rect,
                geometry,
                layout.window_geometries@,
            ),
        }
    }

    /// The previews of the first `n` workspaces: those whose frame reaches the monitor. A
    /// workspace without a layout spoils the whole.
    pub open spec fn previews(self, n: nat) -> Result<Seq<PreviewView>, LayoutError>
        decreases n,
    {
        if n == 0 {
            Ok(Seq::empty())
        } else {
            let index = (n - 1) as int;
            match self.previews((n - 1) as nat) {
                Err(error) => Err(error),
                Ok(rest) => match layout_of(self.layouts, self.ids[index]) {
                    Err(error) => Err(error),
                    Ok(layout) => if overlap(self.frame(index), self.monitor_rect) {
                        Ok(rest.push(self.preview(index, layout)))
                    } else {
                        Ok(rest)
                    },
                },
            }
        }
    }
}

/// The index of the active workspace in a set; the first one where it is not there.
pub open spec fn active_index(ids: Seq<WorkspaceId>, active: Option<WorkspaceId>) -> int {
    match active {
        None => 0,
        Some(id) => {
            let i = first_index(ids, |candidate: WorkspaceId| candidate == id);
            if i < ids.len() {
                i
            } else {
                0
            }
        },
    }
}

fn find_active_index(ids: &Vec<WorkspaceId>, active: Option<WorkspaceId>) -> (r: usize)
    ensures
        r == active_index(ids@, active),
        ids.len() > 0 ==> r < ids.len(),
{
    if let Some(id) = active {
        let ghost test = |candidate: WorkspaceId| candidate == id;
        let mut i: usize = 0;
        while i < ids.len()
            invariant
                i <= ids.len(),
                active == Some(id),
                test == (|candidate: WorkspaceId| candidate == id),
                forall|j: int| 0 <= j < i ==> !test(#[trigger] ids@[j]),
            decreases ids.len() - i,
        {
            if ids[i] == id {
                proof {
                    lemma_first_index(ids@, test, i as int);
                }
                return i;
            }
            i = i + 1;
        }
        proof {
            lemma_first_index(ids@, test, i as int);
        }
    }
    0
}

/// The monitor that the overview is open on and the workspaces that it shows there.
pub open spec fn overview_source(state: WmState) -> Option<(Monitor, Seq<WorkspaceId>)> {
    if !state.overview.is_open {
        None
    } else {
        match state.overview.monitor_id {
            None => None,
            Some(monitor_id) => match state.monitor(monitor_id) {
                None => None,
                Some(monitor) => match monitor.workspace_set_id {
                    None => None,
                    Some(set_id) => match state.workspace_set(set_id) {
                        None => None,
                        Some(set) => if set.ordered_workspace_ids@.len() == 0 {
                            None
                        } else {
                            Some((monitor, set.ordered_workspace_ids@))
                        },
                    },
                },
            },
        }
    }
}

pub open spec fn stack_context(
    state: WmState,
    layouts: Seq<WorkspaceLayout>,
    monitor: Monitor,
    ids: Seq<WorkspaceId>,
    rule: DistanceRule,
) -> StackContext {
    StackContext {
        state,
        layouts,
        monitor_rect: monitor.work_area_rect,
        ids,
        active_index: active_index(ids, monitor.active_workspace_id),
        selection: match state.overview.selection {
            Some(id) => Some(id),
            None => monitor.active_workspace_id,
        },
        rule,
    }
}

/// The scene of the overview: none where it is closed or has nothing to show.
pub open spec fn scene_of(
    state: WmState,
    layouts: Seq<WorkspaceLayout>,
    rule: DistanceRule,
) -> Result<Option<SceneView>, LayoutError> {
    match overview_source(state) {
        None => Ok(None),
        Some((monitor, ids)) => match stack_context(state, layouts, monitor, ids, rule).previews(
            ids.len(),
        ) {
            Err(error) => Err(error),
            Ok(workspaces) => Ok(
                Some(SceneView { monitor_rect: monitor.work_area_rect, workspaces }),
            ),
        },
    }
}

pub open spec fn scene_result_view(result: Result<Option<OverviewScene>, LayoutError>) -> Result<
    Option<SceneView>,
    LayoutError,
> {
    match result {
        Err(error) => Err(error),
        Ok(None) => Ok(None),
        Ok(Some(scene)) => Ok(Some(scene@)),
    }
}

proof fn lemma_preview_error_stays(context: StackContext, n: nat, m: nat)
    requires
        n <= m,
        context.previews(n) is Err,
    ensures
        context.previews(m) == context.previews(n),
    decreases m,
{
    if n < m {
        lemma_preview_error_stays(context, n, (m - 1) as nat);
    }
}

/// Builds the scene of the overview from the window manager's state and the layouts of the
/// workspaces.
pub fn build_overview_scene(
    state: &WmState,
    layouts: &Vec<WorkspaceLayout>,
    rule: DistanceRule,
) -> (r: Result<Option<OverviewScene>, LayoutError>)
    ensures
        scene_result_view(r) == scene_of(*state, layouts@, rule),
{
    if !state.overview.is_open {
        return Ok(None);
    }
    let monitor_id: MonitorId = match state.overview.monitor_id {
        Some(monitor_id) => monitor_id,
        None => {
            return Ok(None);
        },
    };
    let monitor: Monitor = match state.find_monitor(monitor_id) {
        Some(monitor) => monitor,
        None => {
            return Ok(None);
        },
    };
    let set: &WorkspaceSet = match monitor.workspace_set_id {
        None => {
            return Ok(None);
        },
        Some(set_id) => match state.find_workspace_set(set_id) {
            Some(set) => set,
            None => {
                return Ok(None);
            },
        },
    };
    let ids: &Vec<WorkspaceId> = &set.ordered_workspace_ids;
    if ids.len() == 0 {
        return Ok(None);
    }
    let selection: Option<WorkspaceId> = match state.overview.selection {
        Some(id) => Some(id),
        None => monitor.active_workspace_id,
    };
    let active: usize = find_active_index(ids, monitor.active_workspace_id);
    let monitor_rect: Rect = monitor.work_area_rect;
    let layout: PreviewStackLayout = build_preview_stack_layout(monitor_rect);
    let ghost context = stack_context(*state, layouts@, monitor, ids@, rule);
    let mut workspaces: Vec<WorkspacePreviewScene> = Vec::new();
    let mut index: usize = 0;
    assert(previews_view(workspaces@) =~= Seq::empty());
    while index < ids.len()
        invariant
            index <= ids.len(),
            active < ids.len(),
            context == stack_context(*state, layouts@, monitor, ids@, rule),
            context.active_index == active,
            selection == context.selection,
            monitor_rect == monitor.work_area_rect,
            layout == stack_layout(monitor_rect, PreviewZoom::Overview),
            overview_source(*state) == Some((monitor, ids@)),
            context.previews(index as nat) == Ok::<Seq<PreviewView>, LayoutError>(
                previews_view(workspaces@),
            ),
        decreases ids.len() - index,
    {
        let workspace_id: WorkspaceId = ids[index];
        let projection: &WorkspaceLayoutProjection = match recompute_workspace(
            layouts,
            workspace_id,
        ) {
            Ok(projection) => projection,
            Err(error) => {
                proof {
                    assert(context.previews((index + 1) as nat) is Err);
                    lemma_preview_error_stays(context, (index + 1) as nat, ids@.len());
                }
                return Err(error);
            },
        };
        let stack_offset: i128 = index as i128 - active as i128;
        let frame_rect: Rect = workspace_preview_frame_rect(monitor_rect, layout, stack_offset);
        if rects_intersect(frame_rect, monitor_rect) {
            let workspace_rect: Rect = workspace_live_rect(monitor_rect, stack_offset);
            let geometry: WorkspaceOverviewGeometry = workspace_overview_geometry(
                monitor_rect,
                frame_rect,
                rule,
            );
            let windows: Vec<WindowPreviewScene> = build_window_previews(
                state,
                monitor_rect,
                workspace_rect,
                geometry,
                &projection.window_geometries,
            );
            let selected: bool = match selection {
                Some(id) => id == workspace_id,
                None => false,
            };
            let ghost before = previews_view(workspaces@);
            let preview: WorkspacePreviewScene = WorkspacePreviewScene {
                workspace_id,
                live_rect: workspace_rect,
                canvas_rect: geometry.canvas_rect,
                frame_rect,
                selected,
                windows,
            };
            workspaces.push(preview);
            assert(previews_view(workspaces@) =~= before.push(preview@));
        }
        index = index + 1;
    }
    Ok(Some(OverviewScene { monitor_rect, workspaces }))
}

/// Whether two lists of windows are the same.
fn same_windows(left: &Vec<WindowPreviewScene>, right: &Vec<WindowPreviewScene>) -> (r: bool)
    ensures
        r == (left@ == right@),
{
    if left.len() != right.len() {
        return false;
    }
    let mut i: usize = 0;
    while i < left.len()
        invariant
            i <= left.len(),
            left.len() == right.len(),
            forall|j: int| 0 <= j < i ==> left@[j] == right@[j],
        decreases left.len() - i,
    {
        if left[i] != right[i] {
            return false;
        }
        i = i + 1;
    }
    assert(left@ =~= right@);
    true
}

fn same_preview(left: &WorkspacePreviewScene, right: &WorkspacePreviewScene) -> (r: bool)
    ensures
        r == (left@ == right@),
{
    left.workspace_id == right.workspace_id && left.live_rect == right.live_rect
        && left.canvas_rect == right.canvas_rect && left.frame_rect == right.frame_rect
        && left.selected == right.selected && same_windows(&left.windows, &right.windows)
}

/// Whether two scenes show the same.
pub fn same_scene(left: &OverviewScene, right: &OverviewScene) -> (r: bool)
    ensures
        r == (left@ == right@),
{
    if left.monitor_rect != right.monitor_rect || left.workspaces.len()
        != right.workspaces.len() {
        assert(left@.workspaces.len() == left.workspaces@.len());
        assert(right@.workspaces.len() == right.workspaces@.len());
        return false;
    }
    let mut i: usize = 0;
    while i < left.workspaces.len()
        invariant
            i <= left.workspaces.len(),
            left.workspaces.len() == right.workspaces.len(),
            forall|j: int| 0 <= j < i ==> left.workspaces@[j]@ == right.workspaces@[j]@,
        decreases left.workspaces.len() - i,
    {
        if !same_preview(&left.workspaces[i], &right.workspaces[i]) {
            assert(left@.workspaces[i as int] != right@.workspaces[i as int]);
            return false;
        }
        i = i + 1;
    }
    assert(left@.workspaces =~= right@.workspaces);
    true
}

/// The preview of a workspace in a scene.
pub open spec fn preview_of(scene: SceneView, id: WorkspaceId) -> Option<PreviewView> {
    first_where(scene.workspaces, |workspace: PreviewView| workspace.workspace_id == id)
}

pub fn find_preview(scene: &OverviewScene, id: WorkspaceId) -> (r: Option<&WorkspacePreviewScene>)
    ensures
        match r {
            Some(workspace) => preview_of(scene@, id) == Some(workspace@),
            None => preview_of(scene@, id) is None,
        },
{
    let ghost test = |workspace: PreviewView| workspace.workspace_id == id;
    let mut i: usize = 0;
    while i < scene.workspaces.len()
        invariant
            i <= scene.workspaces.len(),
            test == (|workspace: PreviewView| workspace.workspace_id == id),
            forall|j: int| 0 <= j < i ==> !test(#[trigger] scene@.workspaces[j]),
        decreases scene.workspaces.len() - i,
    {
        if scene.workspaces[i].workspace_id == id {
            proof {
                lemma_first_index(scene@.workspaces, test, i as int);
            }
            return Some(&scene.workspaces[i]);
        }
        i = i + 1;
    }
    proof {
        lemma_first_index(scene@.workspaces, test, i as int);
    }
    None
}

/// A closed overview has no scene.
pub proof fn law_closed_overview_has_no_scene(
    state: WmState,
    layouts: Seq<WorkspaceLayout>,
    rule: DistanceRule,
)
    requires
        !state.overview.is_open,
    ensures
        scene_of(state, layouts, rule) == Ok::<Option<SceneView>, LayoutError>(None),
{
}

proof fn lemma_windows_reach_the_canvas(
    state: WmState,
    monitor_rect: Rect,
    workspace_rect: Rect,
    geometry: WorkspaceOverviewGeometry,
    projections: Seq<WindowGeometryProjection>,
    i: int,
)
    requires
        0 <= i < window_previews(
            state,
            monitor_rect,
            workspace_rect,
            geometry,
            projections,
        ).len(),
    ensures
        overlap(
            window_previews(state, monitor_rect, workspace_rect, geometry, projections)[i].overview_rect,
            geometry.canvas_rect,
        ),
    decreases projections.len(),
{
    let rest = window_previews(
        state,
        monitor_rect,
        workspace_rect,
        geometry,
        projections.drop_last(),
    );
    if i < rest.len() {
        lemma_windows_reach_the_canvas(
            state,
            monitor_rect,
            workspace_rect,
            geometry,
            projections.drop_last(),
            i,
        );
    }
}

/// Where a preview of a scene comes from: a workspace of the set whose frame reaches the
/// monitor.
proof fn lemma_preview_has_a_workspace(context: StackContext, n: nat, i: int) -> (index: int)
    requires
        context.previews(n) is Ok,
        0 <= i < context.previews(n)->Ok_0.len(),
    ensures
        0 <= index < n,
        layout_of(context.layouts, context.ids[index]) is Ok,
        overlap(context.frame(index), context.monitor_rect),
        context.previews(n)->Ok_0[i] == context.preview(
            index,
            layout_of(context.layouts, context.ids[index])->Ok_0,
        ),
    decreases n,
{
    let rest = context.previews((n - 1) as nat)->Ok_0;
    if i < rest.len() {
        lemma_preview_has_a_workspace(context, (n - 1) as nat, i)
    } else {
        n - 1
    }
}

/// Every preview of a scene belongs to a workspace of the monitor and its frame reaches the
/// monitor, every window of a preview reaches the preview's canvas, and exactly the preview
/// of the selected workspace is marked.
pub proof fn law_scene_shows_what_can_be_seen(
    state: WmState,
    layouts: Seq<WorkspaceLayout>,
    rule: DistanceRule,
    i: int,
    k: int,
)
    requires
        scene_of(state, layouts, rule) matches Ok(Some(scene)) && 0 <= i < scene.workspaces.len(),
    ensures
        ({
            let scene = (scene_of(state, layouts, rule)->Ok_0)->0;
            let preview = scene.workspaces[i];
            let (monitor, ids) = overview_source(state)->0;
            &&& scene.monitor_rect == monitor.work_area_rect
            &&& ids.contains(preview.workspace_id)
            &&& overlap(preview.frame_rect, scene.monitor_rect)
            &&& preview.canvas_rect == canvas_rect(preview.frame_rect, scene.monitor_rect)
            &&& 0 <= k < preview.windows.len() ==> overlap(
                preview.windows[k].overview_rect,
                preview.canvas_rect,
            )
            &&& preview.selected <==> (match state.overview.selection {
                Some(id) => id == preview.workspace_id,
                None => monitor.active_workspace_id == Some(preview.workspace_id),
            })
        }),
{
    let (monitor, ids) = overview_source(state)->0;
    let context = stack_context(state, layouts, monitor, ids, rule);
    let index = lemma_preview_has_a_workspace(context, ids.len(), i);
    let preview = context.previews(ids.len())->Ok_0[i];
    let layout = layout_of(layouts, ids[index])->Ok_0;
    assert(ids[index] == preview.workspace_id);
    if 0 <= k < preview.windows.len() {
        lemma_windows_reach_the_canvas(
            state,
            monitor.work_area_rect,
            preview.live_rect,
            overview_geometry(monitor.work_area_rect, preview.frame_rect, rule),
            layout.window_geometries@,
            k,
        );
    }
}

proof fn lemma_workspace_has_a_preview(context: StackContext, n: nat, index: int) -> (i: int)
    requires
        context.previews(n) is Ok,
        0 <= index < n,
        overlap(context.frame(index), context.monitor_rect),
    ensures
        0 <= i < context.previews(n)->Ok_0.len(),
        layout_of(context.layouts, context.ids[index]) is Ok,
        context.previews(n)->Ok_0[i] == context.preview(
            index,
            layout_of(context.layouts, context.ids[index])->Ok_0,
        ),
    decreases n,
{
    let rest = context.previews((n - 1) as nat)->Ok_0;
    if index < n - 1 {
        lemma_workspace_has_a_preview(context, (n - 1) as nat, index)
    } else {
        rest.len() as int
    }
}

/// A scene leaves no workspace out whose frame reaches the monitor: one of its previews is
/// drawn from that workspace's layout.
pub proof fn law_scene_leaves_nothing_out(
    state: WmState,
    layouts: Seq<WorkspaceLayout>,
    rule: DistanceRule,
    index: int,
) -> (i: int)
    requires
        scene_of(state, layouts, rule) matches Ok(Some(_)),
        ({
            let (monitor, ids) = overview_source(state)->0;
            &&& 0 <= index < ids.len()
            &&& overlap(
                stack_context(state, layouts, monitor, ids, rule).frame(index),
                monitor.work_area_rect,
            )
        }),
    ensures
        ({
            let scene = (scene_of(state, layouts, rule)->Ok_0)->0;
            let (monitor, ids) = overview_source(state)->0;
            &&& 0 <= i < scene.workspaces.len()
            &&& layout_of(layouts, ids[index]) is Ok
            &&& scene.workspaces[i] == stack_context(state, layouts, monitor, ids, rule).preview(
                index,
                layout_of(layouts, ids[index])->Ok_0,
            )
        }),
{
    let (monitor, ids) = overview_source(state)->0;
    let context = stack_context(state, layouts, monitor, ids, rule);
    lemma_workspace_has_a_preview(context, ids.len(), index)
}

proof fn lemma_layouts_give_previews(context: StackContext, n: nat)
    requires
        forall|j: int| 0 <= j < n ==> layout_of(context.layouts, #[trigger] context.ids[j]) is Ok,
    ensures
        context.previews(n) is Ok,
    decreases n,
{
    if n > 0 {
        assert(layout_of(context.layouts, context.ids[n - 1]) is Ok);
        lemma_layouts_give_previews(context, (n - 1) as nat);
    }
}

/// A scene needs the layout of every workspace of its monitor, also of those that it does
/// not show; the first one that is missing is the one that is reported.
pub proof fn law_scene_needs_every_layout(
    state: WmState,
    layouts: Seq<WorkspaceLayout>,
    rule: DistanceRule,
    index: int,
)
    requires
        overview_source(state) is Some,
        0 <= index < (overview_source(state)->0).1.len(),
        layout_of(layouts, (overview_source(state)->0).1[index]) is Err,
    ensures
        scene_of(state, layouts, rule) is Err,
        ({
            let (monitor, ids) = overview_source(state)->0;
            (forall|j: int| 0 <= j < index ==> layout_of(layouts, #[trigger] ids[j]) is Ok)
                ==> scene_of(state, layouts, rule) == Err::<Option<SceneView>, LayoutError>(
                layout_of(layouts, ids[index])->Err_0,
            )
        }),
{
    let (monitor, ids) = overview_source(state)->0;
    let context = stack_context(state, layouts, monitor, ids, rule);
    assert(context.previews((index + 1) as nat) is Err);
    lemma_preview_error_stays(context, (index + 1) as nat, ids.len());
    if forall|j: int| 0 <= j < index ==> layout_of(layouts, #[trigger] ids[j]) is Ok {
        lemma_layouts_give_previews(context, index as nat);
    }
}

proof fn lemma_previews_follow_the_layout(
    state: WmState,
    monitor_rect: Rect,
    workspace_rect: Rect,
    geometry: WorkspaceOverviewGeometry,
    projections: Seq<WindowGeometryProjection>,
) -> (at: Seq<int>)
    ensures
        ({
            let windows = window_previews(
                state,
                monitor_rect,
                workspace_rect,
                geometry,
                projections,
            );
            &&& at.len() == windows.len()
            &&& forall|k: int| 0 <= k < at.len() ==> 0 <= #[trigger] at[k] < projections.len()
            &&& forall|k: int, m: int| 0 <= k < m < at.len() ==> #[trigger] at[k] < #[trigger] at[m]
            &&& forall|k: int|
                0 <= k < at.len() ==> window_preview(
                    state,
                    monitor_rect,
                    workspace_rect,
                    geometry,
                    projections[#[trigger] at[k]],
                ) == Some(windows[k])
            &&& forall|j: int|
                0 <= j < projections.len() ==> (window_preview(
                    state,
                    monitor_rect,
                    workspace_rect,
                    geometry,
                    #[trigger] projections[j],
                ) matches Some(window) ==> (overlap(window.overview_rect, geometry.canvas_rect)
                    ==> at.contains(j)))
        }),
    decreases projections.len(),
{
    if projections.len() == 0 {
        Seq::empty()
    } else {
        let rest = projections.drop_last();
        let last = projections.len() - 1;
        let before = lemma_previews_follow_the_layout(
            state,
            monitor_rect,
            workspace_rect,
            geometry,
            rest,
        );
        let shown = window_preview(
            state,
            monitor_rect,
            workspace_rect,
            geometry,
            projections.last(),
        );
        let at = if shown is Some && overlap((shown->0).overview_rect, geometry.canvas_rect) {
            before.push(last)
        } else {
            before
        };
        assert forall|k: int| 0 <= k < before.len() implies #[trigger] projections[before[k]]
            == rest[before[k]] by {}
        assert forall|j: int| 0 <= j < projections.len() implies (window_preview(
            state,
            monitor_rect,
            workspace_rect,
            geometry,
            #[trigger] projections[j],
        ) matches Some(window) ==> (overlap(window.overview_rect, geometry.canvas_rect)
            ==> at.contains(j))) by {
            if j < last {
                assert(rest[j] == projections[j]);
                if before.contains(j) {
                    let k = choose|k: int| 0 <= k < before.len() && before[k] == j;
                    assert(at[k] == j);
                }
            } else if shown is Some && overlap((shown->0).overview_rect, geometry.canvas_rect) {
                assert(at[before.len() as int] == last);
            }
        }
        at
    }
}

/// Where a rectangle of the monitor appears in a preview, under the rule for distances.
pub open spec fn shown_at(rect: Rect, monitor_rect: Rect, frame_rect: Rect, rule: DistanceRule) -> Rect {
    if rule is Exact {
        carried(rect, monitor_rect, frame_rect)
    } else {
        carried_saturating(rect, monitor_rect, frame_rect)
    }
}

/// A preview shows every window of its workspace's layout that is known, has a handle and
/// reaches the preview's canvas once it has been carried into the frame, whatever layer it is
/// on, and shows nothing else. The windows keep the order of the layout, and each lives where
/// the layout puts it, moved along with its workspace.
pub proof fn law_previews_show_every_window_in_reach(
    state: WmState,
    layouts: Seq<WorkspaceLayout>,
    rule: DistanceRule,
    i: int,
    layout: WorkspaceLayoutProjection,
) -> (at: Seq<int>)
    requires
        scene_of(state, layouts, rule) matches Ok(Some(scene)) && 0 <= i < scene.workspaces.len()
            && layout_of(layouts, scene.workspaces[i].workspace_id) == Ok::<
            WorkspaceLayoutProjection,
            LayoutError,
        >(layout),
    ensures
        ({
            let scene = (scene_of(state, layouts, rule)->Ok_0)->0;
            let preview = scene.workspaces[i];
            let projections = layout.window_geometries@;
            &&& at.len() == preview.windows.len()
            &&& forall|k: int| 0 <= k < at.len() ==> 0 <= #[trigger] at[k] < projections.len()
            &&& forall|k: int, m: int| 0 <= k < m < at.len() ==> #[trigger] at[k] < #[trigger] at[m]
            &&& forall|k: int|
                0 <= k < at.len() ==> {
                    let projection = projections[#[trigger] at[k]];
                    let shown = preview.windows[k];
                    &&& state.window(projection.window_id) matches Some(window)
                        && window.current_hwnd_binding == Some(shown.hwnd)
                    &&& shown.overview_rect == shown_at(
                        projection.rect,
                        scene.monitor_rect,
                        preview.frame_rect,
                        rule,
                    )
                    &&& overlap(shown.overview_rect, preview.canvas_rect)
                    &&& shown.live_rect == moved_between_origins(
                        projection.rect,
                        scene.monitor_rect,
                        preview.live_rect,
                    )
                }
            &&& forall|j: int|
                0 <= j < projections.len() ==> (state.window(
                    (#[trigger] projections[j]).window_id,
                ) matches Some(window) ==> (window.current_hwnd_binding is Some && overlap(
                    shown_at(
                        projections[j].rect,
                        scene.monitor_rect,
                        preview.frame_rect,
                        rule,
                    ),
                    preview.canvas_rect,
                ) ==> at.contains(j)))
        }),
{
    let (monitor, ids) = overview_source(state)->0;
    let context = stack_context(state, layouts, monitor, ids, rule);
    let index = lemma_preview_has_a_workspace(context, ids.len(), i);
    let preview = context.previews(ids.len())->Ok_0[i];
    let geometry = overview_geometry(monitor.work_area_rect, preview.frame_rect, rule);
    let at = lemma_previews_follow_the_layout(
        state,
        monitor.work_area_rect,
        preview.live_rect,
        geometry,
        layout.window_geometries@,
    );
    assert forall|k: int| 0 <= k < at.len() implies overlap(
        preview.windows[k].overview_rect,
        preview.canvas_rect,
    ) by {
        lemma_windows_reach_the_canvas(
            state,
            monitor.work_area_rect,
            preview.live_rect,
            geometry,
            layout.window_geometries@,
            k,
        );
    }
    at
}

proof fn lemma_previews_follow_the_set(context: StackContext, n: nat) -> (at: Seq<int>)
    requires
        context.previews(n) is Ok,
    ensures
        ({
            let previews = context.previews(n)->Ok_0;
            &&& at.len() == previews.len()
            &&& forall|i: int| 0 <= i < at.len() ==> 0 <= #[trigger] at[i] < n
            &&& forall|i: int, j: int| 0 <= i < j < at.len() ==> #[trigger] at[i] < #[trigger] at[j]
            &&& forall|i: int|
                0 <= i < at.len() ==> overlap(
                    context.frame(#[trigger] at[i]),
                    context.monitor_rect,
                ) && layout_of(context.layouts, context.ids[at[i]]) is Ok && previews[i]
                    == context.preview(
                    at[i],
                    layout_of(context.layouts, context.ids[at[i]])->Ok_0,
                )
            &&& forall|index: int|
                0 <= index < n && overlap(#[trigger] context.frame(index), context.monitor_rect)
                    ==> at.contains(index)
        }),
    decreases n,
{
    if n == 0 {
        Seq::empty()
    } else {
        let last = n - 1;
        let before = lemma_previews_follow_the_set(context, last as nat);
        let at = if overlap(context.frame(last), context.monitor_rect) {
            before.push(last)
        } else {
            before
        };
        assert forall|index: int|
            0 <= index < n && overlap(
                #[trigger] context.frame(index),
                context.monitor_rect,
            ) implies at.contains(index) by {
            if index < last {
                let k = choose|k: int| 0 <= k < before.len() && before[k] == index;
                assert(at[k] == index);
            } else {
                assert(at[before.len() as int] == last);
            }
        }
        at
    }
}

/// The scene holds the workspaces of the monitor in the order of their set: the one at an index
/// stands as many places below the active one as the index says, in the overview as well as
/// where it lives. All those whose frame reaches the monitor are there, and no others, and
/// exactly the selected one is marked; without a selection that is the active one.
pub proof fn law_scene_is_the_stack_of_workspaces(
    state: WmState,
    layouts: Seq<WorkspaceLayout>,
    rule: DistanceRule,
    monitor: Monitor,
    ids: Seq<WorkspaceId>,
    active: int,
) -> (at: Seq<int>)
    requires
        scene_of(state, layouts, rule) matches Ok(Some(_)),
        overview_source(state) == Some((monitor, ids)),
        0 <= active < ids.len(),
        monitor.active_workspace_id == Some(ids[active]) || (active == 0 && (
        monitor.active_workspace_id is None || !ids.contains(monitor.active_workspace_id->0))),
        forall|j: int| 0 <= j < active ==> #[trigger] ids[j] != ids[active],
    ensures
        ({
            let scene = (scene_of(state, layouts, rule)->Ok_0)->0;
            let area = monitor.work_area_rect;
            let stack = stack_layout(area, PreviewZoom::Overview);
            &&& scene.monitor_rect == area
            &&& at.len() == scene.workspaces.len()
            &&& forall|i: int| 0 <= i < at.len() ==> 0 <= #[trigger] at[i] < ids.len()
            &&& forall|i: int, j: int| 0 <= i < j < at.len() ==> #[trigger] at[i] < #[trigger] at[j]
            &&& forall|i: int|
                0 <= i < at.len() ==> {
                    let offset = #[trigger] at[i] - active;
                    let preview = scene.workspaces[i];
                    &&& preview.workspace_id == ids[at[i]]
                    &&& preview.frame_rect == preview_frame_rect(area, stack, offset)
                    &&& preview.canvas_rect == canvas_rect(preview.frame_rect, area)
                    &&& preview.live_rect == live_rect(area, offset)
                    &&& overlap(preview.frame_rect, area)
                    &&& state.overview.selection is Some ==> (preview.selected
                        <==> state.overview.selection == Some(preview.workspace_id))
                    &&& state.overview.selection is None ==> (preview.selected
                        <==> monitor.active_workspace_id == Some(preview.workspace_id))
                }
            &&& forall|index: int|
                0 <= index < ids.len() && overlap(
                    #[trigger] preview_frame_rect(area, stack, index - active),
                    area,
                ) ==> at.contains(index)
        }),
{
    let context = stack_context(state, layouts, monitor, ids, rule);
    match monitor.active_workspace_id {
        Some(id) => {
            let test = |candidate: WorkspaceId| candidate == id;
            if ids[active] == id {
                lemma_first_index(ids, test, active);
            } else {
                assert forall|j: int| 0 <= j < ids.len() implies !test(#[trigger] ids[j]) by {
                    if ids[j] == id {
                        assert(ids.contains(id));
                    }
                }
                lemma_first_index(ids, test, ids.len() as int);
            }
        },
        None => {},
    }
    assert(context.active_index == active);
    let at = lemma_previews_follow_the_set(context, ids.len());
    let stack = stack_layout(monitor.work_area_rect, PreviewZoom::Overview);
    assert forall|index: int|
        0 <= index < ids.len() && overlap(
            #[trigger] preview_frame_rect(monitor.work_area_rect, stack, index - active),
            monitor.work_area_rect,
        ) implies at.contains(index) by {
        assert(context.frame(index) == preview_frame_rect(
            monitor.work_area_rect,
            stack,
            index - active,
        ));
    }
    at
}

/// The overview shows the workspaces of the monitor that it is open on: it needs a monitor that
/// is known, a set of that monitor that is known, and a workspace in it. Where one of these is
/// missing there is no scene.
pub proof fn law_overview_needs_a_monitor_with_workspaces(
    state: WmState,
    layouts: Seq<WorkspaceLayout>,
    rule: DistanceRule,
    monitor: Monitor,
    set: WorkspaceSet,
)
    ensures
        ({
            let complete = state.overview.is_open && (state.overview.monitor_id matches Some(id)
                && state.monitor(id) == Some(monitor)) && (monitor.workspace_set_id matches Some(id)
                && state.workspace_set(id) == Some(set)) && set.ordered_workspace_ids@.len() > 0;
            complete ==> overview_source(state) == Some((monitor, set.ordered_workspace_ids@))
        }),
        match overview_source(state) {
            Some((source, ids)) => {
                &&& state.overview.is_open
                &&& state.overview.monitor_id matches Some(id) && state.monitor(id) == Some(source)
                &&& source.workspace_set_id matches Some(id) && (state.workspace_set(
                    id,
                ) matches Some(set) && set.ordered_workspace_ids@ == ids)
                &&& ids.len() > 0
                &&& scene_of(state, layouts, rule) != Ok::<Option<SceneView>, LayoutError>(None)
            },
            None => scene_of(state, layouts, rule) == Ok::<Option<SceneView>, LayoutError>(None),
        },
{
}

/// What is built as the scene is there exactly where the overview is open on a monitor with
/// workspaces, and shows that monitor's work area.
pub proof fn law_built_scenes_show_the_overview(
    state: &WmState,
    layouts: &Vec<WorkspaceLayout>,
    rule: DistanceRule,
    result: Result<Option<OverviewScene>, LayoutError>,
)
    requires
        call_ensures(build_overview_scene, (state, layouts, rule), result),
    ensures
        scene_result_view(result) == scene_of(*state, layouts@, rule),
        result matches Ok(Some(scene)) ==> state.overview.is_open && (overview_source(
            *state,
        ) matches Some((monitor, ids)) && scene.monitor_rect == monitor.work_area_rect
            && scene.workspaces@.len() <= ids.len()),
        result == Ok::<Option<OverviewScene>, LayoutError>(None) <==> overview_source(
            *state,
        ) is None,
{
    if let Ok(Some(scene)) = result {
        let (monitor, ids) = overview_source(*state)->0;
        let context = stack_context(*state, layouts@, monitor, ids, rule);
        lemma_no_more_previews_than_workspaces(context, ids.len());
        assert(scene@.workspaces.len() == scene.workspaces@.len());
    }
}

proof fn lemma_no_more_previews_than_workspaces(context: StackContext, n: nat)
    requires
        context.previews(n) is Ok,
    ensures
        context.previews(n)->Ok_0.len() <= n,
    decreases n,
{
    if n > 0 {
        lemma_no_more_previews_than_workspaces(context, (n - 1) as nat);
    }
}

} // verus!
