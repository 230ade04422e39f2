//! What the daemon's surfaces read of the window manager's state.

use crate::geometry::Rect;
use crate::ids::{ColumnId, MonitorId, WindowId, WorkspaceId, WorkspaceSetId};
use vstd::prelude::*;

verus! {

/// The mode that the runtime was booted in.
#[derive(Clone, Copy, Debug, PartialEq, Eq, Structural)]
pub enum RuntimeMode {
    WmOnly,
    SafeMode,
}

#[derive(Clone, Copy, Debug, PartialEq, Eq, Structural)]
pub enum WindowLayer {
    Tiled,
    Floating,
    Fullscreen,
}

#[derive(Clone, Copy, Debug, PartialEq, Eq, Structural)]
pub enum ColumnMode {
    Normal,
    Tabbed,
}

#[derive(Clone, Copy, Debug, PartialEq, Eq, Structural)]
pub struct OverviewState {
    pub is_open: bool,
    pub monitor_id: Option<MonitorId>,
    pub selection: Option<WorkspaceId>,
}

#[derive(Clone, Copy, Debug, PartialEq, Eq, Structural)]
pub struct FocusState {
    pub focused_window_id: Option<WindowId>,
    pub focused_monitor_id: Option<MonitorId>,
}

#[derive(Clone, Copy, Debug, PartialEq, Eq, Structural)]
pub struct Monitor {
    pub id: MonitorId,
    pub work_area_rect: Rect,
    pub workspace_set_id: Option<WorkspaceSetId>,
    pub active_workspace_id: Option<WorkspaceId>,
}

#[derive(Clone, Debug, PartialEq, Eq)]
pub struct WorkspaceSet {
    pub id: WorkspaceSetId,
    pub ordered_workspace_ids: Vec<WorkspaceId>,
}

#[derive(Clone, Debug, PartialEq, Eq)]
pub struct Workspace {
    pub id: WorkspaceId,
    pub monitor_id: MonitorId,
    pub ordered_column_ids: Vec<ColumnId>,
    pub scroll_offset: i32,
}

#[derive(Clone, Debug, PartialEq, Eq)]
pub struct Column {
    pub id: ColumnId,
    pub mode: ColumnMode,
    pub ordered_window_ids: Vec<WindowId>,
    pub tab_selection: Option<WindowId>,
    pub active_window_id: Option<WindowId>,
}

#[derive(Clone, Copy, Debug, PartialEq, Eq, Structural)]
pub struct WindowNode {
    pub id: WindowId,
    pub current_hwnd_binding: Option<u64>,
    pub layer: WindowLayer,
    pub workspace_id: WorkspaceId,
    pub column_id: Option<ColumnId>,
    pub is_managed: bool,
    pub is_floating: bool,
    pub is_fullscreen: bool,
}

/// The window manager's objects, each kind in the order of its identifiers.
#[derive(Clone, Debug, PartialEq, Eq)]
pub struct WmState {
    pub state_version: u64,
    pub boot_mode: RuntimeMode,
    pub overview: OverviewState,
    pub focus: FocusState,
    pub monitors: Vec<Monitor>,
    pub workspace_sets: Vec<WorkspaceSet>,
    pub workspaces: Vec<Workspace>,
    pub columns: Vec<Column>,
    pub windows: Vec<WindowNode>,
    pub config_version: u64,
    pub active_rule_count: u64,
}

/// Where the layout puts a window.
#[derive(Clone, Copy, Debug, PartialEq, Eq, Structural)]
pub struct WindowGeometryProjection {
    pub window_id: WindowId,
    pub rect: Rect,
    pub layer: WindowLayer,
}

/// Where the layout puts the windows of a workspace.
#[derive(Clone, Debug, PartialEq, Eq)]
pub struct WorkspaceLayoutProjection {
    pub workspace_id: WorkspaceId,
    pub viewport: Rect,
    pub window_geometries: Vec<WindowGeometryProjection>,
}

/// What the layout engine made of a workspace.
#[derive(Clone, Debug, PartialEq, Eq)]
pub enum WorkspaceLayout {
    Computed(WorkspaceLayoutProjection),
    /// The engine failed on the workspace. The number tells its failures apart.
    Failed { workspace_id: WorkspaceId, failure: u64 },
}

impl WorkspaceLayout {
    pub open spec fn id(self) -> WorkspaceId {
        match self {
            WorkspaceLayout::Computed(layout) => layout.workspace_id,
            WorkspaceLayout::Failed { workspace_id, .. } => workspace_id,
        }
    }

    /// The workspace that was laid out.
    pub fn workspace_id(&self) -> (r: WorkspaceId)
        ensures
            r == self.id(),
    {
        match self {
            WorkspaceLayout::Computed(layout) => layout.workspace_id,
            WorkspaceLayout::Failed { workspace_id, .. } => *workspace_id,
        }
    }
}

/// Why a workspace has no layout.
#[derive(Clone, Copy, Debug, PartialEq, Eq, Structural)]
pub enum LayoutError {
    UnknownWorkspace(WorkspaceId),
    /// The layout engine's own failure, by its number.
    Engine { failure: u64 },
}

/// The position of the first element that a test holds of, or the length.
pub open spec fn first_index<T>(items: Seq<T>, test: spec_fn(T) -> bool) -> int
    decreases items.len(),
{
    if items.len() == 0 || test(items[0]) {
        0
    } else {
        1 + first_index(items.skip(1), test)
    }
}

/// The first element that a test holds of.
pub open spec fn first_where<T>(items: Seq<T>, test: spec_fn(T) -> bool) -> Option<T> {
    let i = first_index(items, test);
    if i < items.len() {
        Some(items[i])
    } else {
        None
    }
}

/// What it takes to be the first element that a test holds of.
pub proof fn lemma_first_index<T>(items: Seq<T>, test: spec_fn(T) -> bool, i: int)
    requires
        0 <= i <= items.len(),
        forall|j: int| 0 <= j < i ==> !test(#[trigger] items[j]),
        i < items.len() ==> test(items[i]),
    ensures
        first_index(items, test) == i,
    decreases items.len(),
{
    if i > 0 {
        assert(!test(items[0]));
        let rest = items.skip(1);
        assert forall|j: int| 0 <= j < i - 1 implies !test(#[trigger] rest[j]) by {
            assert(!test(items[j + 1]));
        }
        lemma_first_index(rest, test, i - 1);
    }
}

/// The first index is in range and separates the elements before it from the one there.
pub proof fn lemma_first_index_holds<T>(items: Seq<T>, test: spec_fn(T) -> bool)
    ensures
        0 <= first_index(items, test) <= items.len(),
        first_index(items, test) < items.len() ==> test(items[first_index(items, test)]),
        forall|j: int| 0 <= j < first_index(items, test) ==> !test(#[trigger] items[j]),
    decreases items.len(),
{
    if items.len() > 0 && !test(items[0]) {
        let rest = items.skip(1);
        lemma_first_index_holds(rest, test);
        assert forall|j: int| 0 <= j < first_index(items, test) implies !test(
            #[trigger] items[j],
        ) by {
            if j > 0 {
                assert(!test(rest[j - 1]));
            }
        }
    }
}

impl WmState {
    pub open spec fn monitor(self, id: MonitorId) -> Option<Monitor> {
        first_where(self.monitors@, |monitor: Monitor| monitor.id == id)
    }

    pub open spec fn workspace_set(self, id: WorkspaceSetId) -> Option<WorkspaceSet> {
        first_where(self.workspace_sets@, |set: WorkspaceSet| set.id == id)
    }

    pub open spec fn workspace(self, id: WorkspaceId) -> Option<Workspace> {
        first_where(self.workspaces@, |workspace: Workspace| workspace.id == id)
    }

    pub open spec fn column(self, id: ColumnId) -> Option<Column> {
        first_where(self.columns@, |column: Column| column.id == id)
    }

    pub open spec fn window(self, id: WindowId) -> Option<WindowNode> {
        first_where(self.windows@, |window: WindowNode| window.id == id)
    }

    /// No two objects of a kind share an identifier.
    pub open spec fn wf(self) -> bool {
        &&& forall|i: int, j: int|
            0 <= i < j < self.monitors@.len() ==> (#[trigger] self.monitors@[i]).id != (
            #[trigger] self.monitors@[j]).id
        &&& forall|i: int, j: int|
            0 <= i < j < self.workspace_sets@.len() ==> (#[trigger] self.workspace_sets@[i]).id
                != (#[trigger] self.workspace_sets@[j]).id
        &&& forall|i: int, j: int|
            0 <= i < j < self.workspaces@.len() ==> (#[trigger] self.workspaces@[i]).id != (
            #[trigger] self.workspaces@[j]).id
        &&& forall|i: int, j: int|
            0 <= i < j < self.columns@.len() ==> (#[trigger] self.columns@[i]).id != (
            #[trigger] self.columns@[j]).id
        &&& forall|i: int, j: int|
            0 <= i < j < self.windows@.len() ==> (#[trigger] self.windows@[i]).id != (
            #[trigger] self.windows@[j]).id
    }

    pub fn find_monitor(&self, id: MonitorId) -> (r: Option<Monitor>)
        ensures
            r == self.monitor(id),
    {
        let ghost test = |monitor: Monitor| monitor.id == id;
        let mut i: usize = 0;
        while i < self.monitors.len()
            invariant
                i <= self.monitors.len(),
                test == (|monitor: Monitor| monitor.id == id),
                forall|j: int| 0 <= j < i ==> !test(#[trigger] self.monitors@[j]),
            decreases self.monitors.len() - i,
        {
            if self.monitors[i].id == id {
                proof {
                    lemma_first_index(self.monitors@, test, i as int);
                }
                return Some(self.monitors[i]);
            }
            i = i + 1;
        }
        proof {
            lemma_first_index(self.monitors@, test, i as int);
        }
        None
    }

    pub fn find_workspace_set(&self, id: WorkspaceSetId) -> (r: Option<&WorkspaceSet>)
        ensures
            match r {
                Some(set) => self.workspace_set(id) == Some(*set),
                None => self.workspace_set(id) is None,
            },
    {
        let ghost test = |set: WorkspaceSet| set.id == id;
        let mut i: usize = 0;
        while i < self.workspace_sets.len()
            invariant
                i <= self.workspace_sets.len(),
                test == (|set: WorkspaceSet| set.id == id),
                forall|j: int| 0 <= j < i ==> !test(#[trigger] self.workspace_sets@[j]),
            decreases self.workspace_sets.len() - i,
        {
            if self.workspace_sets[i].id == id {
                proof {
                    lemma_first_index(self.workspace_sets@, test, i as int);
                }
                return Some(&self.workspace_sets[i]);
            }
            i = i + 1;
        }
        proof {
            lemma_first_index(self.workspace_sets@, test, i as int);
        }
        None
    }

    pub fn find_workspace(&self, id: WorkspaceId) -> (r: Option<&Workspace>)
        ensures
            match r {
                Some(workspace) => self.workspace(id) == Some(*workspace),
                None => self.workspace(id) is None,
            },
    {
        let ghost test = |workspace: Workspace| workspace.id == id;
        let mut i: usize = 0;
        while i < self.workspaces.len()
            invariant
                i <= self.workspaces.len(),
                test == (|workspace: Workspace| workspace.id == id),
                forall|j: int| 0 <= j < i ==> !test(#[trigger] self.workspaces@[j]),
            decreases self.workspaces.len() - i,
        {
            if self.workspaces[i].id == id {
                proof {
                    lemma_first_index(self.workspaces@, test, i as int);
                }
                return Some(&self.workspaces[i]);
            }
            i = i + 1;
        }
        proof {
            lemma_first_index(self.workspaces@, test, i as int);
        }
        None
    }

    pub fn find_column(&self, id: ColumnId) -> (r: Option<&Column>)
        ensures
            match r {
                Some(column) => self.column(id) == Some(*column),
                None => self.column(id) is None,
            },
    {
        let ghost test = |column: Column| column.id == id;
        let mut i: usize = 0;
        while i < self.columns.len()
            invariant
                i <= self.columns.len(),
                test == (|column: Column| column.id == id),
                forall|j: int| 0 <= j < i ==> !test(#[trigger] self.columns@[j]),
            decreases self.columns.len() - i,
        {
            if self.columns[i].id == id {
                proof {
                    lemma_first_index(self.columns@, test, i as int);
                }
                return Some(&self.columns[i]);
            }
            i = i + 1;
        }
        proof {
            lemma_first_index(self.columns@, test, i as int);
        }
        None
    }

    pub fn find_window(&self, id: WindowId) -> (r: Option<WindowNode>)
        ensures
            r == self.window(id),
    {
        let ghost test = |window: WindowNode| window.id == id;
        let mut i: usize = 0;
        while i < self.windows.len()
            invariant
                i <= self.windows.len(),
                test == (|window: WindowNode| window.id == id),
                forall|j: int| 0 <= j < i ==> !test(#[trigger] self.windows@[j]),
            decreases self.windows.len() - i,
        {
            if self.windows[i].id == id {
                proof {
                    lemma_first_index(self.windows@, test, i as int);
                }
                return Some(self.windows[i]);
            }
            i = i + 1;
        }
        proof {
            lemma_first_index(self.windows@, test, i as int);
        }
        None
    }
}

/// The layout of a workspace among those that the engine was asked for.
pub open spec fn layout_of(layouts: Seq<WorkspaceLayout>, id: WorkspaceId) -> Result<
    WorkspaceLayoutProjection,
    LayoutError,
> {
    match first_where(layouts, |layout: WorkspaceLayout| layout.id() == id) {
        Some(WorkspaceLayout::Computed(layout)) => Ok(layout),
        Some(WorkspaceLayout::Failed { failure, .. }) => Err(LayoutError::Engine { failure }),
        None => Err(LayoutError::UnknownWorkspace(id)),
    }
}

/// Finds the layout of a workspace, or why it has none.
pub fn recompute_workspace(layouts: &Vec<WorkspaceLayout>, id: WorkspaceId) -> (r: Result<
    &WorkspaceLayoutProjection,
    LayoutError,
>)
    ensures
        layout_of(layouts@, id) == (match r {
            Ok(layout) => Ok(*layout),
            Err(error) => Err(error),
        }),
{
    let ghost test = |layout: WorkspaceLayout| layout.id() == id;
    let mut i: usize = 0;
    while i < layouts.len()
        invariant
            i <= layouts.len(),
            test == (|layout: WorkspaceLayout| layout.id() == id),
            forall|j: int| 0 <= j < i ==> !test(#[trigger] layouts@[j]),
        decreases layouts.len() - i,
    {
        if layouts[i].workspace_id() == id {
            proof {
                lemma_first_index(layouts@, test, i as int);
            }
            return match &layouts[i] {
                WorkspaceLayout::Computed(layout) => Ok(layout),
                WorkspaceLayout::Failed { failure, .. } => Err(
                    LayoutError::Engine { failure: *failure },
                ),
            };
        }
        i = i + 1;
    }
    proof {
        lemma_first_index(layouts@, test, i as int);
    }
    Err(LayoutError::UnknownWorkspace(id))
}

/// Where identifiers are unique, looking an object up by the identifier of a listed one
/// finds that one.
pub proof fn law_lookup_finds_the_listed_object(state: WmState, i: int)
    requires
        state.wf(),
    ensures
        0 <= i < state.windows@.len() ==> state.window(state.windows@[i].id) == Some(
            state.windows@[i],
        ),
        0 <= i < state.monitors@.len() ==> state.monitor(state.monitors@[i].id) == Some(
            state.monitors@[i],
        ),
        0 <= i < state.workspaces@.len() ==> state.workspace(state.workspaces@[i].id) == Some(
            state.workspaces@[i],
        ),
{
    if 0 <= i < state.windows@.len() {
        let id = state.windows@[i].id;
        lemma_first_index(state.windows@, |window: WindowNode| window.id == id, i);
    }
    if 0 <= i < state.monitors@.len() {
        let id = state.monitors@[i].id;
        lemma_first_index(state.monitors@, |monitor: Monitor| monitor.id == id, i);
    }
    if 0 <= i < state.workspaces@.len() {
        let id = state.workspaces@[i].id;
        lemma_first_index(state.workspaces@, |workspace: Workspace| workspace.id == id, i);
    }
}

/// What is looked up has the identifier that was asked for, and nothing is found only where
/// nothing of that kind has it.
pub proof fn law_lookup_goes_by_the_identifier(
    state: WmState,
    window_id: WindowId,
    monitor_id: MonitorId,
    workspace_id: WorkspaceId,
    set_id: WorkspaceSetId,
    column_id: ColumnId,
)
    ensures
        match state.window(window_id) {
            Some(window) => window.id == window_id && state.windows@.contains(window),
            None => forall|i: int|
                0 <= i < state.windows@.len() ==> (#[trigger] state.windows@[i]).id != window_id,
        },
        match state.monitor(monitor_id) {
            Some(monitor) => monitor.id == monitor_id && state.monitors@.contains(monitor),
            None => forall|i: int|
                0 <= i < state.monitors@.len() ==> (#[trigger] state.monitors@[i]).id
                    != monitor_id,
        },
        match state.workspace(workspace_id) {
            Some(workspace) => workspace.id == workspace_id && state.workspaces@.contains(
                workspace,
            ),
            None => forall|i: int|
                0 <= i < state.workspaces@.len() ==> (#[trigger] state.workspaces@[i]).id
                    != workspace_id,
        },
        match state.workspace_set(set_id) {
            Some(set) => set.id == set_id && state.workspace_sets@.contains(set),
            None => forall|i: int|
                0 <= i < state.workspace_sets@.len() ==> (#[trigger] state.workspace_sets@[i]).id
                    != set_id,
        },
        match state.column(column_id) {
            Some(column) => column.id == column_id && state.columns@.contains(column),
            None => forall|i: int|
                0 <= i < state.columns@.len() ==> (#[trigger] state.columns@[i]).id != column_id,
        },
{
    let by_window = |window: WindowNode| window.id == window_id;
    let by_monitor = |monitor: Monitor| monitor.id == monitor_id;
    let by_workspace = |workspace: Workspace| workspace.id == workspace_id;
    let by_set = |set: WorkspaceSet| set.id == set_id;
    let by_column = |column: Column| column.id == column_id;
    lemma_first_index_holds(state.windows@, by_window);
    lemma_first_index_holds(state.monitors@, by_monitor);
    lemma_first_index_holds(state.workspaces@, by_workspace);
    lemma_first_index_holds(state.workspace_sets@, by_set);
    lemma_first_index_holds(state.columns@, by_column);
    assert forall|i: int|
        0 <= i < state.windows@.len() && state.window(window_id) is None implies (
    #[trigger] state.windows@[i]).id != window_id by {
        assert(!by_window(state.windows@[i]));
    }
    assert forall|i: int|
        0 <= i < state.monitors@.len() && state.monitor(monitor_id) is None implies (
    #[trigger] state.monitors@[i]).id != monitor_id by {
        assert(!by_monitor(state.monitors@[i]));
    }
    assert forall|i: int|
        0 <= i < state.workspaces@.len() && state.workspace(workspace_id) is None implies (
    #[trigger] state.workspaces@[i]).id != workspace_id by {
        assert(!by_workspace(state.workspaces@[i]));
    }
    assert forall|i: int|
        0 <= i < state.workspace_sets@.len() && state.workspace_set(set_id) is None implies (
    #[trigger] state.workspace_sets@[i]).id != set_id by {
        assert(!by_set(state.workspace_sets@[i]));
    }
    assert forall|i: int|
        0 <= i < state.columns@.len() && state.column(column_id) is None implies (
    #[trigger] state.columns@[i]).id != column_id by {
        assert(!by_column(state.columns@[i]));
    }
}

/// The layout of a workspace is the first one that was made for it; where that one failed its
/// number is reported, and where there is none the workspace is.
pub proof fn law_layouts_belong_to_their_workspace(
    layouts: Seq<WorkspaceLayout>,
    id: WorkspaceId,
    i: int,
)
    ensures
        match layout_of(layouts, id) {
            Ok(layout) => layout.workspace_id == id && layouts.contains(
                WorkspaceLayout::Computed(layout),
            ),
            Err(LayoutError::Engine { failure }) => layouts.contains(
                WorkspaceLayout::Failed { workspace_id: id, failure },
            ),
            Err(LayoutError::UnknownWorkspace(unknown)) => unknown == id,
        },
        0 <= i < layouts.len() && (forall|j: int|
            0 <= j < i ==> !((#[trigger] layouts[j]) matches WorkspaceLayout::Computed(layout)
                && layout.workspace_id == id) && !(layouts[j] matches WorkspaceLayout::Failed {
                workspace_id,
                ..
            } && workspace_id == id)) ==> {
            &&& layouts[i] matches WorkspaceLayout::Computed(layout) ==> (layout.workspace_id == id
                ==> layout_of(layouts, id) == Ok::<WorkspaceLayoutProjection, LayoutError>(layout))
            &&& layouts[i] matches WorkspaceLayout::Failed { workspace_id, failure } ==> (
            workspace_id == id ==> layout_of(layouts, id) == Err::<
                WorkspaceLayoutProjection,
                LayoutError,
            >(LayoutError::Engine { failure }))
        },
        layout_of(layouts, id) == Err::<WorkspaceLayoutProjection, LayoutError>(
            LayoutError::UnknownWorkspace(id),
        ) <==> forall|j: int| 0 <= j < layouts.len() ==> (#[trigger] layouts[j]).id() != id,
{
    let by_id = |layout: WorkspaceLayout| layout.id() == id;
    lemma_first_index_holds(layouts, by_id);
    let at = first_index(layouts, by_id);
    assert forall|j: int| 0 <= j < at implies (#[trigger] layouts[j]).id() != id by {
        assert(!by_id(layouts[j]));
    }
    if 0 <= i < layouts.len() && layouts[i].id() == id && (forall|j: int|
        0 <= j < i ==> (#[trigger] layouts[j]).id() != id) {
        lemma_first_index(layouts, by_id, i);
    }
    if 0 <= i < layouts.len() && (forall|j: int|
        0 <= j < i ==> !((#[trigger] layouts[j]) matches WorkspaceLayout::Computed(layout)
            && layout.workspace_id == id) && !(layouts[j] matches WorkspaceLayout::Failed {
            workspace_id,
            ..
        } && workspace_id == id)) {
        assert forall|j: int| 0 <= j < i implies (#[trigger] layouts[j]).id() != id by {}
    }
}

} // verus!
