//! The bars beside a tabbed column, one for each of its windows.

use crate::arith::{
    clamp_to_i32, div_i64, extent_to_i32, max_i32, saturating_add_i32, saturating_mul_i32,
    saturating_sub_i32,
};
use crate::geometry::{rect_right, Rect};
use crate::ids::{ColumnId, WindowId};
use crate::overview_surface::controller::OverviewSyncKey;
use crate::win32::win32_extent;
use crate::wm_state::{
    recompute_workspace, Column, ColumnMode, LayoutError, Monitor, WindowGeometryProjection,
    WmState, WorkspaceLayout,
};
use vstd::prelude::*;

verus! {

use crate::arith::{clamp_i32, div_toward_zero, max_int, min_int};
use crate::win32::{pixel_height, pixel_width};
use crate::wm_state::layout_of;

pub const INDICATOR_WIDTH_PX: u32 = 6;

pub const INDICATOR_SIDE_INSET_PX: i32 = 10;

pub const INDICATOR_GAP_PX: i32 = 4;

pub const MIN_SEGMENT_HEIGHT_PX: i32 = 6;

#[derive(Clone, Copy, Debug, PartialEq, Eq, Structural)]
pub enum IndicatorKind {
    Active,
    Inactive,
}

/// One bar.
#[derive(Clone, Copy, Debug, PartialEq, Eq, Structural)]
pub struct TabIndicatorSegment {
    pub rect: Rect,
    pub kind: IndicatorKind,
}

/// A number of tabs, as far as it fits a coordinate.
pub open spec fn tab_count(count: int) -> int {
    min_int(count, i32::MAX as int)
}

fn count_to_i32(count: usize) -> (r: i32)
    ensures
        r == tab_count(count as int),
{
    if count > 0x7fff_ffff {
        i32::MAX
    } else {
        count as i32
    }
}

/// The gap between two bars: four pixels, or what is left beside bars of the least height,
/// but at least one pixel where not even those fit.
pub open spec fn gap_of(total_height: int, count: int) -> int {
    if count <= 1 {
        0
    } else {
        let remaining = clamp_i32(
            total_height - clamp_i32(MIN_SEGMENT_HEIGHT_PX * tab_count(count)),
        );
        if remaining <= 0 {
            1
        } else {
            min_int(INDICATOR_GAP_PX as int, remaining / tab_count(count - 1))
        }
    }
}

pub fn compute_gap(total_height: i32, count: usize) -> (r: i32)
    ensures
        r == gap_of(total_height as int, count as int),
{
    if count <= 1 {
        return 0;
    }
    let minimum_required: i32 = clamp_to_i32(
        MIN_SEGMENT_HEIGHT_PX as i64 * count_to_i32(count) as i64,
    );
    let remaining: i32 = saturating_sub_i32(total_height, minimum_required);
    if remaining <= 0 {
        return 1;
    }
    let share: i64 = div_i64(remaining as i64, count_to_i32(count - 1) as i64);
    if share < INDICATOR_GAP_PX as i64 {
        share as i32
    } else {
        INDICATOR_GAP_PX
    }
}

/// How the height of a column is shared out among its bars.
pub ghost struct BarHeights {
    pub gap: int,
    pub base: int,
    /// The first so many bars are one pixel higher.
    pub remainder: int,
}

pub open spec fn bar_heights(total_height: int, count: int) -> BarHeights {
    let gap = gap_of(total_height, count);
    let available = clamp_i32(total_height - clamp_i32(gap * tab_count(count - 1)));
    let base = max_int(
        div_toward_zero(available, tab_count(count)),
        MIN_SEGMENT_HEIGHT_PX as int,
    );
    BarHeights {
        gap,
        base,
        remainder: clamp_i32(available - clamp_i32(base * tab_count(count))),
    }
}

impl BarHeights {
    pub open spec fn height(self, index: int) -> int {
        if index < self.remainder {
            clamp_i32(self.base + 1)
        } else {
            self.base
        }
    }

    /// Where a bar starts, below those before it.
    pub open spec fn top(self, start: int, index: nat) -> int
        decreases index,
    {
        if index == 0 {
            start
        } else {
            let above = (index - 1) as nat;
            clamp_i32(clamp_i32(self.top(start, above) + self.height(above as int)) + self.gap)
        }
    }
}

/// The bars of a column, from the top down; the selected window's is marked.
pub open spec fn column_bars(
    column_rect: Rect,
    windows: Seq<WindowId>,
    selected: WindowId,
) -> Seq<TabIndicatorSegment> {
    if windows.len() < 2 {
        Seq::empty()
    } else {
        let heights = bar_heights(
            min_int(column_rect.height as int, i32::MAX as int),
            windows.len() as int,
        );
        let x = clamp_i32(
            clamp_i32(column_rect.right() - INDICATOR_SIDE_INSET_PX) - INDICATOR_WIDTH_PX,
        );
        Seq::new(
            windows.len(),
            |i: int|
                TabIndicatorSegment {
                    rect: Rect {
                        x: x as i32,
                        y: heights.top(column_rect.y as int, i as nat) as i32,
                        width: INDICATOR_WIDTH_PX,
                        height: heights.height(i) as u32,
                    },
                    kind: if windows[i] == selected {
                        IndicatorKind::Active
                    } else {
                        IndicatorKind::Inactive
                    },
                },
        )
    }
}

pub fn build_column_segments(
    column_rect: Rect,
    ordered_window_ids: &[WindowId],
    selected_window_id: WindowId,
) -> (r: Vec<TabIndicatorSegment>)
    ensures
        r@ == column_bars(column_rect, ordered_window_ids@, selected_window_id),
{
    let count: usize = ordered_window_ids.len();
    let mut segments: Vec<TabIndicatorSegment> = Vec::new();
    if count < 2 {
        return segments;
    }
    let ghost expected = column_bars(column_rect, ordered_window_ids@, selected_window_id);
    let total_height: i32 = extent_to_i32(column_rect.height);
    let gap: i32 = compute_gap(total_height, count);
    let available_height: i32 = saturating_sub_i32(
        total_height,
        saturating_mul_i32(gap, count_to_i32(count - 1)),
    );
    let share: i64 = div_i64(available_height as i64, count_to_i32(count) as i64);
    let base_height: i32 = max_i32(share as i32, MIN_SEGMENT_HEIGHT_PX);
    let remainder: i32 = saturating_sub_i32(
        available_height,
        saturating_mul_i32(base_height, count_to_i32(count)),
    );
    let x: i32 = saturating_sub_i32(
        saturating_sub_i32(rect_right(column_rect), INDICATOR_SIDE_INSET_PX),
        INDICATOR_WIDTH_PX as i32,
    );
    let ghost heights = bar_heights(total_height as int, count as int);
    let mut y: i32 = column_rect.y;
    let mut index: usize = 0;
    while index < count
        invariant
            count == ordered_window_ids.len(),
            count >= 2,
            index <= count,
            segments.len() == index,
            heights == bar_heights(
                min_int(column_rect.height as int, i32::MAX as int),
                count as int,
            ),
            gap == heights.gap,
            base_height == heights.base,
            remainder == heights.remainder,
            base_height >= MIN_SEGMENT_HEIGHT_PX,
            x == clamp_i32(
                clamp_i32(column_rect.right() - INDICATOR_SIDE_INSET_PX) - INDICATOR_WIDTH_PX,
            ),
            y == heights.top(column_rect.y as int, index as nat),
            expected == column_bars(column_rect, ordered_window_ids@, selected_window_id),
            forall|j: int| 0 <= j < index ==> segments@[j] == expected[j],
        decreases count - index,
    {
        let height: i32 = if (index as i128) < remainder as i128 {
            saturating_add_i32(base_height, 1)
        } else {
            base_height
        };
        let kind: IndicatorKind = if ordered_window_ids[index] == selected_window_id {
            IndicatorKind::Active
        } else {
            IndicatorKind::Inactive
        };
        segments.push(
            TabIndicatorSegment {
                rect: Rect::new(x, y, INDICATOR_WIDTH_PX, height as u32),
                kind,
            },
        );
        y = saturating_add_i32(saturating_add_i32(y, height), gap);
        index = index + 1;
    }
    assert(segments@ =~= expected);
    segments
}

/// Where the layout puts a window; of several places the last counts.
pub open spec fn placed_at(
    geometries: Seq<WindowGeometryProjection>,
    id: WindowId,
) -> Option<Rect>
    decreases geometries.len(),
{
    if geometries.len() == 0 {
        None
    } else if geometries.last().window_id == id {
        Some(geometries.last().rect)
    } else {
        placed_at(geometries.drop_last(), id)
    }
}

fn find_placed_at(geometries: &Vec<WindowGeometryProjection>, id: WindowId) -> (r: Option<Rect>)
    ensures
        r == placed_at(geometries@, id),
{
    let mut i: usize = geometries.len();
    assert(geometries@.take(i as int) =~= geometries@);
    while i > 0
        invariant
            i <= geometries.len(),
            placed_at(geometries@, id) == placed_at(geometries@.take(i as int), id),
        decreases i,
    {
        assert(geometries@.take(i as int).drop_last() =~= geometries@.take(i - 1));
        i = i - 1;
        if geometries[i].window_id == id {
            return Some(geometries[i].rect);
        }
    }
    None
}

/// The window of a column that its tabs show: the selected one, else the active one, else
/// the first.
pub open spec fn shown_tab(column: Column) -> Option<WindowId> {
    match column.tab_selection {
        Some(id) => Some(id),
        None => match column.active_window_id {
            Some(id) => Some(id),
            None => if column.ordered_window_ids@.len() > 0 {
                Some(column.ordered_window_ids@[0])
            } else {
                None
            },
        },
    }
}

fn find_shown_tab(column: &Column) -> (r: Option<WindowId>)
    ensures
        r == shown_tab(*column),
{
    match column.tab_selection {
        Some(id) => Some(id),
        None => match column.active_window_id {
            Some(id) => Some(id),
            None => if column.ordered_window_ids.len() > 0 {
                Some(column.ordered_window_ids[0])
            } else {
                None
            },
        },
    }
}

/// The bars of a column of a workspace: only a tabbed column of two or more windows has any.
pub open spec fn bars_of_column(
    state: WmState,
    geometries: Seq<WindowGeometryProjection>,
    id: ColumnId,
) -> Seq<TabIndicatorSegment> {
    match state.column(id) {
        None => Seq::empty(),
        Some(column) => if !(column.mode is Tabbed) || column.ordered_window_ids@.len() < 2 {
            Seq::empty()
        } else {
            match placed_at(geometries, shown_tab(column)->0) {
                None => Seq::empty(),
                Some(rect) => column_bars(
                    rect,
                    column.ordered_window_ids@,
                    shown_tab(column)->0,
                ),
            }
        },
    }
}

fn build_bars_of_column(
    state: &WmState,
    geometries: &Vec<WindowGeometryProjection>,
    id: ColumnId,
) -> (r: Vec<TabIndicatorSegment>)
    ensures
        r@ == bars_of_column(*state, geometries@, id),
{
    let column: &Column = match state.find_column(id) {
        Some(column) => column,
        None => {
            return Vec::new();
        },
    };
    if column.mode != ColumnMode::Tabbed || column.ordered_window_ids.len() < 2 {
        return Vec::new();
    }
    let selected: WindowId = match find_shown_tab(column) {
        Some(id) => id,
        None => {
            return Vec::new();
        },
    };
    match find_placed_at(geometries, selected) {
        Some(rect) => build_column_segments(rect, &column.ordered_window_ids, selected),
        None => Vec::new(),
    }
}

/// The bars of the columns of a workspace, in their order.
pub open spec fn bars_of_columns(
    state: WmState,
    geometries: Seq<WindowGeometryProjection>,
    ids: Seq<ColumnId>,
) -> Seq<TabIndicatorSegment>
    decreases ids.len(),
{
    if ids.len() == 0 {
        Seq::empty()
    } else {
        bars_of_columns(state, geometries, ids.drop_last()) + bars_of_column(
            state,
            geometries,
            ids.last(),
        )
    }
}

/// The bars of the active workspaces of the first `n` monitors. A workspace without a layout
/// spoils the whole.
pub open spec fn bars_of_monitors(
    state: WmState,
    layouts: Seq<WorkspaceLayout>,
    n: nat,
) -> Result<Seq<TabIndicatorSegment>, LayoutError>
    decreases n,
{
    if n == 0 {
        Ok(Seq::empty())
    } else {
        match bars_of_monitors(state, layouts, (n - 1) as nat) {
            Err(error) => Err(error),
            Ok(rest) => match state.monitors@[n - 1].active_workspace_id {
                None => Ok(rest),
                Some(id) => match state.workspace(id) {
                    None => Ok(rest),
                    Some(workspace) => match layout_of(layouts, id) {
                        Err(error) => Err(error),
                        Ok(layout) => Ok(
                            rest + bars_of_columns(
                                state,
                                layout.window_geometries@,
                                workspace.ordered_column_ids@,
                            ),
                        ),
                    },
                },
            },
        }
    }
}

/// All bars on the screen; an open overview hides them.
pub open spec fn tab_bars(
    state: WmState,
    layouts: Seq<WorkspaceLayout>,
) -> Result<Seq<TabIndicatorSegment>, LayoutError> {
    if state.overview.is_open {
        Ok(Seq::empty())
    } else {
        bars_of_monitors(state, layouts, state.monitors@.len())
    }
}

pub open spec fn segments_result_view(
    result: Result<Vec<TabIndicatorSegment>, LayoutError>,
) -> Result<Seq<TabIndicatorSegment>, LayoutError> {
    match result {
        Ok(segments) => Ok(segments@),
        Err(error) => Err(error),
    }
}

proof fn lemma_bars_error_stays(
    state: WmState,
    layouts: Seq<WorkspaceLayout>,
    n: nat,
    m: nat,
)
    requires
        n <= m,
        bars_of_monitors(state, layouts, n) is Err,
    ensures
        bars_of_monitors(state, layouts, m) == bars_of_monitors(state, layouts, n),
    decreases m,
{
    if n < m {
        lemma_bars_error_stays(state, layouts, n, (m - 1) as nat);
    }
}

fn push_bars_of_columns(
    segments: &mut Vec<TabIndicatorSegment>,
    state: &WmState,
    geometries: &Vec<WindowGeometryProjection>,
    ids: &Vec<ColumnId>,
)
    ensures
        final(segments)@ == old(segments)@ + bars_of_columns(*state, geometries@, ids@),
{
    let ghost before = segments@;
    let mut i: usize = 0;
    assert(ids@.take(0) =~= Seq::empty());
    assert(before + Seq::empty() =~= before);
    while i < ids.len()
        invariant
            i <= ids.len(),
            segments@ == before + bars_of_columns(*state, geometries@, ids@.take(i as int)),
        decreases ids.len() - i,
    {
        assert(ids@.take(i + 1).drop_last() =~= ids@.take(i as int));
        let mut more: Vec<TabIndicatorSegment> = build_bars_of_column(state, geometries, ids[i]);
        segments.append(&mut more);
        assert(segments@ =~= before + bars_of_columns(*state, geometries@, ids@.take(i + 1)));
        i = i + 1;
    }
    assert(ids@.take(i as int) =~= ids@);
}

pub fn build_tab_indicator_segments(
    state: &WmState,
    layouts: &Vec<WorkspaceLayout>,
) -> (r: Result<Vec<TabIndicatorSegment>, LayoutError>)
    ensures
        segments_result_view(r) == tab_bars(*state, layouts@),
{
    let mut segments: Vec<TabIndicatorSegment> = Vec::new();
    if state.overview.is_open {
        return Ok(segments);
    }
    let mut i: usize = 0;
    while i < state.monitors.len()
        invariant
            i <= state.monitors.len(),
            !state.overview.is_open,
            bars_of_monitors(*state, layouts@, i as nat) == Ok::<
                Seq<TabIndicatorSegment>,
                LayoutError,
            >(segments@),
        decreases state.monitors.len() - i,
    {
        let monitor: Monitor = state.monitors[i];
        if let Some(workspace_id) = monitor.active_workspace_id {
            if let Some(workspace) = state.find_workspace(workspace_id) {
                match recompute_workspace(layouts, workspace_id) {
                    Ok(layout) => {
                        push_bars_of_columns(
                            &mut segments,
                            state,
                            &layout.window_geometries,
                            &workspace.ordered_column_ids,
                        );
                    },
                    Err(error) => {
                        proof {
                            assert(bars_of_monitors(*state, layouts@, (i + 1) as nat) is Err);
                            lemma_bars_error_stays(
                                *state,
                                layouts@,
                                (i + 1) as nat,
                                state.monitors@.len(),
                            );
                        }
                        return Err(error);
                    },
                }
            }
        }
        i = i + 1;
    }
    Ok(segments)
}

/// Follows the window manager's state by the version that was looked at last.
#[derive(Clone, Copy, Debug, PartialEq, Eq, Structural)]
pub struct TabIndicatorController {
    pub last_key: Option<OverviewSyncKey>,
}

impl TabIndicatorController {
    pub fn new() -> (r: TabIndicatorController)
        ensures
            r.last_key is None,
    {
        TabIndicatorController { last_key: None }
    }

    /// The bars that the surface has to show; none where the version was dealt with already.
    /// Windows that are not managed have no bars.
    pub fn sync(
        &self,
        state: &WmState,
        layouts: &Vec<WorkspaceLayout>,
        management_enabled: bool,
    ) -> (r: Result<Option<Vec<TabIndicatorSegment>>, LayoutError>)
        ensures
            ({
                let known = self.last_key == Some(
                    OverviewSyncKey { state_version: state.state_version, management_enabled },
                );
                match r {
                    Ok(None) => known,
                    Ok(Some(segments)) => !known && (if management_enabled {
                        tab_bars(*state, layouts@) == Ok::<Seq<TabIndicatorSegment>, LayoutError>(
                            segments@,
                        )
                    } else {
                        segments@ == Seq::<TabIndicatorSegment>::empty()
                    }),
                    Err(error) => !known && management_enabled && tab_bars(*state, layouts@) == Err::<
                        Seq<TabIndicatorSegment>,
                        LayoutError,
                    >(error),
                }
            }),
    {
        if let Some(last) = self.last_key {
            if last.state_version == state.state_version && last.management_enabled
                == management_enabled {
                return Ok(None);
            }
        }
        if !management_enabled {
            return Ok(Some(Vec::new()));
        }
        match build_tab_indicator_segments(state, layouts) {
            Ok(segments) => Ok(Some(segments)),
            Err(error) => Err(error),
        }
    }

    /// The surface shows the bars of this version now.
    pub fn finish_sync(&mut self, state: &WmState, management_enabled: bool)
        ensures
            final(self).last_key == Some(
                OverviewSyncKey { state_version: state.state_version, management_enabled },
            ),
    {
        self.last_key = Some(
            OverviewSyncKey { state_version: state.state_version, management_enabled },
        );
    }
}

/// A window that shows a bar; zero where it has not been created.
#[derive(Clone, Copy, Debug, PartialEq, Eq, Structural)]
pub struct IndicatorWindow {
    pub hwnd: isize,
    pub kind: IndicatorKind,
}

/// What has to be done for one bar.
#[derive(Clone, Copy, Debug, PartialEq, Eq, Structural)]
pub struct IndicatorStep {
    /// The window of the wrong kind that stands in the bar's place.
    pub destroy: Option<isize>,
    /// The kind of window to create first.
    pub create: Option<IndicatorKind>,
    pub rect: Rect,
}

/// The windows of one kind cannot show bars of the other.
pub open spec fn indicator_step(
    windows: Seq<IndicatorWindow>,
    index: int,
    segment: TabIndicatorSegment,
) -> IndicatorStep {
    let exists = index < windows.len() && windows[index].hwnd != 0;
    let fits = exists && windows[index].kind == segment.kind;
    IndicatorStep {
        destroy: if exists && !fits {
            Some(windows[index].hwnd)
        } else {
            None
        },
        create: if fits {
            None
        } else {
            Some(segment.kind)
        },
        rect: segment.rect,
    }
}

/// What has to be done so that the windows show the bars.
pub fn plan_indicator_windows(
    windows: &Vec<IndicatorWindow>,
    segments: &Vec<TabIndicatorSegment>,
) -> (r: Vec<IndicatorStep>)
    ensures
        r@ == Seq::new(segments@.len(), |i: int| indicator_step(windows@, i, segments@[i])),
{
    let mut steps: Vec<IndicatorStep> = Vec::new();
    let mut i: usize = 0;
    while i < segments.len()
        invariant
            i <= segments.len(),
            steps.len() == i,
            forall|j: int|
                0 <= j < i ==> steps@[j] == indicator_step(windows@, j, segments@[j]),
        decreases segments.len() - i,
    {
        let segment: TabIndicatorSegment = segments[i];
        let exists: bool = i < windows.len() && windows[i].hwnd != 0;
        let fits: bool = exists && windows[i].kind == segment.kind;
        steps.push(
            IndicatorStep {
                destroy: if exists && !fits {
                    Some(windows[i].hwnd)
                } else {
                    None
                },
                create: if fits {
                    None
                } else {
                    Some(segment.kind)
                },
                rect: segment.rect,
            },
        );
        i = i + 1;
    }
    assert(steps@ =~= Seq::new(
        segments@.len(),
        |i: int| indicator_step(windows@, i, segments@[i]),
    ));
    steps
}

/// The windows that have no bar to show and are hidden.
pub open spec fn spare_windows(windows: Seq<IndicatorWindow>, used: int) -> Seq<isize>
    decreases windows.len(),
{
    if windows.len() <= used || windows.len() == 0 {
        Seq::empty()
    } else {
        let rest = spare_windows(windows.drop_last(), used);
        if windows.last().hwnd != 0 {
            rest.push(windows.last().hwnd)
        } else {
            rest
        }
    }
}

pub fn spare_indicator_windows(windows: &Vec<IndicatorWindow>, used: usize) -> (r: Vec<isize>)
    ensures
        r@ == spare_windows(windows@, used as int),
{
    let mut spare: Vec<isize> = Vec::new();
    if used >= windows.len() {
        return spare;
    }
    let mut i: usize = used;
    while i < windows.len()
        invariant
            used <= i <= windows.len(),
            spare@ == spare_windows(windows@.take(i as int), used as int),
        decreases windows.len() - i,
    {
        assert(windows@.take(i + 1).drop_last() =~= windows@.take(i as int));
        if windows[i].hwnd != 0 {
            spare.push(windows[i].hwnd);
        }
        i = i + 1;
    }
    assert(windows@.take(i as int) =~= windows@);
    spare
}

/// The size of a bar's window.
pub fn indicator_extent(rect: Rect) -> (r: Result<(i32, i32), String>)
    ensures
        match r {
            Ok((width, height)) => width == pixel_width(rect) && height == pixel_height(rect),
            Err(text) => text@ == (if pixel_width(rect) > i32::MAX {
                "tab indicator width overflowed"@
            } else {
                "tab indicator height overflowed"@
            }),
        },
        r is Ok <==> pixel_width(rect) <= i32::MAX && pixel_height(rect) <= i32::MAX,
{
    win32_extent(rect, "tab indicator width overflowed", "tab indicator height overflowed")
}

/// An open overview hides the bars.
pub proof fn law_overview_hides_the_bars(state: WmState, layouts: Seq<WorkspaceLayout>)
    requires
        state.overview.is_open,
    ensures
        tab_bars(state, layouts) == Ok::<Seq<TabIndicatorSegment>, LayoutError>(Seq::empty()),
{
}

/// A column of two or more windows has one bar for each, in their order, and exactly those of
/// the selected window are marked.
pub proof fn law_each_tab_has_a_bar(
    column_rect: Rect,
    windows: Seq<WindowId>,
    selected: WindowId,
    i: int,
)
    requires
        windows.len() >= 2,
        0 <= i < windows.len(),
    ensures
        column_bars(column_rect, windows, selected).len() == windows.len(),
        column_bars(column_rect, windows, selected)[i].kind is Active <==> windows[i] == selected,
        column_bars(column_rect, windows, selected)[i].rect.width == INDICATOR_WIDTH_PX,
{
}

/// How the height is shared out where bars of the least height and a gap fit.
proof fn lemma_heights_add_up(total: int, count: int)
    requires
        2 <= count <= i32::MAX,
        MIN_SEGMENT_HEIGHT_PX * count < total <= i32::MAX,
    ensures
        ({
            let heights = bar_heights(total, count);
            &&& 0 <= heights.gap <= INDICATOR_GAP_PX
            &&& MIN_SEGMENT_HEIGHT_PX <= heights.base <= total
            &&& 0 <= heights.remainder < count
            &&& count * heights.base + heights.remainder + (count - 1) * heights.gap == total
        }),
{
    let remaining = total - MIN_SEGMENT_HEIGHT_PX * count;
    let gap = gap_of(total, count);
    assert(0 <= remaining / (count - 1)) by (nonlinear_arith)
        requires
            remaining > 0,
            count >= 2,
    ;
    assert(remaining / (count - 1) * (count - 1) <= remaining) by (nonlinear_arith)
        requires
            remaining > 0,
            count >= 2,
    ;
    let share = remaining / (count - 1);
    assert(0 <= gap * (count - 1) <= share * (count - 1)) by (nonlinear_arith)
        requires
            0 <= gap <= share,
            count >= 2,
    ;
    let available = total - gap * (count - 1);
    assert(available >= 6 * count);
    let base = available / count;
    assert(6 <= base && base * count <= available < (base + 1) * count) by (nonlinear_arith)
        requires
            base == available / count,
            available >= 6 * count,
            count >= 2,
    ;
    assert(base <= available) by (nonlinear_arith)
        requires
            base * count <= available,
            base >= 6,
            count >= 2,
    ;
    assert((base + 1) * count == base * count + count) by (nonlinear_arith);
    assert(count * base == base * count) by (nonlinear_arith);
    assert((count - 1) * gap == gap * (count - 1)) by (nonlinear_arith);
}

proof fn lemma_bar_tops(total: int, count: int, start: int, i: nat)
    requires
        2 <= count <= i32::MAX,
        MIN_SEGMENT_HEIGHT_PX * count < total <= i32::MAX,
        i32::MIN <= start,
        start + total <= i32::MAX,
        i < count,
    ensures
        ({
            let heights = bar_heights(total, count);
            &&& heights.top(start, i) == start + i * (heights.base + heights.gap) + min_int(
                i as int,
                heights.remainder,
            )
            &&& heights.top(start, i) + heights.height(i as int) <= start + total
        }),
    decreases i,
{
    let heights = bar_heights(total, count);
    lemma_heights_add_up(total, count);
    let step = heights.base + heights.gap;
    if i == 0 {
        assert(0 * step == 0) by (nonlinear_arith);
    } else {
        let above = (i - 1) as nat;
        lemma_bar_tops(total, count, start, above);
        assert(i * step == above * step + step) by (nonlinear_arith)
            requires
                i == above + 1,
        ;
    }
    assert(i * step + heights.base <= (count - 1) * step + heights.base) by (nonlinear_arith)
        requires
            i <= count - 1,
            step >= 0,
    ;
    assert((count - 1) * step + heights.base == count * heights.base + (count - 1) * heights.gap)
        by (nonlinear_arith)
        requires
            step == heights.base + heights.gap,
    ;
    if i > 0 {
        let above = (i - 1) as nat;
        assert(above * step + step + heights.base <= count * heights.base + (count - 1)
            * heights.gap) by (nonlinear_arith)
            requires
                i * step + heights.base <= count * heights.base + (count - 1) * heights.gap,
                i * step == above * step + step,
        ;
    }
}

/// Where bars of the least height fit, the bars fill their column: the first starts at its
/// top, the last ends at its bottom, one pixel in height is the most that any two differ by,
/// and the gaps between them are equal.
pub proof fn law_bars_fill_the_column(
    column_rect: Rect,
    windows: Seq<WindowId>,
    selected: WindowId,
    i: int,
)
    requires
        2 <= windows.len() <= i32::MAX,
        MIN_SEGMENT_HEIGHT_PX * windows.len() < column_rect.height <= i32::MAX,
        column_rect.y + column_rect.height <= i32::MAX,
        0 <= i < windows.len() - 1,
    ensures
        ({
            let bars = column_bars(column_rect, windows, selected);
            let last = windows.len() - 1;
            let gap = gap_of(column_rect.height as int, windows.len() as int);
            &&& bars[0].rect.y == column_rect.y
            &&& bars[last].rect.y + bars[last].rect.height == column_rect.y + column_rect.height
            &&& bars[i + 1].rect.y == bars[i].rect.y + bars[i].rect.height + gap
            &&& bars[i + 1].rect.height <= bars[i].rect.height <= bars[i + 1].rect.height + 1
            &&& bars[i].rect.height >= MIN_SEGMENT_HEIGHT_PX
        }),
{
    let total = column_rect.height as int;
    let count = windows.len() as int;
    let start = column_rect.y as int;
    let heights = bar_heights(total, count);
    lemma_heights_add_up(total, count);
    lemma_bar_tops(total, count, start, i as nat);
    lemma_bar_tops(total, count, start, (i + 1) as nat);
    lemma_bar_tops(total, count, start, (count - 1) as nat);
    let step = heights.base + heights.gap;
    assert(i * step >= 0 && (i + 1) * step == i * step + step && (count - 1) * step >= 0)
        by (nonlinear_arith)
        requires
            i >= 0,
            count >= 2,
            step >= 0,
    ;
    assert((count - 1) * step + heights.base == count * heights.base + (count - 1) * heights.gap)
        by (nonlinear_arith)
        requires
            step == heights.base + heights.gap,
    ;
}

/// Every bar is six pixels wide and ends ten pixels before the right edge of its column, as
/// long as the coordinates fit.
pub proof fn law_bars_stand_at_the_right_edge(
    column_rect: Rect,
    windows: Seq<WindowId>,
    selected: WindowId,
    i: int,
)
    requires
        0 <= i < windows.len(),
        windows.len() >= 2,
        column_rect.width <= i32::MAX,
        i32::MIN + 16 <= column_rect.x + column_rect.width <= i32::MAX,
    ensures
        ({
            let bar = column_bars(column_rect, windows, selected)[i].rect;
            &&& bar.width == 6
            &&& bar.x + bar.width + 10 == column_rect.x + column_rect.width
        }),
{
}

/// A column that is moved takes its bars along, with their sizes and marks.
pub proof fn law_bars_move_with_their_column(
    column_rect: Rect,
    moved: Rect,
    windows: Seq<WindowId>,
    selected: WindowId,
    i: int,
)
    requires
        0 <= i < windows.len(),
        2 <= windows.len() <= i32::MAX,
        moved.width == column_rect.width <= i32::MAX,
        moved.height == column_rect.height,
        MIN_SEGMENT_HEIGHT_PX * windows.len() < column_rect.height <= i32::MAX,
        i32::MIN + 16 <= column_rect.x + column_rect.width <= i32::MAX,
        i32::MIN + 16 <= moved.x + moved.width <= i32::MAX,
        column_rect.y + column_rect.height <= i32::MAX,
        moved.y + moved.height <= i32::MAX,
    ensures
        ({
            let bar = column_bars(column_rect, windows, selected)[i];
            let other = column_bars(moved, windows, selected)[i];
            &&& other.rect.x - bar.rect.x == moved.x - column_rect.x
            &&& other.rect.y - bar.rect.y == moved.y - column_rect.y
            &&& other.rect.width == bar.rect.width && other.rect.height == bar.rect.height
            &&& other.kind == bar.kind
        }),
{
    let total = column_rect.height as int;
    let count = windows.len() as int;
    let heights = bar_heights(total, count);
    lemma_heights_add_up(total, count);
    lemma_bar_tops(total, count, column_rect.y as int, i as nat);
    lemma_bar_tops(total, count, moved.y as int, i as nat);
    let step = heights.base + heights.gap;
    assert(i * step >= 0) by (nonlinear_arith)
        requires
            i >= 0,
            step >= 0,
    ;
}

/// The gap between two bars is four pixels, or less where that leaves a bar of six pixels for
/// each window, but never less than it has to be.
pub proof fn law_gaps_are_as_wide_as_they_can_be(
    column_rect: Rect,
    windows: Seq<WindowId>,
    selected: WindowId,
    i: int,
)
    requires
        2 <= windows.len() <= i32::MAX,
        6 * windows.len() < column_rect.height <= i32::MAX,
        column_rect.y + column_rect.height <= i32::MAX,
        0 <= i < windows.len() - 1,
    ensures
        ({
            let bars = column_bars(column_rect, windows, selected);
            let n = windows.len() as int;
            let gap = bars[i + 1].rect.y - (bars[i].rect.y + bars[i].rect.height);
            &&& 0 <= gap <= 4
            &&& 6 * n + gap * (n - 1) <= column_rect.height
            &&& gap < 4 ==> 6 * n + (gap + 1) * (n - 1) > column_rect.height
        }),
{
    law_bars_fill_the_column(column_rect, windows, selected, i);
    let total = column_rect.height as int;
    let n = windows.len() as int;
    let remaining = total - 6 * n;
    let share = remaining / (n - 1);
    let gap = gap_of(total, n);
    assert(0 <= share && share * (n - 1) <= remaining < (share + 1) * (n - 1)) by (nonlinear_arith)
        requires
            share == remaining / (n - 1),
            remaining > 0,
            n >= 2,
    ;
    assert(gap * (n - 1) <= share * (n - 1)) by (nonlinear_arith)
        requires
            gap <= share,
            n >= 2,
    ;
}

/// Where bars of six pixels do not fit, every bar is six pixels high all the same, and one
/// pixel lies between two of them.
pub proof fn law_crowded_bars_keep_their_height(
    column_rect: Rect,
    windows: Seq<WindowId>,
    selected: WindowId,
    i: int,
)
    requires
        2 <= windows.len() <= 0x1000_0000,
        column_rect.height <= 6 * windows.len(),
        column_rect.y + 7 * windows.len() <= i32::MAX,
        0 <= i < windows.len(),
    ensures
        ({
            let bars = column_bars(column_rect, windows, selected);
            &&& bars[i].rect.height == 6
            &&& bars[i].rect.y == column_rect.y + 7 * i
        }),
    decreases i,
{
    let total = column_rect.height as int;
    let n = windows.len() as int;
    let heights = bar_heights(total, n);
    let available = total - (n - 1);
    assert(heights.gap == 1);
    assert(heights.gap * tab_count(n - 1) == n - 1);
    assert(div_toward_zero(available, n) <= 6) by {
        if available >= 0 {
            assert(available / n <= 6) by (nonlinear_arith)
                requires
                    0 <= available <= 6 * n,
                    n >= 2,
            ;
        } else {
            assert((-available) / n >= 0) by (nonlinear_arith)
                requires
                    available < 0,
                    n >= 2,
            ;
        }
    }
    assert(heights.base == 6);
    assert(heights.remainder <= 0);
    if i > 0 {
        law_crowded_bars_keep_their_height(column_rect, windows, selected, i - 1);
    }
}

/// A tabbed column of at least two windows has the bars of the place that the layout gives its
/// shown window, which is the selected one, else the active one, else the first; the last place
/// in the layout counts. No other column has bars.
pub proof fn law_tabbed_columns_have_bars(
    state: WmState,
    geometries: Seq<WindowGeometryProjection>,
    id: ColumnId,
    shown: WindowId,
    g: int,
)
    ensures
        state.column(id) is None ==> bars_of_column(state, geometries, id).len() == 0,
        state.column(id) matches Some(column) ==> {
            &&& column.mode is Normal || column.ordered_window_ids@.len() < 2 ==> bars_of_column(
                state,
                geometries,
                id,
            ).len() == 0
            &&& column.mode is Tabbed && column.ordered_window_ids@.len() >= 2 && ({
                ||| column.tab_selection == Some(shown)
                ||| column.tab_selection is None && column.active_window_id == Some(shown)
                ||| column.tab_selection is None && column.active_window_id is None && shown
                    == column.ordered_window_ids@[0]
            }) ==> {
                &&& 0 <= g < geometries.len() && geometries[g].window_id == shown && (forall|j: int|
                    g < j < geometries.len() ==> (#[trigger] geometries[j]).window_id != shown)
                    ==> bars_of_column(state, geometries, id) == column_bars(
                    geometries[g].rect,
                    column.ordered_window_ids@,
                    shown,
                )
                &&& (forall|j: int|
                    0 <= j < geometries.len() ==> (#[trigger] geometries[j]).window_id != shown)
                    ==> bars_of_column(state, geometries, id).len() == 0
            }
        },
{
    if 0 <= g < geometries.len() && geometries[g].window_id == shown && (forall|j: int|
        g < j < geometries.len() ==> (#[trigger] geometries[j]).window_id != shown) {
        lemma_placed_at(geometries, shown, g);
    }
    if forall|j: int| 0 <= j < geometries.len() ==> (#[trigger] geometries[j]).window_id != shown {
        lemma_placed_nowhere(geometries, shown);
    }
}

proof fn lemma_placed_at(geometries: Seq<WindowGeometryProjection>, id: WindowId, g: int)
    requires
        0 <= g < geometries.len(),
        geometries[g].window_id == id,
        forall|j: int| g < j < geometries.len() ==> (#[trigger] geometries[j]).window_id != id,
    ensures
        placed_at(geometries, id) == Some(geometries[g].rect),
    decreases geometries.len(),
{
    if g < geometries.len() - 1 {
        let rest = geometries.drop_last();
        assert forall|j: int| g < j < rest.len() implies (#[trigger] rest[j]).window_id != id by {
            assert(geometries[j].window_id != id);
        }
        assert(geometries[geometries.len() - 1].window_id != id);
        lemma_placed_at(rest, id, g);
    }
}

proof fn lemma_placed_nowhere(geometries: Seq<WindowGeometryProjection>, id: WindowId)
    requires
        forall|j: int| 0 <= j < geometries.len() ==> (#[trigger] geometries[j]).window_id != id,
    ensures
        placed_at(geometries, id) is None,
    decreases geometries.len(),
{
    if geometries.len() > 0 {
        let rest = geometries.drop_last();
        assert forall|j: int| 0 <= j < rest.len() implies (#[trigger] rest[j]).window_id != id by {
            assert(geometries[j].window_id != id);
        }
        assert(geometries[geometries.len() - 1].window_id != id);
        lemma_placed_nowhere(rest, id);
    }
}

/// The columns of a workspace contribute their bars one after another.
pub proof fn law_columns_add_their_bars(
    state: WmState,
    geometries: Seq<WindowGeometryProjection>,
    first: Seq<ColumnId>,
    second: Seq<ColumnId>,
    id: ColumnId,
)
    ensures
        bars_of_columns(state, geometries, Seq::empty()).len() == 0,
        bars_of_columns(state, geometries, seq![id]) == bars_of_column(state, geometries, id),
        bars_of_columns(state, geometries, first + second) == bars_of_columns(
            state,
            geometries,
            first,
        ) + bars_of_columns(state, geometries, second),
    decreases second.len(),
{
    let alone = seq![id];
    assert(bars_of_columns(state, geometries, alone.drop_last()).len() == 0);
    assert(alone.last() == id);
    assert(bars_of_columns(state, geometries, alone) =~= bars_of_column(state, geometries, id));
    if second.len() == 0 {
        assert(first + second =~= first);
        assert(bars_of_columns(state, geometries, first) + Seq::<TabIndicatorSegment>::empty()
            =~= bars_of_columns(state, geometries, first));
    } else {
        let rest = second.drop_last();
        law_columns_add_their_bars(state, geometries, first, rest, id);
        assert((first + second).drop_last() =~= first + rest);
        assert((first + second).last() == second.last());
        assert(bars_of_columns(state, geometries, first + second) =~= bars_of_columns(
            state,
            geometries,
            first,
        ) + bars_of_columns(state, geometries, second));
    }
}

proof fn lemma_monitor_bars(state: WmState, layouts: Seq<WorkspaceLayout>, n: nat, m: int) -> (at:
    int)
    requires
        0 <= m < n <= state.monitors@.len(),
        bars_of_monitors(state, layouts, n) is Ok,
        state.monitors@[m].active_workspace_id matches Some(id) && state.workspace(id) is Some,
    ensures
        ({
            let bars = bars_of_monitors(state, layouts, n)->Ok_0;
            let id = state.monitors@[m].active_workspace_id->0;
            let own = bars_of_columns(
                state,
                (layout_of(layouts, id)->Ok_0).window_geometries@,
                (state.workspace(id)->0).ordered_column_ids@,
            );
            &&& layout_of(layouts, id) is Ok
            &&& 0 <= at && at + own.len() <= bars.len()
            &&& bars.subrange(at, at + own.len()) == own
        }),
    decreases n,
{
    let bars = bars_of_monitors(state, layouts, n)->Ok_0;
    let rest = bars_of_monitors(state, layouts, (n - 1) as nat)->Ok_0;
    let id = state.monitors@[m].active_workspace_id->0;
    if m == n - 1 {
        let own = bars_of_columns(
            state,
            (layout_of(layouts, id)->Ok_0).window_geometries@,
            (state.workspace(id)->0).ordered_column_ids@,
        );
        assert(bars.subrange(rest.len() as int, (rest.len() + own.len()) as int) =~= own);
        rest.len() as int
    } else {
        let at = lemma_monitor_bars(state, layouts, (n - 1) as nat, m);
        let own = rest.subrange(
            at,
            at + bars_of_columns(
                state,
                (layout_of(layouts, id)->Ok_0).window_geometries@,
                (state.workspace(id)->0).ordered_column_ids@,
            ).len(),
        );
        assert(bars.subrange(at, at + own.len()) =~= own);
        at
    }
}

/// While the overview is closed, the bars of the active workspace of every monitor are shown.
pub proof fn law_every_monitor_shows_its_bars(
    state: WmState,
    layouts: Seq<WorkspaceLayout>,
    m: int,
) -> (at: int)
    requires
        !state.overview.is_open,
        tab_bars(state, layouts) is Ok,
        0 <= m < state.monitors@.len(),
        state.monitors@[m].active_workspace_id matches Some(id) && state.workspace(id) is Some,
    ensures
        ({
            let bars = tab_bars(state, layouts)->Ok_0;
            let id = state.monitors@[m].active_workspace_id->0;
            let own = bars_of_columns(
                state,
                (layout_of(layouts, id)->Ok_0).window_geometries@,
                (state.workspace(id)->0).ordered_column_ids@,
            );
            &&& layout_of(layouts, id) is Ok
            &&& 0 <= at && at + own.len() <= bars.len()
            &&& bars.subrange(at, at + own.len()) == own
        }),
{
    lemma_monitor_bars(state, layouts, state.monitors@.len(), m)
}

proof fn lemma_bar_has_a_monitor(
    state: WmState,
    layouts: Seq<WorkspaceLayout>,
    n: nat,
    k: int,
) -> (m: int)
    requires
        n <= state.monitors@.len(),
        bars_of_monitors(state, layouts, n) is Ok,
        0 <= k < bars_of_monitors(state, layouts, n)->Ok_0.len(),
    ensures
        0 <= m < n,
        state.monitors@[m].active_workspace_id matches Some(id) && state.workspace(id) is Some
            && layout_of(layouts, id) is Ok && bars_of_columns(
            state,
            (layout_of(layouts, id)->Ok_0).window_geometries@,
            (state.workspace(id)->0).ordered_column_ids@,
        ).contains(bars_of_monitors(state, layouts, n)->Ok_0[k]),
    decreases n,
{
    let bars = bars_of_monitors(state, layouts, n)->Ok_0;
    let rest = bars_of_monitors(state, layouts, (n - 1) as nat)->Ok_0;
    if k < rest.len() {
        let m = lemma_bar_has_a_monitor(state, layouts, (n - 1) as nat, k);
        assert(bars[k] == rest[k]);
        m
    } else {
        let id = state.monitors@[n - 1].active_workspace_id->0;
        let own = bars_of_columns(
            state,
            (layout_of(layouts, id)->Ok_0).window_geometries@,
            (state.workspace(id)->0).ordered_column_ids@,
        );
        assert(own[k - rest.len()] == bars[k]);
        n - 1
    }
}

/// Nothing but the bars of the monitors' active workspaces is shown.
pub proof fn law_every_bar_has_a_monitor(
    state: WmState,
    layouts: Seq<WorkspaceLayout>,
    k: int,
) -> (m: int)
    requires
        tab_bars(state, layouts) is Ok,
        0 <= k < tab_bars(state, layouts)->Ok_0.len(),
    ensures
        !state.overview.is_open,
        0 <= m < state.monitors@.len(),
        state.monitors@[m].active_workspace_id matches Some(id) && state.workspace(id) is Some
            && layout_of(layouts, id) is Ok && bars_of_columns(
            state,
            (layout_of(layouts, id)->Ok_0).window_geometries@,
            (state.workspace(id)->0).ordered_column_ids@,
        ).contains(tab_bars(state, layouts)->Ok_0[k]),
{
    lemma_bar_has_a_monitor(state, layouts, state.monitors@.len(), k)
}

proof fn lemma_layouts_give_bars(state: WmState, layouts: Seq<WorkspaceLayout>, n: nat)
    requires
        n <= state.monitors@.len(),
        forall|m: int|
            0 <= m < n ==> ((#[trigger] state.monitors@[m]).active_workspace_id matches Some(id) ==> (
            state.workspace(id) is Some ==> layout_of(layouts, id) is Ok)),
    ensures
        bars_of_monitors(state, layouts, n) is Ok,
    decreases n,
{
    if n > 0 {
        lemma_layouts_give_bars(state, layouts, (n - 1) as nat);
        let monitor = state.monitors@[n - 1];
    }
}

/// The bars are known exactly where the active workspace of every monitor has a layout, as far
/// as it is known at all.
pub proof fn law_bars_need_the_active_layouts(state: WmState, layouts: Seq<WorkspaceLayout>)
    requires
        !state.overview.is_open,
    ensures
        tab_bars(state, layouts) is Ok <==> forall|m: int|
            0 <= m < state.monitors@.len() ==> ((
            #[trigger] state.monitors@[m]).active_workspace_id matches Some(id) ==> (
            state.workspace(id) is Some ==> layout_of(layouts, id) is Ok)),
{
    let n = state.monitors@.len();
    if tab_bars(state, layouts) is Ok {
        assert forall|m: int| 0 <= m < n implies ((
        #[trigger] state.monitors@[m]).active_workspace_id matches Some(id) ==> (state.workspace(
            id,
        ) is Some ==> layout_of(layouts, id) is Ok)) by {
            if state.monitors@[m].active_workspace_id is Some && state.workspace(
                state.monitors@[m].active_workspace_id->0,
            ) is Some {
                let at = lemma_monitor_bars(state, layouts, n, m);
            }
        }
    } else if forall|m: int|
        0 <= m < n ==> ((#[trigger] state.monitors@[m]).active_workspace_id matches Some(id) ==> (
        state.workspace(id) is Some ==> layout_of(layouts, id) is Ok)) {
        lemma_layouts_give_bars(state, layouts, n);
    }
}

/// A bar is shown by a window of its own kind: one that is there stays, one of the other kind
/// is replaced, and a missing one is created; it stands where the bar does.
pub proof fn law_bars_get_windows_of_their_kind(
    windows: Seq<IndicatorWindow>,
    index: int,
    segment: TabIndicatorSegment,
)
    requires
        index >= 0,
    ensures
        ({
            let step = indicator_step(windows, index, segment);
            let there = index < windows.len() && windows[index].hwnd != 0;
            &&& step.rect == segment.rect
            &&& step.create is Some ==> step.create == Some(segment.kind)
            &&& step.create is None <==> there && windows[index].kind == segment.kind
            &&& step.destroy is Some <==> there && windows[index].kind != segment.kind
            &&& step.destroy is Some ==> step.destroy == Some(windows[index].hwnd)
        }),
{
}

/// Exactly the windows that exist and have no bar are hidden, in their order.
pub proof fn law_windows_without_a_bar_are_hidden(
    windows: Seq<IndicatorWindow>,
    used: int,
    hwnd: isize,
)
    requires
        used >= 0,
    ensures
        spare_windows(windows, used).contains(hwnd) <==> hwnd != 0 && exists|i: int|
            used <= i < windows.len() && (#[trigger] windows[i]).hwnd == hwnd,
    decreases windows.len(),
{
    if windows.len() > used {
        let rest = windows.drop_last();
        let spare = spare_windows(windows, used);
        let before = spare_windows(rest, used);
        law_windows_without_a_bar_are_hidden(rest, used, hwnd);
        if before.contains(hwnd) {
            let i = choose|i: int| used <= i < rest.len() && (#[trigger] rest[i]).hwnd == hwnd;
            assert(windows[i].hwnd == hwnd);
            let k = choose|k: int| 0 <= k < before.len() && before[k] == hwnd;
            assert(spare[k] == hwnd);
        }
        if windows.last().hwnd == hwnd && hwnd != 0 {
            assert(spare[before.len() as int] == hwnd);
            assert(windows[windows.len() - 1].hwnd == hwnd);
        }
        if spare.contains(hwnd) && !before.contains(hwnd) {
            let k = choose|k: int| 0 <= k < spare.len() && spare[k] == hwnd;
            if k < before.len() {
                assert(before[k] == hwnd);
            }
            assert(windows[windows.len() - 1].hwnd == hwnd);
        }
        if hwnd != 0 && exists|i: int|
            used <= i < windows.len() && (#[trigger] windows[i]).hwnd == hwnd {
            let i = choose|i: int|
                used <= i < windows.len() && (#[trigger] windows[i]).hwnd == hwnd;
            if i < rest.len() {
                assert(rest[i].hwnd == hwnd);
            }
        }
    }
}

/// The bars that are built for a column: one for each of two or more windows, in their order,
/// each at the right edge of the column, and the selected window's alone marked.
pub proof fn law_built_bars_belong_to_their_column(
    column_rect: Rect,
    windows: &[WindowId],
    selected: WindowId,
    bars: Vec<TabIndicatorSegment>,
    i: int,
)
    requires
        call_ensures(build_column_segments, (column_rect, windows, selected), bars),
        0 <= i < windows@.len(),
        column_rect.width <= i32::MAX,
        i32::MIN + 16 <= column_rect.x + column_rect.width <= i32::MAX,
    ensures
        windows@.len() < 2 ==> bars@.len() == 0,
        windows@.len() >= 2 ==> {
            &&& bars@.len() == windows@.len()
            &&& bars@[0].rect.y == column_rect.y
            &&& bars@[i].rect.width == 6
            &&& bars@[i].rect.x + 16 == column_rect.x + column_rect.width
            &&& bars@[i].kind == IndicatorKind::Active <==> windows@[i] == selected
            &&& bars@[i].kind == IndicatorKind::Inactive <==> windows@[i] != selected
        },
{
}

/// A bar's window is as large as the bar, but of one pixel a side at least; what is too large
/// is told, the width before the height.
pub proof fn law_windows_are_as_large_as_their_bar(rect: Rect, r: Result<(i32, i32), String>)
    requires
        call_ensures(indicator_extent, (rect,), r),
    ensures
        r is Ok <==> rect.width <= 0x7fff_ffff && rect.height <= 0x7fff_ffff,
        r matches Ok(extent) ==> extent.0 == (if rect.width == 0 {
            1
        } else {
            rect.width as int
        }) && extent.1 == (if rect.height == 0 {
            1
        } else {
            rect.height as int
        }),
        rect.width > 0x7fff_ffff ==> (r matches Err(text) && text@
            == "tab indicator width overflowed"@),
        rect.width <= 0x7fff_ffff && rect.height > 0x7fff_ffff ==> (r matches Err(text) && text@
            == "tab indicator height overflowed"@),
{
}

/// A version of the state that was dealt with needs nothing more; for every other one the bars
/// are built, and there are none while the windows are not managed.
pub proof fn law_new_versions_have_their_bars_built(
    controller: &TabIndicatorController,
    state: &WmState,
    layouts: &Vec<WorkspaceLayout>,
    management_enabled: bool,
    r: Result<Option<Vec<TabIndicatorSegment>>, LayoutError>,
)
    requires
        call_ensures(
            TabIndicatorController::sync,
            (controller, state, layouts, management_enabled),
            r,
        ),
    ensures
        ({
            let known = controller.last_key matches Some(key) && key.state_version
                == state.state_version && key.management_enabled == management_enabled;
            &&& known ==> r is Ok && r->Ok_0 is None
            &&& !known && !management_enabled ==> (r matches Ok(Some(bars)) && bars@.len() == 0)
            &&& !known && management_enabled ==> (r is Err <==> tab_bars(*state, layouts@) is Err)
            &&& !known && management_enabled && tab_bars(*state, layouts@) is Ok ==> (
            r matches Ok(Some(bars)) && bars@ == tab_bars(*state, layouts@)->Ok_0)
        }),
{
}

/// A column shows the window that its tabs select, else its active one, else its first.
pub proof fn law_columns_show_one_of_their_windows(column: Column, id: WindowId)
    ensures
        column.tab_selection == Some(id) ==> shown_tab(column) == Some(id),
        column.tab_selection is None && column.active_window_id == Some(id) ==> shown_tab(column)
            == Some(id),
        column.tab_selection is None && column.active_window_id is None ==> {
            &&& column.ordered_window_ids@.len() > 0 ==> shown_tab(column) == Some(
                column.ordered_window_ids@[0],
            )
            &&& column.ordered_window_ids@.len() == 0 ==> shown_tab(column) is None
        },
{
}

} // verus!
