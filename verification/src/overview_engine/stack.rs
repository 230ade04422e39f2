//! Where the previews of the workspaces stand.

use crate::arith::{at_least_one, extent_to_i32, saturating_add_i32, saturating_sub_i32};
use crate::double::{scale_round, Fraction};
use crate::geometry::Rect;
use vstd::prelude::*;

verus! {

use crate::arith::{abs_int, clamp_i32, clamp_int, div_toward_zero, max_int, min_int};
use crate::double::{
    excess_bits, law_halves_are_rounded_up, law_scaling_keeps_the_proportion, lemma_exact_halving,
    lemma_rounding_is_near, nearest_even, product, quotient, round_half_up, scaled,
};
use vstd::arithmetic::power2::{
    lemma2_to64, lemma_pow2_adds, lemma_pow2_pos, lemma_pow2_unfold, pow2,
};

/// How large a preview is drawn.
#[derive(Clone, Copy, Debug, PartialEq, Eq, Structural)]
pub enum PreviewZoom {
    /// One half of the monitor, in the open overview.
    Overview,
    /// Seven tenths of the monitor, where the overview opens from and closes to.
    OpenCloseSource,
}

/// Seven tenths is `ZOOM_MANTISSA` parts of `2^52`, to the nearest such part that fits 53
/// bits.
pub const ZOOM_MANTISSA: u64 = 3152519739159347;

/// One tenth, the gap between two workspaces as a share of the monitor's height, is
/// `GAP_MANTISSA` parts of `2^55`.
pub const GAP_MANTISSA: u64 = 3602879701896397;

impl PreviewZoom {
    pub open spec fn value(self) -> (nat, int) {
        match self {
            PreviewZoom::Overview => (1, -1),
            PreviewZoom::OpenCloseSource => (ZOOM_MANTISSA as nat, -52),
        }
    }

    pub fn fraction(self) -> (r: Fraction)
        ensures
            r@ == self.value(),
            r.mantissa <= ZOOM_MANTISSA,
            -52 <= r.exponent <= -1,
    {
        match self {
            PreviewZoom::Overview => Fraction { mantissa: 1, exponent: -1 },
            PreviewZoom::OpenCloseSource => Fraction { mantissa: ZOOM_MANTISSA, exponent: -52 },
        }
    }
}

pub open spec fn gap_ratio() -> (nat, int) {
    (GAP_MANTISSA as nat, -55)
}

/// The size of a preview, the gap between two of them, and where the active one starts.
#[derive(Clone, Copy, Debug, PartialEq, Eq, Structural)]
pub struct PreviewStackLayout {
    pub frame_width: u32,
    pub frame_height: u32,
    pub gap: i32,
    pub active_frame_y: i32,
}

/// An extent of at least one pixel, scaled and rounded, of at least one pixel again.
pub open spec fn scaled_extent(extent: u32, factor: (nat, int)) -> u32 {
    clamp_int(
        scaled(max_int(extent as int, 1) as nat, factor) as int,
        1,
        u32::MAX as int,
    ) as u32
}

fn scale_extent(extent: u32, factor: Fraction) -> (r: u32)
    requires
        factor.mantissa <= crate::double::MANTISSA_LIMIT,
        -120 <= factor.exponent <= -11,
    ensures
        r == scaled_extent(extent, factor@),
{
    let value: u128 = scale_round(at_least_one(extent) as u64, factor);
    if value < 1 {
        1
    } else if value > u32::MAX as u128 {
        u32::MAX
    } else {
        value as u32
    }
}

/// A zoomed extent; the zoom of one half has an exponent of its own.
fn zoom_extent(extent: u32, zoom: PreviewZoom) -> (r: u32)
    ensures
        r == scaled_extent(extent, zoom.value()),
{
    let value: u128 = Fraction::whole(at_least_one(extent) as u64).times(zoom.fraction()).round();
    if value < 1 {
        1
    } else if value > u32::MAX as u128 {
        u32::MAX
    } else {
        value as u32
    }
}

/// The gap between two previews: a tenth of the monitor's height, zoomed.
pub open spec fn zoomed_gap(height: u32, zoom: PreviewZoom) -> i32 {
    let tenth = product((max_int(height as int, 1) as nat, 0), gap_ratio());
    let zoomed = product(tenth, zoom.value());
    clamp_int(round_half_up(zoomed.0, zoomed.1) as int, 1, i32::MAX as int) as i32
}

fn zoom_gap(height: u32, zoom: PreviewZoom) -> (r: i32)
    ensures
        r == zoomed_gap(height, zoom),
{
    let tenth: Fraction = Fraction::whole(at_least_one(height) as u64).times(
        Fraction { mantissa: GAP_MANTISSA, exponent: -55 },
    );
    let value: u128 = tenth.times(zoom.fraction()).round();
    if value < 1 {
        1
    } else if value > i32::MAX as u128 {
        i32::MAX
    } else {
        value as i32
    }
}

/// How far a span of one length has to be moved to be centred in another.
pub open spec fn centring(outer: u32, inner: u32) -> int {
    div_toward_zero(
        min_int(outer as int, i32::MAX as int) - min_int(inner as int, i32::MAX as int),
        2,
    )
}

fn centre(outer: u32, inner: u32) -> (r: i32)
    ensures
        r == centring(outer, inner),
{
    let difference: i64 = extent_to_i32(outer) as i64 - extent_to_i32(inner) as i64;
    let half: i64 = if difference >= 0 {
        difference / 2
    } else {
        -((-difference) / 2)
    };
    half as i32
}

/// The layout of a column of previews.
pub open spec fn stack_layout(monitor_rect: Rect, zoom: PreviewZoom) -> PreviewStackLayout {
    let frame_height = scaled_extent(monitor_rect.height, zoom.value());
    PreviewStackLayout {
        frame_width: scaled_extent(monitor_rect.width, zoom.value()),
        frame_height,
        gap: zoomed_gap(monitor_rect.height, zoom),
        active_frame_y: clamp_i32(
            monitor_rect.y + centring(monitor_rect.height, frame_height),
        ) as i32,
    }
}

pub fn build_preview_stack_layout(monitor_rect: Rect) -> (r: PreviewStackLayout)
    ensures
        r == stack_layout(monitor_rect, PreviewZoom::Overview),
{
    build_preview_stack_layout_with_zoom(monitor_rect, PreviewZoom::Overview)
}

pub fn build_preview_stack_layout_with_zoom(monitor_rect: Rect, zoom: PreviewZoom) -> (r:
    PreviewStackLayout)
    ensures
        r == stack_layout(monitor_rect, zoom),
{
    let frame_height: u32 = zoom_extent(monitor_rect.height, zoom);
    let frame_width: u32 = zoom_extent(monitor_rect.width, zoom);
    let gap: i32 = zoom_gap(monitor_rect.height, zoom);
    PreviewStackLayout {
        frame_width,
        frame_height,
        gap,
        active_frame_y: saturating_add_i32(
            monitor_rect.y,
            centre(monitor_rect.height, frame_height),
        ),
    }
}

/// How far below its upper neighbour a preview starts.
pub open spec fn stack_step(layout: PreviewStackLayout) -> int {
    min_int(layout.frame_height as int, i32::MAX as int) + layout.gap
}

/// The frame of the workspace that stands `stack_offset` places below the active one.
pub open spec fn preview_frame_rect(
    monitor_rect: Rect,
    layout: PreviewStackLayout,
    stack_offset: int,
) -> Rect {
    Rect {
        x: clamp_i32(monitor_rect.x + centring(monitor_rect.width, layout.frame_width)) as i32,
        y: clamp_i32(layout.active_frame_y + clamp_i32(stack_offset * stack_step(layout))) as i32,
        width: layout.frame_width,
        height: layout.frame_height,
    }
}

/// `a * b` as far as it fits.
fn saturating_product(a: i128, b: i64) -> (r: i32)
    ensures
        r == clamp_i32(a * b),
{
    let near: i128 = if a > 0x1_0000_0000 {
        0x1_0000_0000
    } else if a < -0x1_0000_0000 {
        -0x1_0000_0000
    } else {
        a
    };
    assert(-0x1_0000_0000 * 0x8000_0000_0000_0000 <= near * b <= 0x1_0000_0000
        * 0x8000_0000_0000_0000) by (nonlinear_arith)
        requires
            -0x1_0000_0000 <= near <= 0x1_0000_0000,
            -0x8000_0000_0000_0000 <= b <= 0x7fff_ffff_ffff_ffff,
    ;
    assert(a > 0x1_0000_0000 && b >= 1 ==> a * b >= 0x1_0000_0000 && near * b >= 0x1_0000_0000)
        by (nonlinear_arith)
        requires
            a > 0x1_0000_0000 ==> near == 0x1_0000_0000,
    ;
    assert(a > 0x1_0000_0000 && b <= -1 ==> a * b <= -0x1_0000_0000 && near * b
        <= -0x1_0000_0000) by (nonlinear_arith)
        requires
            a > 0x1_0000_0000 ==> near == 0x1_0000_0000,
    ;
    assert(a < -0x1_0000_0000 && b >= 1 ==> a * b <= -0x1_0000_0000 && near * b
        <= -0x1_0000_0000) by (nonlinear_arith)
        requires
            a < -0x1_0000_0000 ==> near == -0x1_0000_0000,
    ;
    assert(a < -0x1_0000_0000 && b <= -1 ==> a * b >= 0x1_0000_0000 && near * b >= 0x1_0000_0000)
        by (nonlinear_arith)
        requires
            a < -0x1_0000_0000 ==> near == -0x1_0000_0000,
    ;
    assert(b == 0 ==> a * b == 0 && near * b == 0) by (nonlinear_arith);
    let value: i128 = near * b as i128;
    if value < i32::MIN as i128 {
        i32::MIN
    } else if value > i32::MAX as i128 {
        i32::MAX
    } else {
        value as i32
    }
}

pub fn workspace_preview_frame_rect(
    monitor_rect: Rect,
    layout: PreviewStackLayout,
    stack_offset: i128,
) -> (r: Rect)
    ensures
        r == preview_frame_rect(monitor_rect, layout, stack_offset as int),
{
    let step: i64 = extent_to_i32(layout.frame_height) as i64 + layout.gap as i64;
    Rect::new(
        saturating_add_i32(monitor_rect.x, centre(monitor_rect.width, layout.frame_width)),
        saturating_add_i32(layout.active_frame_y, saturating_product(stack_offset, step)),
        layout.frame_width,
        layout.frame_height,
    )
}

/// The place of the workspace `stack_offset` places below the active one when every
/// workspace fills the monitor.
pub open spec fn live_rect(monitor_rect: Rect, stack_offset: int) -> Rect {
    Rect {
        x: monitor_rect.x,
        y: clamp_i32(
            monitor_rect.y + clamp_i32(
                stack_offset * min_int(monitor_rect.height as int, i32::MAX as int),
            ),
        ) as i32,
        width: monitor_rect.width,
        height: monitor_rect.height,
    }
}

pub fn workspace_live_rect(monitor_rect: Rect, stack_offset: i128) -> (r: Rect)
    ensures
        r == live_rect(monitor_rect, stack_offset as int),
{
    let height: i64 = extent_to_i32(monitor_rect.height) as i64;
    Rect::new(
        monitor_rect.x,
        saturating_add_i32(monitor_rect.y, saturating_product(stack_offset, height)),
        monitor_rect.width,
        monitor_rect.height,
    )
}

/// A preview's canvas reaches from one side of the monitor to the other.
pub open spec fn canvas_rect(frame_rect: Rect, monitor_rect: Rect) -> Rect {
    Rect {
        x: monitor_rect.x,
        y: frame_rect.y,
        width: monitor_rect.width,
        height: frame_rect.height,
    }
}

pub fn workspace_preview_canvas_rect(frame_rect: Rect, monitor_rect: Rect) -> (r: Rect)
    ensures
        r == canvas_rect(frame_rect, monitor_rect),
{
    Rect::new(monitor_rect.x, frame_rect.y, monitor_rect.width, frame_rect.height)
}

/// The ratio of two extents of at least one pixel each.
pub open spec fn extent_ratio(target: u32, source: u32) -> (nat, int) {
    quotient(max_int(target as int, 1) as nat, max_int(source as int, 1) as nat)
}

/// A signed distance, scaled and rounded to the nearest integer, halves away from zero.
pub open spec fn scaled_distance(distance: int, factor: (nat, int)) -> int {
    if distance < 0 {
        -(scaled((-distance) as nat, factor) as int)
    } else {
        scaled(distance as nat, factor) as int
    }
}

fn scale_distance(distance: i64, factor: Fraction) -> (r: i32)
    requires
        -0x1_0000_0000 <= distance <= 0x1_0000_0000,
        factor.mantissa <= crate::double::MANTISSA_LIMIT,
        -120 <= factor.exponent <= -11,
    ensures
        r == clamp_i32(scaled_distance(distance as int, factor@)),
{
    if distance < 0 {
        let value: u128 = scale_round((-distance) as u64, factor);
        if value > 0x8000_0000u128 {
            i32::MIN
        } else {
            (-(value as i64)) as i32
        }
    } else {
        let value: u128 = scale_round(distance as u64, factor);
        if value > i32::MAX as u128 {
            i32::MAX
        } else {
            value as i32
        }
    }
}

/// A rectangle carried from one space into another as the one is scaled onto the other.
pub open spec fn carried(source_rect: Rect, source_space: Rect, target: Rect) -> Rect {
    let scale_x = extent_ratio(target.width, source_space.width);
    let scale_y = extent_ratio(target.height, source_space.height);
    Rect {
        x: clamp_i32(
            target.x + clamp_i32(scaled_distance(source_rect.x - source_space.x, scale_x)),
        ) as i32,
        y: clamp_i32(
            target.y + clamp_i32(scaled_distance(source_rect.y - source_space.y, scale_y)),
        ) as i32,
        width: scaled_extent(source_rect.width, scale_x),
        height: scaled_extent(source_rect.height, scale_y),
    }
}

/// Carries a rectangle from the monitor into a preview.
pub fn scale_rect_to_overview(source_rect: Rect, source_space: Rect, target_rect: Rect) -> (r: Rect)
    ensures
        r == carried(source_rect, source_space, target_rect),
{
    let scale_x: Fraction = Fraction::ratio(
        at_least_one(target_rect.width),
        at_least_one(source_space.width),
    );
    let scale_y: Fraction = Fraction::ratio(
        at_least_one(target_rect.height),
        at_least_one(source_space.height),
    );
    let relative_x: i64 = source_rect.x as i64 - source_space.x as i64;
    let relative_y: i64 = source_rect.y as i64 - source_space.y as i64;
    Rect::new(
        saturating_add_i32(target_rect.x, scale_distance(relative_x, scale_x)),
        saturating_add_i32(target_rect.y, scale_distance(relative_y, scale_y)),
        scale_extent(source_rect.width, scale_x),
        scale_extent(source_rect.height, scale_y),
    )
}

/// Like [`carried`], but a distance from the source space's corner that does not fit stops
/// at the end of the range before it is scaled.
pub open spec fn carried_saturating(source_rect: Rect, source_space: Rect, target: Rect) -> Rect {
    let scale_x = extent_ratio(target.width, source_space.width);
    let scale_y = extent_ratio(target.height, source_space.height);
    Rect {
        x: clamp_i32(
            target.x + clamp_i32(
                scaled_distance(clamp_i32(source_rect.x - source_space.x), scale_x),
            ),
        ) as i32,
        y: clamp_i32(
            target.y + clamp_i32(
                scaled_distance(clamp_i32(source_rect.y - source_space.y), scale_y),
            ),
        ) as i32,
        width: scaled_extent(source_rect.width, scale_x),
        height: scaled_extent(source_rect.height, scale_y),
    }
}

/// Carries a rectangle from one container into another.
pub fn scale_rect_between_rects(
    source_rect: Rect,
    source_container: Rect,
    target_container: Rect,
) -> (r: Rect)
    ensures
        r == carried_saturating(source_rect, source_container, target_container),
{
    let scale_x: Fraction = Fraction::ratio(
        at_least_one(target_container.width),
        at_least_one(source_container.width),
    );
    let scale_y: Fraction = Fraction::ratio(
        at_least_one(target_container.height),
        at_least_one(source_container.height),
    );
    let relative_x: i64 = saturating_sub_i32(source_rect.x, source_container.x) as i64;
    let relative_y: i64 = saturating_sub_i32(source_rect.y, source_container.y) as i64;
    Rect::new(
        saturating_add_i32(target_container.x, scale_distance(relative_x, scale_x)),
        saturating_add_i32(target_container.y, scale_distance(relative_y, scale_y)),
        scale_extent(source_rect.width, scale_x),
        scale_extent(source_rect.height, scale_y),
    )
}

/// Where no distance overflows the two ways of carrying a rectangle agree.
pub proof fn law_carrying_agrees_without_overflow(source_rect: Rect, space: Rect, target: Rect)
    requires
        i32::MIN <= source_rect.x - space.x <= i32::MAX,
        i32::MIN <= source_rect.y - space.y <= i32::MAX,
    ensures
        carried(source_rect, space, target) == carried_saturating(source_rect, space, target),
{
}

/// Every preview of a column has the same size and the same horizontal place, however far
/// it is from the active one.
pub proof fn law_previews_share_size_and_column(
    monitor_rect: Rect,
    layout: PreviewStackLayout,
    a: int,
    b: int,
)
    ensures
        ({
            let first = preview_frame_rect(monitor_rect, layout, a);
            let second = preview_frame_rect(monitor_rect, layout, b);
            &&& first.x == second.x
            &&& first.width == second.width && first.height == second.height
            &&& first.width == layout.frame_width && first.height == layout.frame_height
        }),
{
}

/// The preview of the active workspace starts where the layout says, and each further one
/// lies one step further down, as long as the coordinates fit.
pub proof fn law_previews_are_stacked_evenly(
    monitor_rect: Rect,
    layout: PreviewStackLayout,
    offset: int,
)
    requires
        i32::MIN <= offset * stack_step(layout) <= i32::MAX,
        i32::MIN <= (offset + 1) * stack_step(layout) <= i32::MAX,
        i32::MIN <= layout.active_frame_y + offset * stack_step(layout) <= i32::MAX,
        i32::MIN <= layout.active_frame_y + (offset + 1) * stack_step(layout) <= i32::MAX,
    ensures
        preview_frame_rect(monitor_rect, layout, offset + 1).y - preview_frame_rect(
            monitor_rect,
            layout,
            offset,
        ).y == stack_step(layout),
        preview_frame_rect(monitor_rect, layout, 0).y == layout.active_frame_y,
{
    assert((offset + 1) * stack_step(layout) == offset * stack_step(layout) + stack_step(layout))
        by (nonlinear_arith);
    assert(0 * stack_step(layout) == 0) by (nonlinear_arith);
}

/// Carrying keeps the proportions: a rectangle lies as far from the corner of the target, and
/// is as large, compared with the target's extent, as it was in the source space, to the
/// nearest pixel.
pub proof fn law_carrying_keeps_the_proportions(source_rect: Rect, space: Rect, target: Rect)
    requires
        0 < space.width && 0 < space.height && 0 < target.width && 0 < target.height,
        -0x100_0000 <= source_rect.x - space.x <= 0x100_0000,
        -0x100_0000 <= source_rect.y - space.y <= 0x100_0000,
        source_rect.width <= 0x100_0000 && source_rect.height <= 0x100_0000,
        target.width <= 0x100_0000 && target.height <= 0x100_0000,
        target.width <= 16 * space.width && target.height <= 16 * space.height,
        -0x100_0000 <= target.x <= 0x100_0000,
        -0x100_0000 <= target.y <= 0x100_0000,
    ensures
        ({
            let r = carried(source_rect, space, target);
            let width = max_int(source_rect.width as int, 1);
            let height = max_int(source_rect.height as int, 1);
            &&& -(space.width as int) <= 2 * ((r.x - target.x) * space.width - (source_rect.x
                - space.x) * target.width) <= space.width
            &&& -(space.height as int) <= 2 * ((r.y - target.y) * space.height - (source_rect.y
                - space.y) * target.height) <= space.height
            &&& r.width >= 1 && r.height >= 1
            &&& r.width > 1 ==> -(space.width as int) <= 2 * (r.width * space.width - width
                * target.width) <= space.width
            &&& r.height > 1 ==> -(space.height as int) <= 2 * (r.height * space.height - height
                * target.height) <= space.height
            &&& r.width == 1 ==> 2 * width * target.width <= 3 * space.width
            &&& r.height == 1 ==> 2 * height * target.height <= 3 * space.height
        }),
{
    lemma_carried_distance(source_rect.x - space.x, target.width, space.width);
    lemma_carried_distance(source_rect.y - space.y, target.height, space.height);
    lemma_carried_extent(source_rect.width, target.width, space.width);
    lemma_carried_extent(source_rect.height, target.height, space.height);
}

proof fn lemma_carried_distance(distance: int, target: u32, source: u32)
    requires
        0 < source,
        0 < target <= 0x100_0000,
        target <= 16 * source,
        -0x100_0000 <= distance <= 0x100_0000,
    ensures
        ({
            let v = scaled_distance(distance, extent_ratio(target, source));
            &&& -(source as int) <= 2 * (v * source - distance * target) <= source
            &&& -0x2000_0000 <= v <= 0x2000_0000
        }),
{
    let n = abs_int(distance) as nat;
    let a = target as nat;
    let b = source as nat;
    let v = scaled(n, quotient(a, b)) as int;
    assert(n * a <= 0x100_0000 * 0x100_0000) by (nonlinear_arith)
        requires
            n <= 0x100_0000,
            a <= 0x100_0000,
    ;
    law_scaling_keeps_the_proportion(n, a, b);
    assert(v <= 0x2000_0000) by (nonlinear_arith)
        requires
            2 * (v * b - n * a) <= b,
            n <= 0x100_0000,
            a <= 16 * b,
            b > 0,
    ;
    assert((-v) * source == -(v * source)) by (nonlinear_arith);
    assert((-(n as int)) * target == -(n * a)) by (nonlinear_arith)
        requires
            a == target,
    ;
}

proof fn lemma_carried_extent(extent: u32, target: u32, source: u32)
    requires
        0 < source,
        0 < target <= 0x100_0000,
        target <= 16 * source,
        extent <= 0x100_0000,
    ensures
        ({
            let r = scaled_extent(extent, extent_ratio(target, source));
            let n = max_int(extent as int, 1);
            &&& r >= 1
            &&& r > 1 ==> -(source as int) <= 2 * (r * source - n * target) <= source
            &&& r == 1 ==> 2 * n * target <= 3 * source
        }),
{
    let n = max_int(extent as int, 1);
    lemma_carried_distance(n, target, source);
    let v = scaled(n as nat, extent_ratio(target, source)) as int;
    assert(v == scaled_distance(n, extent_ratio(target, source)));
    assert(2 * n * target == 2 * (n * target)) by (nonlinear_arith);
    if v <= 1 {
        assert(v * source <= source) by (nonlinear_arith)
            requires
                v <= 1,
                source > 0,
        ;
    }
}

/// Where the previews of the open overview stand: each is half as wide and half as high as the
/// monitor, the active one is centred on it, one pixel is the most that rounding takes away on
/// either side, and the gap between two is a twentieth of the monitor's height, but at least
/// one pixel.
pub proof fn law_previews_are_half_the_monitor(monitor_rect: Rect)
    requires
        0 < monitor_rect.width <= 0x100_0000,
        0 < monitor_rect.height <= 0x100_0000,
        -0x100_0000 <= monitor_rect.x <= 0x100_0000,
        -0x100_0000 <= monitor_rect.y <= 0x100_0000,
    ensures
        ({
            let layout = stack_layout(monitor_rect, PreviewZoom::Overview);
            let active = preview_frame_rect(monitor_rect, layout, 0);
            let left = active.x - monitor_rect.x;
            let right = monitor_rect.width - active.width - left;
            let above = active.y - monitor_rect.y;
            let below = monitor_rect.height - active.height - above;
            &&& monitor_rect.width <= 2 * active.width <= monitor_rect.width + 1
            &&& monitor_rect.height <= 2 * active.height <= monitor_rect.height + 1
            &&& 0 <= left <= right <= left + 1
            &&& 0 <= above <= below <= above + 1
            &&& layout.frame_width == active.width && layout.frame_height == active.height
            &&& layout.active_frame_y == active.y
            &&& layout.gap >= 1
            &&& layout.gap > 1 ==> monitor_rect.height - 10 <= 20 * layout.gap
                <= monitor_rect.height + 10
            &&& layout.gap == 1 ==> monitor_rect.height <= 30
        }),
{
    law_halves_are_rounded_up(monitor_rect.width as nat);
    law_halves_are_rounded_up(monitor_rect.height as nat);
    lemma_gap_is_a_twentieth(monitor_rect.height);
    let layout = stack_layout(monitor_rect, PreviewZoom::Overview);
    assert(0 * stack_step(layout) == 0) by (nonlinear_arith);
}

proof fn lemma_gap_is_a_twentieth(height: u32)
    requires
        0 < height,
    ensures
        ({
            let gap = zoomed_gap(height, PreviewZoom::Overview);
            &&& gap >= 1
            &&& gap > 1 ==> height - 10 <= 20 * gap <= height + 10
            &&& gap == 1 ==> height <= 30
        }),
{
    let h = height as nat;
    let g = GAP_MANTISSA as nat;
    let n = h * g;
    assert(n < 0x10_0000_0000_0000_0000_0000) by (nonlinear_arith)
        requires
            n == h * g,
            h <= 0xffff_ffff,
            g == 3602879701896397,
    ;
    let j = excess_bits(n);
    lemma_rounding_is_near(n);
    let p = nearest_even(n, pow2(j));
    let tenth = product((h, 0), gap_ratio());
    assert(tenth == (p, j - 55));
    lemma_exact_halving(p);
    let half = product(tenth, (1, -1));
    let jj = pow2(j);
    lemma_pow2_pos(j);
    lemma_pow2_adds(j, (56 - j) as nat);
    let d = pow2((56 - j) as nat);
    lemma_pow2_pos((56 - j) as nat);
    lemma2_to64();
    let v = round_half_up(half.0, half.1);
    assert(p * 1 == p);
    assert(v == (2 * p + d) / (2 * d)) by {
        if excess_bits(p) == 1 {
            // The mantissa has lost its last bit, which is zero.
            let e = (55 - j) as nat;
            lemma_pow2_unfold((56 - j) as nat);
            let dd = pow2(e);
            lemma_pow2_pos(e);
            assert(d == 2 * dd);
            assert(p == 2 * half.0);
            assert(half.1 == -(e as int));
            assert((2 * half.0 + dd) / (2 * dd) == (2 * p + d) / (2 * d)) by (nonlinear_arith)
                requires
                    p == 2 * half.0,
                    d == 2 * dd,
                    dd > 0,
            ;
        } else {
            assert(half == (p, j - 56));
        }
    }
    assert(v * (2 * d) <= 2 * p + d < v * (2 * d) + 2 * d) by (nonlinear_arith)
        requires
            v == (2 * p + d) / (2 * d),
            d > 0,
    ;
    let s = 0x100_0000_0000_0000int;
    lemma_pow2_adds(32, 24);
    assert(d * jj == s) by (nonlinear_arith)
        requires
            jj * d == s,
    ;
    assert(v * (2 * d) * jj == 2 * (v * s)) by (nonlinear_arith)
        requires
            d * jj == s,
    ;
    assert((2 * p + d) * jj == 2 * (p * jj) + s) by (nonlinear_arith)
        requires
            d * jj == s,
    ;
    assert((v * (2 * d) + 2 * d) * jj == 2 * (v * s) + 2 * s) by (nonlinear_arith)
        requires
            d * jj == s,
    ;
    assert(v * (2 * d) * jj <= (2 * p + d) * jj <= (v * (2 * d) + 2 * d) * jj) by (nonlinear_arith)
        requires
            v * (2 * d) <= 2 * p + d < v * (2 * d) + 2 * d,
            jj > 0,
    ;
    assert(20 * n == h * 0x100_0000_0000_0000 + 4 * h) by (nonlinear_arith)
        requires
            n == h * g,
            g == 3602879701896397,
    ;
    assert(20 * v <= h + 10 && h <= 20 * v + 10) by (nonlinear_arith)
        requires
            2 * (v * s) <= 2 * (p * jj) + s,
            2 * (p * jj) + s <= 2 * (v * s) + 2 * s,
            -(n as int) <= 0x20_0000_0000_0000 * (p * jj - n) <= n,
            n < 0x10_0000_0000_0000_0000_0000,
            20 * n == h * 0x100_0000_0000_0000 + 4 * h,
            h <= 0xffff_ffff,
            s == 0x100_0000_0000_0000,
    ;
}

/// Each further preview starts one preview and one gap lower, as long as the coordinates fit,
/// and all of them have the same size and stand in one column.
pub proof fn law_previews_stand_one_below_another(
    monitor_rect: Rect,
    layout: PreviewStackLayout,
    offset: int,
)
    requires
        layout.frame_height <= 0x100_0000,
        0 <= layout.gap <= 0x100_0000,
        -0x100_0000 <= layout.active_frame_y <= 0x100_0000,
        -0x10 <= offset < 0x10,
    ensures
        ({
            let upper = preview_frame_rect(monitor_rect, layout, offset);
            let lower = preview_frame_rect(monitor_rect, layout, offset + 1);
            &&& lower.y == upper.y + upper.height + layout.gap
            &&& lower.x == upper.x && lower.width == upper.width && lower.height == upper.height
            &&& upper.height == layout.frame_height
        }),
{
    let step = stack_step(layout);
    assert(offset * step <= 0x10 * 0x200_0000 && offset * step >= -0x10 * 0x200_0000)
        by (nonlinear_arith)
        requires
            0 <= step <= 0x200_0000,
            -0x10 <= offset <= 0x10,
    ;
    assert((offset + 1) * step == offset * step + step) by (nonlinear_arith);
}

/// The active workspace lives on the monitor itself, each further one a monitor's height lower,
/// and all of them have the monitor's size.
pub proof fn law_workspaces_live_one_below_another(monitor_rect: Rect, offset: int)
    requires
        monitor_rect.height <= 0x100_0000,
        -0x100_0000 <= monitor_rect.y <= 0x100_0000,
        -0x10 <= offset < 0x10,
    ensures
        live_rect(monitor_rect, 0) == monitor_rect,
        live_rect(monitor_rect, offset + 1).y == live_rect(monitor_rect, offset).y
            + monitor_rect.height,
        live_rect(monitor_rect, offset).x == monitor_rect.x,
        live_rect(monitor_rect, offset).width == monitor_rect.width,
        live_rect(monitor_rect, offset).height == monitor_rect.height,
{
    let step = monitor_rect.height as int;
    assert(offset * step <= 0x10 * 0x100_0000 && offset * step >= -0x10 * 0x100_0000)
        by (nonlinear_arith)
        requires
            0 <= step <= 0x100_0000,
            -0x10 <= offset <= 0x10,
    ;
    assert((offset + 1) * step == offset * step + step) by (nonlinear_arith);
    assert(0 * step == 0) by (nonlinear_arith);
}

/// A preview's canvas is as high as its frame and as wide as the monitor.
pub proof fn law_canvases_span_the_monitor(frame_rect: Rect, monitor_rect: Rect)
    ensures
        canvas_rect(frame_rect, monitor_rect).x == monitor_rect.x,
        canvas_rect(frame_rect, monitor_rect).width == monitor_rect.width,
        canvas_rect(frame_rect, monitor_rect).y == frame_rect.y,
        canvas_rect(frame_rect, monitor_rect).height == frame_rect.height,
{
}

/// The integer nearest to `p * 2^-e`, as far as the bounds of `p` tell.
proof fn lemma_rounded_value(n: nat, e: nat, shift: nat)
    requires
        n < 0x1_0000_0000_0000_0000_0000_0000_0000_0000,
        shift == excess_bits(n),
        shift <= e,
    ensures
        ({
            let v = round_half_up(nearest_even(n, pow2(shift)), shift - e);
            let s = pow2(e);
            &&& -(s as int) * 0x20_0000_0000_0000 - 2 * n <= 0x20_0000_0000_0000 * (2 * (v * s) - 2
                * n) <= s * 0x20_0000_0000_0000 + 2 * n
        }),
{
    lemma_rounding_is_near(n);
    let p = nearest_even(n, pow2(shift));
    let jj = pow2(shift);
    let rest = (e - shift) as nat;
    let d = pow2(rest);
    let s = pow2(e);
    lemma_pow2_pos(shift);
    lemma_pow2_pos(rest);
    lemma_pow2_adds(rest, shift);
    let v = round_half_up(p, shift - e);
    if rest == 0 {
        lemma2_to64();
        assert(v == p * 1);
        assert(v * s == p * jj) by (nonlinear_arith)
            requires
                v == p,
                s == jj,
        ;
    } else {
        assert(v == (2 * p + d) / (2 * d));
        assert(v * (2 * d) <= 2 * p + d < v * (2 * d) + 2 * d) by (nonlinear_arith)
            requires
                v == (2 * p + d) / (2 * d),
                d > 0,
        ;
        assert(-(s as int) <= 2 * (v * s) - 2 * (p * jj) <= s) by (nonlinear_arith)
            requires
                v * (2 * d) <= 2 * p + d,
                2 * p + d < v * (2 * d) + 2 * d,
                s == d * jj,
                jj > 0,
        ;
    }
}

/// An extent at the larger zoom is seven tenths of it, to the nearest pixel.
pub proof fn law_larger_previews_are_seven_tenths(extent: u32)
    requires
        extent > 0,
    ensures
        ({
            let zoomed = scaled_extent(extent, PreviewZoom::OpenCloseSource.value());
            &&& zoomed >= 1
            &&& 7 * extent - 5 <= 10 * zoomed <= 7 * extent + 5
        }),
{
    let n = extent as nat;
    let z = ZOOM_MANTISSA as nat;
    let product = n * z;
    assert(product < 0x10_0000_0000_0000_0000_0000) by (nonlinear_arith)
        requires
            product == n * z,
            n <= 0xffff_ffff,
            z == 3152519739159347,
    ;
    lemma_rounding_is_near(product);
    let j = excess_bits(product);
    lemma_rounded_value(product, 52, j);
    lemma2_to64();
    lemma_pow2_adds(32, 20);
    let v = scaled(n, PreviewZoom::OpenCloseSource.value());
    assert(v == round_half_up(nearest_even(product, pow2(j)), j - 52));
    assert(10 * product == 7 * (n * 0x10_0000_0000_0000) - 2 * n) by (nonlinear_arith)
        requires
            product == n * z,
            z == 3152519739159347,
    ;
    assert(7 * n - 5 <= 10 * v <= 7 * n + 5) by (nonlinear_arith)
        requires
            -0x10_0000_0000_0000 * 0x20_0000_0000_0000 - 2 * product <= 0x20_0000_0000_0000 * (2 * (v
                * 0x10_0000_0000_0000) - 2 * product),
            0x20_0000_0000_0000 * (2 * (v * 0x10_0000_0000_0000) - 2 * product)
                <= 0x10_0000_0000_0000 * 0x20_0000_0000_0000 + 2 * product,
            10 * product == 7 * (n * 0x10_0000_0000_0000) - 2 * n,
            n <= 0xffff_ffff,
            n >= 0,
    ;
}

/// The gap between two of the larger previews is seven hundredths of the monitor's height, to
/// the nearest pixel, but at least one.
pub proof fn law_larger_previews_keep_their_gap(height: u32)
    requires
        height > 0,
    ensures
        ({
            let gap = zoomed_gap(height, PreviewZoom::OpenCloseSource);
            &&& gap >= 1
            &&& gap > 1 ==> 7 * height - 50 <= 100 * gap <= 7 * height + 50
            &&& gap == 1 ==> 7 * height <= 150
        }),
{
    let h = height as nat;
    let g = GAP_MANTISSA as nat;
    let z = ZOOM_MANTISSA as nat;
    let n = h * g;
    assert(n < 0x10_0000_0000_0000_0000_0000) by (nonlinear_arith)
        requires
            n == h * g,
            h <= 0xffff_ffff,
            g == 3602879701896397,
    ;
    lemma_rounding_is_near(n);
    let j = excess_bits(n);
    let jj = pow2(j);
    let p = nearest_even(n, jj);
    let pz = p * z;
    assert(pz < 0x1_0000_0000_0000_0000_0000_0000_0000_0000) by (nonlinear_arith)
        requires
            pz == p * z,
            p <= 0x20_0000_0000_0000,
            z == 3152519739159347,
    ;
    lemma_rounding_is_near(pz);
    let k = excess_bits(pz);
    let e = (107 - j) as nat;
    lemma_rounded_value(pz, e, k);
    let tenth = product((h, 0), gap_ratio());
    assert(tenth == (p, j - 55));
    let zoomed = product(tenth, PreviewZoom::OpenCloseSource.value());
    assert(zoomed == (nearest_even(pz, pow2(k)), k - e));
    let v = round_half_up(zoomed.0, zoomed.1);
    let s = pow2(e);
    lemma_pow2_pos(j);
    lemma_pow2_pos(e);
    lemma_pow2_adds(e, j);
    lemma2_to64();
    lemma_pow2_adds(64, 32);
    lemma_pow2_adds(96, 11);
    let unit = 0x800_0000_0000_0000_0000_0000_0000int;
    assert(s * jj == unit);
    // Everything in parts of the unit.
    let left = 0x20_0000_0000_0000 * (2 * (v * s) - 2 * pz);
    let pj = p * jj;
    assert(left * jj == 0x20_0000_0000_0000 * (2 * (v * unit) - 2 * (pj * z))) by (nonlinear_arith)
        requires
            left == 0x20_0000_0000_0000 * (2 * (v * s) - 2 * pz),
            pz == p * z,
            pj == p * jj,
            s * jj == unit,
    ;
    assert(-(unit * 0x20_0000_0000_0000) - 2 * (pj * z) <= left * jj <= unit * 0x20_0000_0000_0000
        + 2 * (pj * z)) by (nonlinear_arith)
        requires
            -(s as int) * 0x20_0000_0000_0000 - 2 * pz <= left,
            left <= s * 0x20_0000_0000_0000 + 2 * pz,
            pz == p * z,
            pj == p * jj,
            s * jj == unit,
            jj > 0,
    ;
    assert(-(n * z) <= 0x20_0000_0000_0000 * (pj * z - n * z) <= n * z) by (nonlinear_arith)
        requires
            -(n as int) <= 0x20_0000_0000_0000 * (pj - n) <= n,
            z >= 0,
    ;
    assert(100 * (n * z) == h * (7 * unit - 9007199254740996)) by (nonlinear_arith)
        requires
            n == h * g,
            g == 3602879701896397,
            z == 3152519739159347,
            unit == 0x800_0000_0000_0000_0000_0000_0000,
    ;
    let nz = n * z;
    let pjz = pj * z;
    let vu = v * unit;
    let hu = h * unit;
    assert(h * (7 * unit - 9007199254740996) == 7 * hu - 9007199254740996 * h) by (nonlinear_arith)
        requires
            hu == h * unit,
    ;
    assert(hu <= 0xffff_ffff * unit) by (nonlinear_arith)
        requires
            hu == h * unit,
            h <= 0xffff_ffff,
            unit > 0,
    ;
    assert(100 * vu - 7 * hu <= 50 * unit + unit - 1 && 7 * hu - 100 * vu <= 50 * unit + unit - 1);
    assert(100 * v - 7 * h <= 50 && 7 * h - 100 * v <= 50) by (nonlinear_arith)
        requires
            100 * vu - 7 * hu <= 50 * unit + unit - 1,
            7 * hu - 100 * vu <= 50 * unit + unit - 1,
            vu == v * unit,
            hu == h * unit,
            unit > 0,
    ;
}

/// At either zoom the active preview is centred on the monitor.
pub proof fn law_previews_are_centred(monitor_rect: Rect, zoom: PreviewZoom, offset: int)
    requires
        0 < monitor_rect.width <= 0x100_0000,
        0 < monitor_rect.height <= 0x100_0000,
        -0x100_0000 <= monitor_rect.x <= 0x100_0000,
        -0x100_0000 <= monitor_rect.y <= 0x100_0000,
    ensures
        ({
            let layout = stack_layout(monitor_rect, zoom);
            let active = preview_frame_rect(monitor_rect, layout, 0);
            let left = active.x - monitor_rect.x;
            let right = monitor_rect.width - active.width - left;
            let above = active.y - monitor_rect.y;
            let below = monitor_rect.height - active.height - above;
            &&& 0 <= left <= right <= left + 1
            &&& 0 <= above <= below <= above + 1
            &&& preview_frame_rect(monitor_rect, layout, offset).x == active.x
        }),
{
    law_halves_are_rounded_up(monitor_rect.width as nat);
    law_halves_are_rounded_up(monitor_rect.height as nat);
    law_larger_previews_are_seven_tenths(monitor_rect.width);
    law_larger_previews_are_seven_tenths(monitor_rect.height);
    let layout = stack_layout(monitor_rect, zoom);
    assert(0 * stack_step(layout) == 0) by (nonlinear_arith);
}

} // verus!
