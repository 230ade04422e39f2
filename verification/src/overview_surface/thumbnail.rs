//! Which part of a live window a thumbnail shows, and where.

use crate::arith::{at_least_one, div_i64, max_i32, saturating_sub_i32};
use crate::double::{ceiling_sum, floor_difference, Fraction};
use crate::geometry::{rect_bottom, rect_relative_to, rect_right, Rect};
use crate::win32::{rect_from_win32, Win32Rect};
use vstd::prelude::*;

verus! {

use crate::arith::{clamp_i32, clamp_int, max_int};
use crate::double::{
    ceiling_of_sum, floor_of_difference, law_moving_back_keeps_the_proportion,
    law_moving_on_keeps_the_proportion, product, quotient,
};
use crate::geometry::relative_to;
use crate::win32::edges_rect;

/// A live window's source part and the place on the overview's window that shows it.
#[derive(Clone, Copy, Debug, PartialEq, Eq, Structural)]
pub struct ThumbnailProjection {
    pub destination_rect: Rect,
    pub source_rect: Rect,
}

/// The part of a source that is left when the shown window is cut at both ends: its start
/// and its end. The source is as long as the window is after scaling, and at least one pixel
/// of it stays.
pub open spec fn source_span(
    origin: int,
    cut_before: int,
    cut_after: int,
    source_length: int,
    window_length: int,
) -> (int, int) {
    let start = clamp_int(cut_before * source_length / window_length, 0, source_length - 1);
    let end = clamp_int(
        source_length - cut_after * source_length / window_length,
        start + 1,
        source_length,
    );
    (origin + start, origin + end)
}

fn compute_source_span(
    origin: i64,
    cut_before: i64,
    cut_after: i64,
    source_length: i64,
    window_length: i64,
) -> (r: (i64, i64))
    requires
        0 <= origin <= i32::MAX,
        0 <= cut_before <= i32::MAX,
        0 <= cut_after <= i32::MAX,
        1 <= source_length <= u32::MAX,
        1 <= window_length <= u32::MAX,
    ensures
        (r.0 as int, r.1 as int) == source_span(
            origin as int,
            cut_before as int,
            cut_after as int,
            source_length as int,
            window_length as int,
        ),
        origin <= r.0 < r.1 <= origin + source_length,
{
    assert(0 <= cut_before * source_length <= 0x7fff_ffff * 0xffff_ffff) by (nonlinear_arith)
        requires
            0 <= cut_before <= 0x7fff_ffff,
            1 <= source_length <= 0xffff_ffff,
    ;
    assert(0 <= cut_after * source_length <= 0x7fff_ffff * 0xffff_ffff) by (nonlinear_arith)
        requires
            0 <= cut_after <= 0x7fff_ffff,
            1 <= source_length <= 0xffff_ffff,
    ;
    let before: i64 = div_i64(cut_before * source_length, window_length);
    let after: i64 = div_i64(cut_after * source_length, window_length);
    let start: i64 = if before > source_length - 1 {
        source_length - 1
    } else {
        before
    };
    let left: i64 = source_length - after;
    let end: i64 = if left < start + 1 {
        start + 1
    } else if left > source_length {
        source_length
    } else {
        left
    };
    (origin + start, origin + end)
}

/// How far one coordinate lies beyond another, as far as it fits.
pub open spec fn overhang(outer: int, inner: int) -> int {
    max_int(clamp_i32(outer - inner), 0)
}

fn compute_overhang(outer: i32, inner: i32) -> (r: i32)
    ensures
        r == overhang(outer as int, inner as int),
{
    max_i32(saturating_sub_i32(outer, inner), 0)
}

/// The projection of a window that is shown in a rectangle and clipped to another: where it
/// goes, seen from an origin, and the part of the source that falls on it.
pub open spec fn projection_of(
    window_rect: Rect,
    clipped_rect: Rect,
    origin_rect: Rect,
    source_rect: Rect,
) -> Option<ThumbnailProjection> {
    if window_rect.width == 0 || window_rect.height == 0 {
        None
    } else {
        let (left, right) = source_span(
            max_int(source_rect.x as int, 0),
            overhang(clipped_rect.x as int, window_rect.x as int),
            overhang(window_rect.right(), clipped_rect.right()),
            max_int(source_rect.width as int, 1),
            window_rect.width as int,
        );
        let (top, bottom) = source_span(
            max_int(source_rect.y as int, 0),
            overhang(clipped_rect.y as int, window_rect.y as int),
            overhang(window_rect.bottom(), clipped_rect.bottom()),
            max_int(source_rect.height as int, 1),
            window_rect.height as int,
        );
        Some(
            ThumbnailProjection {
                destination_rect: relative_to(clipped_rect, origin_rect),
                source_rect: Rect {
                    x: clamp_int(left, 0, i32::MAX as int) as i32,
                    y: clamp_int(top, 0, i32::MAX as int) as i32,
                    width: clamp_int(right - left, 1, u32::MAX as int) as u32,
                    height: clamp_int(bottom - top, 1, u32::MAX as int) as u32,
                },
            },
        )
    }
}

pub fn thumbnail_projection(
    window_rect: Rect,
    clipped_rect: Rect,
    visible_canvas_rect: Rect,
    source_rect: Rect,
) -> (r: Option<ThumbnailProjection>)
    ensures
        r == projection_of(window_rect, clipped_rect, visible_canvas_rect, source_rect),
{
    if window_rect.width == 0 || window_rect.height == 0 {
        return None;
    }
    let (left, right): (i64, i64) = compute_source_span(
        max_i32(source_rect.x, 0) as i64,
        compute_overhang(clipped_rect.x, window_rect.x) as i64,
        compute_overhang(rect_right(window_rect), rect_right(clipped_rect)) as i64,
        at_least_one(source_rect.width) as i64,
        window_rect.width as i64,
    );
    let (top, bottom): (i64, i64) = compute_source_span(
        max_i32(source_rect.y, 0) as i64,
        compute_overhang(clipped_rect.y, window_rect.y) as i64,
        compute_overhang(rect_bottom(window_rect), rect_bottom(clipped_rect)) as i64,
        at_least_one(source_rect.height) as i64,
        window_rect.height as i64,
    );
    let x: i32 = if left > i32::MAX as i64 {
        i32::MAX
    } else {
        left as i32
    };
    let y: i32 = if top > i32::MAX as i64 {
        i32::MAX
    } else {
        top as i32
    };
    Some(
        ThumbnailProjection {
            destination_rect: rect_relative_to(clipped_rect, visible_canvas_rect),
            source_rect: Rect::new(x, y, (right - left) as u32, (bottom - top) as u32),
        },
    )
}

/// The size of a thumbnail's source, of at least one pixel a side.
pub fn thumbnail_source_rect(width: i32, height: i32) -> (r: Rect)
    ensures
        r == (Rect {
            x: 0,
            y: 0,
            width: max_int(width as int, 1) as u32,
            height: max_int(height as int, 1) as u32,
        }),
{
    Rect::new(0, 0, max_i32(width, 1) as u32, max_i32(height, 1) as u32)
}

/// A window's bounds with and without its invisible border, and where the whole of it would
/// be shown.
#[derive(Clone, Copy, Debug, PartialEq, Eq, Structural)]
pub struct FullWindowPreviewGeometry {
    pub destination_rect: Rect,
    pub outer_rect: Rect,
    pub visible_rect: Rect,
}

/// Whether the visible frame of a window lies within its bounds, and neither is empty.
pub open spec fn frame_compatible(outer_rect: Rect, visible_rect: Rect) -> bool {
    &&& outer_rect.width > 0 && outer_rect.height > 0
    &&& visible_rect.width > 0 && visible_rect.height > 0
    &&& visible_rect.x >= outer_rect.x && visible_rect.y >= outer_rect.y
    &&& visible_rect.right() <= outer_rect.right()
    &&& visible_rect.bottom() <= outer_rect.bottom()
}

pub fn visible_frame_is_compatible(outer_rect: Rect, visible_rect: Rect) -> (r: Option<()>)
    ensures
        r is Some <==> frame_compatible(outer_rect, visible_rect),
{
    if outer_rect.width > 0 && outer_rect.height > 0 && visible_rect.width > 0
        && visible_rect.height > 0 && visible_rect.x >= outer_rect.x && visible_rect.y
        >= outer_rect.y && rect_right(visible_rect) <= rect_right(outer_rect) && rect_bottom(
        visible_rect,
    ) <= rect_bottom(outer_rect) {
        Some(())
    } else {
        None
    }
}

/// A span that shows the visible part of something, widened at both ends to show all of it
/// at the same scale; a pixel that is touched counts.
pub open spec fn widened_span(
    start: int,
    end: int,
    inset_before: int,
    inset_after: int,
    shown_length: u32,
    visible_length: u32,
) -> (int, int) {
    let scale = quotient(shown_length as nat, visible_length as nat);
    (
        floor_of_difference(start, product((inset_before as nat, 0), scale)),
        ceiling_of_sum(end, product((inset_after as nat, 0), scale)),
    )
}

fn widen_span(
    start: i32,
    end: i32,
    inset_before: i32,
    inset_after: i32,
    shown_length: u32,
    visible_length: u32,
) -> (r: (i128, i128))
    requires
        inset_before >= 0,
        inset_after >= 0,
        shown_length > 0,
        visible_length > 0,
    ensures
        (r.0 as int, r.1 as int) == widened_span(
            start as int,
            end as int,
            inset_before as int,
            inset_after as int,
            shown_length,
            visible_length,
        ),
        -0x100_0000_0000_0000_0000_0000_0000_0000 <= r.0
            <= 0x100_0000_0000_0000_0000_0000_0000_0000,
        -0x100_0000_0000_0000_0000_0000_0000_0000 <= r.1
            <= 0x100_0000_0000_0000_0000_0000_0000_0000,
{
    let scale: Fraction = Fraction::ratio(shown_length, visible_length);
    let before: Fraction = Fraction::whole(inset_before as u64).times(scale);
    let after: Fraction = Fraction::whole(inset_after as u64).times(scale);
    (floor_difference(start as i64, before), ceiling_sum(end as i64, after))
}

/// Where the whole of a window has to be shown so that its visible part falls on a
/// destination; none where either is empty.
pub open spec fn expanded_destination(
    visible_destination: Rect,
    outer_rect: Rect,
    visible_rect: Rect,
) -> Option<Rect> {
    if visible_destination.width == 0 || visible_destination.height == 0 || visible_rect.width == 0
        || visible_rect.height == 0 {
        None
    } else {
        let (left, right) = widened_span(
            visible_destination.x as int,
            visible_destination.right(),
            overhang(visible_rect.x as int, outer_rect.x as int),
            overhang(outer_rect.right(), visible_rect.right()),
            visible_destination.width,
            visible_rect.width,
        );
        let (top, bottom) = widened_span(
            visible_destination.y as int,
            visible_destination.bottom(),
            overhang(visible_rect.y as int, outer_rect.y as int),
            overhang(outer_rect.bottom(), visible_rect.bottom()),
            visible_destination.height,
            visible_rect.height,
        );
        Some(
            Rect {
                x: clamp_i32(left) as i32,
                y: clamp_i32(top) as i32,
                width: clamp_int(right - left, 1, u32::MAX as int) as u32,
                height: clamp_int(bottom - top, 1, u32::MAX as int) as u32,
            },
        )
    }
}

fn clamp_wide_to_i32(v: i128) -> (r: i32)
    ensures
        r == clamp_i32(v as int),
{
    if v < i32::MIN as i128 {
        i32::MIN
    } else if v > i32::MAX as i128 {
        i32::MAX
    } else {
        v as i32
    }
}

fn clamp_wide_to_extent(v: i128) -> (r: u32)
    ensures
        r == clamp_int(v as int, 1, u32::MAX as int),
{
    if v < 1 {
        1
    } else if v > u32::MAX as i128 {
        u32::MAX
    } else {
        v as u32
    }
}

pub fn expand_destination_rect_to_outer_bounds(
    visible_destination_rect: Rect,
    outer_rect: Rect,
    visible_rect: Rect,
) -> (r: Option<Rect>)
    ensures
        r == expanded_destination(visible_destination_rect, outer_rect, visible_rect),
{
    if visible_destination_rect.width == 0 || visible_destination_rect.height == 0
        || visible_rect.width == 0 || visible_rect.height == 0 {
        return None;
    }
    let (left, right): (i128, i128) = widen_span(
        visible_destination_rect.x,
        rect_right(visible_destination_rect),
        compute_overhang(visible_rect.x, outer_rect.x),
        compute_overhang(rect_right(outer_rect), rect_right(visible_rect)),
        visible_destination_rect.width,
        visible_rect.width,
    );
    let (top, bottom): (i128, i128) = widen_span(
        visible_destination_rect.y,
        rect_bottom(visible_destination_rect),
        compute_overhang(visible_rect.y, outer_rect.y),
        compute_overhang(rect_bottom(outer_rect), rect_bottom(visible_rect)),
        visible_destination_rect.height,
        visible_rect.height,
    );
    Some(
        Rect::new(
            clamp_wide_to_i32(left),
            clamp_wide_to_i32(top),
            clamp_wide_to_extent(right - left),
            clamp_wide_to_extent(bottom - top),
        ),
    )
}

/// The geometry of a window whose bounds, with and without the invisible border, were
/// reported; none where one was not, or the two do not fit together.
pub open spec fn full_window_geometry(
    outer: Option<Win32Rect>,
    visible: Option<Win32Rect>,
    visible_destination: Rect,
) -> Option<FullWindowPreviewGeometry> {
    match (outer, visible) {
        (Some(outer), Some(visible)) => {
            let outer_rect = edges_rect(outer);
            let visible_rect = edges_rect(visible);
            match expanded_destination(visible_destination, outer_rect, visible_rect) {
                Some(destination_rect) => if frame_compatible(outer_rect, visible_rect) {
                    Some(FullWindowPreviewGeometry { destination_rect, outer_rect, visible_rect })
                } else {
                    None
                },
                None => None,
            }
        },
        _ => None,
    }
}

pub fn full_window_preview_geometry_for_preview(
    outer: Option<Win32Rect>,
    visible: Option<Win32Rect>,
    visible_destination_rect: Rect,
) -> (r: Option<FullWindowPreviewGeometry>)
    ensures
        r == full_window_geometry(outer, visible, visible_destination_rect),
{
    let outer_rect: Rect = match outer {
        Some(edges) => rect_from_win32(edges),
        None => {
            return None;
        },
    };
    let visible_rect: Rect = match visible {
        Some(edges) => rect_from_win32(edges),
        None => {
            return None;
        },
    };
    if visible_frame_is_compatible(outer_rect, visible_rect).is_none() {
        return None;
    }
    match expand_destination_rect_to_outer_bounds(
        visible_destination_rect,
        outer_rect,
        visible_rect,
    ) {
        Some(destination_rect) => Some(
            FullWindowPreviewGeometry { destination_rect, outer_rect, visible_rect },
        ),
        None => None,
    }
}

proof fn lemma_source_span_inside(
    origin: int,
    cut_before: int,
    cut_after: int,
    source_length: int,
    window_length: int,
)
    requires
        cut_before >= 0,
        cut_after >= 0,
        source_length >= 1,
        window_length >= 1,
    ensures
        ({
            let (start, end) = source_span(
                origin,
                cut_before,
                cut_after,
                source_length,
                window_length,
            );
            &&& origin <= start < end <= origin + source_length
            &&& cut_before == 0 ==> start == origin
            &&& cut_after == 0 ==> end == origin + source_length
        }),
{
    assert(0 * source_length == 0) by (nonlinear_arith);
    assert(0int / window_length == 0) by (nonlinear_arith)
        requires
            window_length >= 1,
    ;
    assert(cut_before * source_length >= 0) by (nonlinear_arith)
        requires
            cut_before >= 0,
            source_length >= 1,
    ;
    assert(cut_before * source_length / window_length >= 0) by (nonlinear_arith)
        requires
            cut_before * source_length >= 0,
            window_length >= 1,
    ;
    assert(cut_after * source_length >= 0) by (nonlinear_arith)
        requires
            cut_after >= 0,
            source_length >= 1,
    ;
    assert(cut_after * source_length / window_length >= 0) by (nonlinear_arith)
        requires
            cut_after * source_length >= 0,
            window_length >= 1,
    ;
}

/// The source of a projection is never empty and lies within the source that was measured,
/// as long as that one's coordinates fit.
pub proof fn law_projection_stays_in_the_source(
    window_rect: Rect,
    clipped_rect: Rect,
    origin_rect: Rect,
    source_rect: Rect,
)
    requires
        source_rect.x >= 0 && source_rect.y >= 0,
        source_rect.width >= 1 && source_rect.height >= 1,
        source_rect.x + source_rect.width <= i32::MAX,
        source_rect.y + source_rect.height <= i32::MAX,
    ensures
        projection_of(window_rect, clipped_rect, origin_rect, source_rect) matches Some(projection)
            ==> {
            let part = projection.source_rect;
            &&& part.width >= 1 && part.height >= 1
            &&& source_rect.x <= part.x && part.x + part.width <= source_rect.x + source_rect.width
            &&& source_rect.y <= part.y && part.y + part.height <= source_rect.y
                + source_rect.height
        },
{
    if window_rect.width > 0 && window_rect.height > 0 {
        lemma_source_span_inside(
            source_rect.x as int,
            overhang(clipped_rect.x as int, window_rect.x as int),
            overhang(window_rect.right(), clipped_rect.right()),
            source_rect.width as int,
            window_rect.width as int,
        );
        lemma_source_span_inside(
            source_rect.y as int,
            overhang(clipped_rect.y as int, window_rect.y as int),
            overhang(window_rect.bottom(), clipped_rect.bottom()),
            source_rect.height as int,
            window_rect.height as int,
        );
    }
}

/// A window that is not clipped shows all of its source.
pub proof fn law_unclipped_window_shows_all(
    window_rect: Rect,
    origin_rect: Rect,
    source_rect: Rect,
)
    requires
        window_rect.width > 0 && window_rect.height > 0,
        source_rect.x >= 0 && source_rect.y >= 0,
        source_rect.width >= 1 && source_rect.height >= 1,
    ensures
        projection_of(window_rect, window_rect, origin_rect, source_rect) == Some(
            ThumbnailProjection {
                destination_rect: relative_to(window_rect, origin_rect),
                source_rect,
            },
        ),
{
    lemma_source_span_inside(
        source_rect.x as int,
        0,
        0,
        source_rect.width as int,
        window_rect.width as int,
    );
    lemma_source_span_inside(
        source_rect.y as int,
        0,
        0,
        source_rect.height as int,
        window_rect.height as int,
    );
}

/// Where a window is cut, its source is cut in proportion: by as many whole pixels as the
/// share of the window that is cut off is worth.
pub proof fn law_sources_are_cut_in_proportion(
    origin: int,
    cut_before: int,
    cut_after: int,
    source_length: int,
    window_length: int,
)
    requires
        0 <= cut_before && 0 <= cut_after,
        cut_before + cut_after < window_length,
        1 <= source_length,
    ensures
        ({
            let (start, end) = source_span(
                origin,
                cut_before,
                cut_after,
                source_length,
                window_length,
            );
            let before = start - origin;
            let after = origin + source_length - end;
            &&& 0 <= before && 0 <= after && before + after < source_length
            &&& before * window_length <= cut_before * source_length < (before + 1) * window_length
            &&& after * window_length <= cut_after * source_length < (after + 1) * window_length
        }),
{
    let a = cut_before * source_length / window_length;
    let b = cut_after * source_length / window_length;
    assert(0 <= a && a * window_length <= cut_before * source_length < (a + 1) * window_length)
        by (nonlinear_arith)
        requires
            a == cut_before * source_length / window_length,
            0 <= cut_before,
            1 <= source_length,
            window_length > 0,
    ;
    assert(0 <= b && b * window_length <= cut_after * source_length < (b + 1) * window_length)
        by (nonlinear_arith)
        requires
            b == cut_after * source_length / window_length,
            0 <= cut_after,
            1 <= source_length,
            window_length > 0,
    ;
    assert(a + b < source_length) by (nonlinear_arith)
        requires
            a * window_length <= cut_before * source_length,
            b * window_length <= cut_after * source_length,
            cut_before + cut_after < window_length,
            1 <= source_length,
            window_length > 0,
    ;
}

/// A clipped window goes where its visible part stands, seen from the origin, and as large as
/// that part; the source is cut at the same sides and in the same proportion.
pub proof fn law_projections_show_the_visible_part(
    window: Rect,
    clipped: Rect,
    origin: Rect,
    source: Rect,
)
    requires
        0 < clipped.width && 0 < clipped.height,
        window.x <= clipped.x && clipped.x + clipped.width <= window.x + window.width,
        window.y <= clipped.y && clipped.y + clipped.height <= window.y + window.height,
        window.width <= 0x7fff_ffff && window.height <= 0x7fff_ffff,
        window.x + window.width <= 0x7fff_ffff && window.y + window.height <= 0x7fff_ffff,
        -0x8000_0000 <= clipped.x - origin.x <= 0x7fff_ffff,
        -0x8000_0000 <= clipped.y - origin.y <= 0x7fff_ffff,
        0 <= source.x && 0 <= source.y && 0 < source.width && 0 < source.height,
        source.x + source.width <= 0x7fff_ffff && source.y + source.height <= 0x7fff_ffff,
    ensures
        projection_of(window, clipped, origin, source) matches Some(projection) && {
            let to = projection.destination_rect;
            let from = projection.source_rect;
            let left = from.x - source.x;
            let top = from.y - source.y;
            let right = (source.x + source.width) - (from.x + from.width);
            let bottom = (source.y + source.height) - (from.y + from.height);
            &&& to.x == clipped.x - origin.x && to.y == clipped.y - origin.y
            &&& to.width == clipped.width && to.height == clipped.height
            &&& left * window.width <= (clipped.x - window.x) * source.width < (left + 1)
                * window.width
            &&& top * window.height <= (clipped.y - window.y) * source.height < (top + 1)
                * window.height
            &&& right * window.width <= ((window.x + window.width) - (clipped.x + clipped.width))
                * source.width < (right + 1) * window.width
            &&& bottom * window.height <= ((window.y + window.height) - (clipped.y
                + clipped.height)) * source.height < (bottom + 1) * window.height
        },
{
    law_sources_are_cut_in_proportion(
        source.x as int,
        clipped.x - window.x,
        (window.x + window.width) - (clipped.x + clipped.width),
        source.width as int,
        window.width as int,
    );
    law_sources_are_cut_in_proportion(
        source.y as int,
        clipped.y - window.y,
        (window.y + window.height) - (clipped.y + clipped.height),
        source.height as int,
        window.height as int,
    );
}

/// A window without an extent has no projection.
pub proof fn law_empty_windows_are_not_projected(
    window: Rect,
    clipped: Rect,
    origin: Rect,
    source: Rect,
)
    ensures
        projection_of(window, clipped, origin, source) is None <==> window.width == 0
            || window.height == 0,
{
}

/// The source of a thumbnail starts at its corner and is as large as it was measured, but one
/// pixel a side at least.
pub proof fn law_sources_are_measured_from_the_corner(width: i32, height: i32, r: Rect)
    requires
        call_ensures(thumbnail_source_rect, (width, height), r),
    ensures
        r.x == 0 && r.y == 0,
        width >= 1 ==> r.width == width,
        width < 1 ==> r.width == 1,
        height >= 1 ==> r.height == height,
        height < 1 ==> r.height == 1,
{
}

/// The visible frame of a window fits its bounds exactly where neither is empty and it lies
/// within them on all four sides.
pub proof fn law_visible_frames_lie_within(outer: Rect, visible: Rect, r: Option<()>)
    requires
        call_ensures(visible_frame_is_compatible, (outer, visible), r),
        outer.width <= 0x7fff_ffff && outer.height <= 0x7fff_ffff,
        visible.width <= 0x7fff_ffff && visible.height <= 0x7fff_ffff,
        outer.x + outer.width <= 0x7fff_ffff && outer.y + outer.height <= 0x7fff_ffff,
        visible.x + visible.width <= 0x7fff_ffff && visible.y + visible.height <= 0x7fff_ffff,
    ensures
        r is Some <==> {
            &&& 0 < outer.width && 0 < outer.height && 0 < visible.width && 0 < visible.height
            &&& outer.x <= visible.x && visible.x + visible.width <= outer.x + outer.width
            &&& outer.y <= visible.y && visible.y + visible.height <= outer.y + outer.height
        },
{
}

/// The geometry of a window is known exactly where both of its bounds were reported, fit
/// together and have a destination; it holds the two as they were reported.
pub proof fn law_geometry_needs_both_bounds(
    outer: Option<Win32Rect>,
    visible: Option<Win32Rect>,
    destination: Rect,
)
    ensures
        outer is None || visible is None ==> full_window_geometry(outer, visible, destination)
            is None,
        outer is Some && visible is Some ==> (full_window_geometry(outer, visible, destination)
            is Some <==> frame_compatible(edges_rect(outer->0), edges_rect(visible->0))
            && destination.width > 0 && destination.height > 0),
        full_window_geometry(outer, visible, destination) matches Some(geometry) ==> {
            &&& geometry.outer_rect == edges_rect(outer->0)
            &&& geometry.visible_rect == edges_rect(visible->0)
            &&& Some(geometry.destination_rect) == expanded_destination(
                destination,
                geometry.outer_rect,
                geometry.visible_rect,
            )
        },
{
}

/// A destination that shows the visible part of a window is widened on each side by that
/// side's border, at the scale at which the visible part is shown: to within a pixel, and
/// never by less.
pub proof fn law_destinations_are_widened_to_scale(shown: Rect, outer: Rect, visible: Rect)
    requires
        0 < shown.width <= 0x4_0000 && 0 < shown.height <= 0x4_0000,
        0 < visible.width <= 0x4_0000 && 0 < visible.height <= 0x4_0000,
        -0x40_0000 <= shown.x <= 0x40_0000 && -0x40_0000 <= shown.y <= 0x40_0000,
        outer.x <= visible.x <= outer.x + 0x1000 && outer.y <= visible.y <= outer.y + 0x1000,
        visible.x + visible.width <= outer.x + outer.width <= visible.x + visible.width + 0x1000,
        visible.y + visible.height <= outer.y + outer.height <= visible.y + visible.height + 0x1000,
        -0x40_0000 <= outer.x && outer.x + outer.width <= 0x40_0000,
        -0x40_0000 <= outer.y && outer.y + outer.height <= 0x40_0000,
    ensures
        expanded_destination(shown, outer, visible) matches Some(whole) && {
            let left = (shown.x - whole.x) * visible.width;
            let top = (shown.y - whole.y) * visible.height;
            let right = ((whole.x + whole.width) - (shown.x + shown.width)) * visible.width;
            let bottom = ((whole.y + whole.height) - (shown.y + shown.height)) * visible.height;
            let left_border = (visible.x - outer.x) * shown.width;
            let top_border = (visible.y - outer.y) * shown.height;
            let right_border = ((outer.x + outer.width) - (visible.x + visible.width))
                * shown.width;
            let bottom_border = ((outer.y + outer.height) - (visible.y + visible.height))
                * shown.height;
            &&& left_border <= left <= left_border + visible.width
            &&& top_border <= top <= top_border + visible.height
            &&& right_border <= right <= right_border + visible.width
            &&& bottom_border <= bottom <= bottom_border + visible.height
        },
{
    lemma_widened_span(
        shown.x as int,
        shown.x + shown.width,
        visible.x - outer.x,
        (outer.x + outer.width) - (visible.x + visible.width),
        shown.width,
        visible.width,
    );
    lemma_widened_span(
        shown.y as int,
        shown.y + shown.height,
        visible.y - outer.y,
        (outer.y + outer.height) - (visible.y + visible.height),
        shown.height,
        visible.height,
    );
}

proof fn lemma_widened_span(
    start: int,
    end: int,
    before: int,
    after: int,
    shown: u32,
    visible: u32,
)
    requires
        0 < shown <= 0x4_0000 && 0 < visible <= 0x4_0000,
        -0x40_0000 <= start <= end <= 0x44_0000,
        0 <= before <= 0x1000 && 0 <= after <= 0x1000,
    ensures
        ({
            let (left, right) = widened_span(start, end, before, after, shown, visible);
            &&& before * shown <= (start - left) * visible <= before * shown + visible
            &&& after * shown <= (right - end) * visible <= after * shown + visible
            &&& -0x4100_0000 <= left <= start && end <= right <= 0x4100_0000
        }),
{
    let (left, right) = widened_span(start, end, before, after, shown, visible);
    assert(0 <= before * shown <= 0x4000_0000 && 0 <= after * shown <= 0x4000_0000)
        by (nonlinear_arith)
        requires
            0 < shown <= 0x4_0000,
            0 <= before <= 0x1000,
            0 <= after <= 0x1000,
    ;
    law_moving_back_keeps_the_proportion(start, before as nat, shown as nat, visible as nat);
    law_moving_on_keeps_the_proportion(end, after as nat, shown as nat, visible as nat);
    let v = visible as int;
    assert((start - left) * v == start * v - left * v) by (nonlinear_arith);
    assert((right - end) * v == right * v - end * v) by (nonlinear_arith);
    assert((left + 1) * v == left * v + v && (right - 1) * v == right * v - v)
        by (nonlinear_arith);
    assert(0 <= start - left <= 0x4000_0001) by (nonlinear_arith)
        requires
            0 <= (start - left) * v <= 0x4000_0000 + v,
            v >= 1,
    ;
    assert(0 <= right - end <= 0x4000_0001) by (nonlinear_arith)
        requires
            0 <= (right - end) * v <= 0x4000_0000 + v,
            v >= 1,
    ;
}

} // verus!
