//! Screen rectangles.

use crate::arith::{
    at_least_one, clamp_to_i32, div_i64, extent_to_i32, max_i32, min_i32, saturating_add_i32,
    saturating_sub_i32,
};
use vstd::prelude::*;

verus! {

use crate::arith::{clamp_i32, clamp_int, div_toward_zero, max_int, min_int};

/// A rectangle of screen pixels: the corner with the smallest coordinates and an extent.
#[derive(Clone, Copy, Debug, PartialEq, Eq, Structural)]
pub struct Rect {
    pub x: i32,
    pub y: i32,
    pub width: u32,
    pub height: u32,
}

impl Rect {
    pub fn new(x: i32, y: i32, width: u32, height: u32) -> (r: Rect)
        ensures
            r == (Rect { x, y, width, height }),
    {
        Rect { x, y, width, height }
    }

    /// First coordinate to the right of the rectangle, as far as it fits.
    pub open spec fn right(self) -> int {
        clamp_i32(self.x + min_int(self.width as int, i32::MAX as int))
    }

    /// First coordinate below the rectangle, as far as it fits.
    pub open spec fn bottom(self) -> int {
        clamp_i32(self.y + min_int(self.height as int, i32::MAX as int))
    }

    pub open spec fn covers(self, px: int, py: int) -> bool {
        self.x <= px < self.right() && self.y <= py < self.bottom()
    }
}

pub fn rect_right(rect: Rect) -> (r: i32)
    ensures
        r == rect.right(),
{
    saturating_add_i32(rect.x, extent_to_i32(rect.width))
}

pub fn rect_bottom(rect: Rect) -> (r: i32)
    ensures
        r == rect.bottom(),
{
    saturating_add_i32(rect.y, extent_to_i32(rect.height))
}

/// Whether the two rectangles share an open stretch on each axis.
pub open spec fn overlap(left: Rect, right: Rect) -> bool {
    &&& left.right() > right.x
    &&& right.right() > left.x
    &&& left.bottom() > right.y
    &&& right.bottom() > left.y
}

pub fn rects_intersect(left: Rect, right: Rect) -> (r: bool)
    ensures
        r == overlap(left, right),
{
    rect_right(left) > right.x && rect_right(right) > left.x && rect_bottom(left) > right.y
        && rect_bottom(right) > left.y
}

/// The common part of two rectangles, where there is one.
pub open spec fn intersection(left: Rect, right: Rect) -> Option<Rect> {
    let x = max_int(left.x as int, right.x as int);
    let y = max_int(left.y as int, right.y as int);
    let right_edge = min_int(left.right(), right.right());
    let bottom_edge = min_int(left.bottom(), right.bottom());
    if right_edge <= x || bottom_edge <= y {
        None
    } else {
        Some(
            Rect {
                x: x as i32,
                y: y as i32,
                width: (right_edge - x) as u32,
                height: (bottom_edge - y) as u32,
            },
        )
    }
}

pub fn intersect_rect(left: Rect, right: Rect) -> (r: Option<Rect>)
    ensures
        r == intersection(left, right),
{
    let x: i32 = max_i32(left.x, right.x);
    let y: i32 = max_i32(left.y, right.y);
    let right_edge: i32 = min_i32(rect_right(left), rect_right(right));
    let bottom_edge: i32 = min_i32(rect_bottom(left), rect_bottom(right));
    if right_edge <= x || bottom_edge <= y {
        return None;
    }
    Some(
        Rect::new(
            x,
            y,
            (right_edge as i64 - x as i64) as u32,
            (bottom_edge as i64 - y as i64) as u32,
        ),
    )
}

pub open spec fn relative_to(rect: Rect, origin: Rect) -> Rect {
    Rect {
        x: clamp_i32(rect.x - origin.x) as i32,
        y: clamp_i32(rect.y - origin.y) as i32,
        width: rect.width,
        height: rect.height,
    }
}

pub fn rect_relative_to(rect: Rect, origin: Rect) -> (r: Rect)
    ensures
        r == relative_to(rect, origin),
{
    Rect::new(
        saturating_sub_i32(rect.x, origin.x),
        saturating_sub_i32(rect.y, origin.y),
        rect.width,
        rect.height,
    )
}

pub open spec fn translated(rect: Rect, delta_x: int, delta_y: int) -> Rect {
    Rect {
        x: clamp_i32(rect.x + delta_x) as i32,
        y: clamp_i32(rect.y + delta_y) as i32,
        width: rect.width,
        height: rect.height,
    }
}

pub fn translate_rect(rect: Rect, delta_x: i32, delta_y: i32) -> (r: Rect)
    ensures
        r == translated(rect, delta_x as int, delta_y as int),
{
    Rect::new(
        saturating_add_i32(rect.x, delta_x),
        saturating_add_i32(rect.y, delta_y),
        rect.width,
        rect.height,
    )
}

/// Distance from `from` to `to`, as far as it fits.
pub fn signed_axis_delta(from: i32, to: i32) -> (r: i32)
    ensures
        r == clamp_i32(to - from),
{
    clamp_to_i32(to as i64 - from as i64)
}

pub open spec fn moved_between_origins(rect: Rect, from_origin: Rect, to_origin: Rect) -> Rect {
    translated(
        rect,
        clamp_i32(to_origin.x - from_origin.x),
        clamp_i32(to_origin.y - from_origin.y),
    )
}

/// Moves a rectangle as one origin is moved onto another.
pub fn translate_rect_between_origins(rect: Rect, from_origin: Rect, to_origin: Rect) -> (r: Rect)
    ensures
        r == moved_between_origins(rect, from_origin, to_origin),
{
    translate_rect(
        rect,
        signed_axis_delta(from_origin.x, to_origin.x),
        signed_axis_delta(from_origin.y, to_origin.y),
    )
}

pub fn rect_contains_point(rect: Rect, x: i32, y: i32) -> (r: bool)
    ensures
        r == rect.covers(x as int, y as int),
{
    x >= rect.x && x < rect_right(rect) && y >= rect.y && y < rect_bottom(rect)
}

/// The share `progress_milli / 1000` of a distance, rounded toward zero.
pub open spec fn share(distance: int, progress_milli: int) -> int {
    div_toward_zero(distance * progress_milli, 1000)
}

fn share_of(distance: i64, progress_milli: u16) -> (r: i64)
    requires
        -0x1_0000_0000 <= distance <= 0x1_0000_0000,
    ensures
        r == share(distance as int, progress_milli as int),
        -0x1_0000_0000_0000 <= r <= 0x1_0000_0000_0000,
{
    assert(-0x1_0000_0000 * 0x1_0000 <= distance * progress_milli <= 0x1_0000_0000 * 0x1_0000)
        by (nonlinear_arith)
        requires
            -0x1_0000_0000 <= distance <= 0x1_0000_0000,
            0 <= progress_milli <= 0x1_0000,
    ;
    div_i64(distance * progress_milli as i64, 1000)
}

pub fn interpolate_i32(from: i32, to: i32, progress_milli: u16) -> (r: i32)
    ensures
        r == clamp_i32(from + clamp_i32(share(to - from, progress_milli as int))),
{
    let step: i64 = share_of(to as i64 - from as i64, progress_milli);
    saturating_add_i32(from, clamp_to_i32(step))
}

pub fn interpolate_u32(from: u32, to: u32, progress_milli: u16) -> (r: u32)
    ensures
        r == clamp_int(from + share(to - from, progress_milli as int), 1, u32::MAX as int),
{
    let value: i64 = from as i64 + share_of(to as i64 - from as i64, progress_milli);
    if value < 1 {
        1
    } else if value > u32::MAX as i64 {
        u32::MAX
    } else {
        value as u32
    }
}

/// The rectangle at the share `progress_milli / 1000` of the way from one to another, of at
/// least one pixel a side where it is neither.
pub open spec fn between_rects(from: Rect, to: Rect, progress_milli: int) -> Rect {
    if progress_milli == 0 {
        from
    } else if progress_milli >= 1000 {
        to
    } else {
        let from_width = max_int(from.width as int, 1);
        let from_height = max_int(from.height as int, 1);
        let to_width = max_int(to.width as int, 1);
        let to_height = max_int(to.height as int, 1);
        Rect {
            x: clamp_i32(from.x + clamp_i32(share(to.x - from.x, progress_milli))) as i32,
            y: clamp_i32(from.y + clamp_i32(share(to.y - from.y, progress_milli))) as i32,
            width: clamp_int(
                from_width + share(to_width - from_width, progress_milli),
                1,
                u32::MAX as int,
            ) as u32,
            height: clamp_int(
                from_height + share(to_height - from_height, progress_milli),
                1,
                u32::MAX as int,
            ) as u32,
        }
    }
}

pub fn interpolate_rect(from: Rect, to: Rect, progress_milli: u16) -> (r: Rect)
    ensures
        r == between_rects(from, to, progress_milli as int),
{
    if progress_milli == 0 {
        return from;
    }
    if progress_milli >= 1000 {
        return to;
    }
    Rect::new(
        interpolate_i32(from.x, to.x, progress_milli),
        interpolate_i32(from.y, to.y, progress_milli),
        interpolate_u32(at_least_one(from.width), at_least_one(to.width), progress_milli),
        interpolate_u32(at_least_one(from.height), at_least_one(to.height), progress_milli),
    )
}

proof fn lemma_share_stays_between(distance: int, progress_milli: int)
    requires
        0 <= progress_milli <= 1000,
    ensures
        distance >= 0 ==> 0 <= share(distance, progress_milli) <= distance,
        distance <= 0 ==> distance <= share(distance, progress_milli) <= 0,
{
    assert(distance >= 0 ==> 0 <= distance * progress_milli <= distance * 1000)
        by (nonlinear_arith)
        requires
            0 <= progress_milli <= 1000,
    ;
    assert(distance <= 0 ==> distance * 1000 <= distance * progress_milli <= 0)
        by (nonlinear_arith)
        requires
            0 <= progress_milli <= 1000,
    ;
}

/// An animated rectangle starts at the one end, ends at the other, and on the way each of
/// its coordinates and extents lies between those of the two ends; extents of no pixel
/// count as one.
pub proof fn law_interpolation_stays_between(from: Rect, to: Rect, progress_milli: u16)
    ensures
        between_rects(from, to, 0) == from,
        progress_milli >= 1000 ==> between_rects(from, to, progress_milli as int) == to,
        ({
            let r = between_rects(from, to, progress_milli as int);
            let from_width = max_int(from.width as int, 1);
            let from_height = max_int(from.height as int, 1);
            let to_width = max_int(to.width as int, 1);
            let to_height = max_int(to.height as int, 1);
            &&& min_int(from.x as int, to.x as int) <= r.x <= max_int(from.x as int, to.x as int)
            &&& min_int(from.y as int, to.y as int) <= r.y <= max_int(from.y as int, to.y as int)
            &&& min_int(from_width, to_width) <= max_int(r.width as int, 1) <= max_int(
                from_width,
                to_width,
            )
            &&& min_int(from_height, to_height) <= max_int(r.height as int, 1) <= max_int(
                from_height,
                to_height,
            )
        }),
{
    if progress_milli < 1000 {
        let p = progress_milli as int;
        lemma_share_stays_between(to.x - from.x, p);
        lemma_share_stays_between(to.y - from.y, p);
        lemma_share_stays_between(
            max_int(to.width as int, 1) - max_int(from.width as int, 1),
            p,
        );
        lemma_share_stays_between(
            max_int(to.height as int, 1) - max_int(from.height as int, 1),
            p,
        );
    }
}

/// The common part of two rectangles does not depend on their order, and it covers exactly
/// the points that both cover.
pub proof fn law_intersection_is_the_common_part(left: Rect, right: Rect, px: int, py: int)
    ensures
        intersection(left, right) == intersection(right, left),
        match intersection(left, right) {
            Some(common) => common.covers(px, py) <==> left.covers(px, py) && right.covers(px, py),
            None => !(left.covers(px, py) && right.covers(px, py)),
        },
{
}

/// Two rectangles that cover something have a common part exactly where they overlap.
pub proof fn law_overlap_means_a_common_part(left: Rect, right: Rect)
    requires
        left.right() > left.x && left.bottom() > left.y,
        right.right() > right.x && right.bottom() > right.y,
    ensures
        intersection(left, right) is Some <==> overlap(left, right),
{
}

/// Seen from an origin and moved back to it, a rectangle is where it was, as long as the
/// distance fits a coordinate.
pub proof fn law_relative_position_can_be_undone(rect: Rect, origin: Rect)
    requires
        i32::MIN <= rect.x - origin.x <= i32::MAX,
        i32::MIN <= rect.y - origin.y <= i32::MAX,
    ensures
        translated(relative_to(rect, origin), origin.x as int, origin.y as int) == rect,
{
}

/// A rectangle reaches from its corner as far as it is wide and high, as long as that fits.
pub proof fn law_rectangles_reach_as_far_as_they_are_wide(rect: Rect, px: int, py: int)
    requires
        rect.width <= i32::MAX && rect.height <= i32::MAX,
        rect.x + rect.width <= i32::MAX,
        rect.y + rect.height <= i32::MAX,
    ensures
        rect.right() == rect.x + rect.width,
        rect.bottom() == rect.y + rect.height,
        rect.covers(px, py) <==> rect.x <= px < rect.x + rect.width && rect.y <= py < rect.y
            + rect.height,
{
}

/// Two rectangles that cover something overlap exactly where some point is covered by both.
pub proof fn law_overlapping_rectangles_share_a_point(left: Rect, right: Rect)
    requires
        left.right() > left.x && left.bottom() > left.y,
        right.right() > right.x && right.bottom() > right.y,
    ensures
        overlap(left, right) <==> exists|px: int, py: int|
            #[trigger] left.covers(px, py) && right.covers(px, py),
{
    if overlap(left, right) {
        let px = max_int(left.x as int, right.x as int);
        let py = max_int(left.y as int, right.y as int);
        assert(left.covers(px, py) && right.covers(px, py));
    }
}

/// A rectangle that is moved, or looked at from another corner, keeps its size; each of its
/// coordinates changes by the distance, as long as that fits.
pub proof fn law_moving_keeps_the_size(rect: Rect, from: Rect, to: Rect, dx: int, dy: int)
    requires
        i32::MIN <= rect.x + dx <= i32::MAX,
        i32::MIN <= rect.y + dy <= i32::MAX,
        i32::MIN <= rect.x - from.x <= i32::MAX,
        i32::MIN <= rect.y - from.y <= i32::MAX,
        i32::MIN <= to.x - from.x <= i32::MAX,
        i32::MIN <= to.y - from.y <= i32::MAX,
        i32::MIN <= rect.x + (to.x - from.x) <= i32::MAX,
        i32::MIN <= rect.y + (to.y - from.y) <= i32::MAX,
    ensures
        ({
            let moved = translated(rect, dx, dy);
            let seen = relative_to(rect, from);
            let carried_over = moved_between_origins(rect, from, to);
            &&& moved.x == rect.x + dx && moved.y == rect.y + dy
            &&& seen.x == rect.x - from.x && seen.y == rect.y - from.y
            &&& carried_over.x - to.x == rect.x - from.x
            &&& carried_over.y - to.y == rect.y - from.y
            &&& moved.width == rect.width && moved.height == rect.height
            &&& seen.width == rect.width && seen.height == rect.height
            &&& carried_over.width == rect.width && carried_over.height == rect.height
        }),
{
}

/// On its way an animated rectangle has come as far as its progress says, in thousandths of
/// each distance, to the pixel.
pub proof fn law_interpolation_follows_the_progress(from: Rect, to: Rect, progress_milli: int)
    requires
        0 < progress_milli < 1000,
        from.width > 0 && from.height > 0 && to.width > 0 && to.height > 0,
        from.width <= i32::MAX && to.width <= i32::MAX,
        from.height <= i32::MAX && to.height <= i32::MAX,
        -0x4000_0000 <= from.x <= 0x3fff_ffff && -0x4000_0000 <= to.x <= 0x3fff_ffff,
        -0x4000_0000 <= from.y <= 0x3fff_ffff && -0x4000_0000 <= to.y <= 0x3fff_ffff,
    ensures
        ({
            let r = between_rects(from, to, progress_milli);
            &&& -1000 < 1000 * (r.x - from.x) - progress_milli * (to.x - from.x) < 1000
            &&& -1000 < 1000 * (r.y - from.y) - progress_milli * (to.y - from.y) < 1000
            &&& -1000 < 1000 * (r.width - from.width) - progress_milli * (to.width - from.width)
                < 1000
            &&& -1000 < 1000 * (r.height - from.height) - progress_milli * (to.height
                - from.height) < 1000
        }),
{
    lemma_share_is_near(to.x - from.x, progress_milli);
    lemma_share_is_near(to.y - from.y, progress_milli);
    lemma_share_is_near(to.width - from.width, progress_milli);
    lemma_share_is_near(to.height - from.height, progress_milli);
    lemma_share_stays_between(to.x - from.x, progress_milli);
    lemma_share_stays_between(to.y - from.y, progress_milli);
    lemma_share_stays_between(to.width - from.width, progress_milli);
    lemma_share_stays_between(to.height - from.height, progress_milli);
}

proof fn lemma_share_is_near(distance: int, progress_milli: int)
    ensures
        -1000 < 1000 * share(distance, progress_milli) - progress_milli * distance < 1000,
{
    assert(progress_milli * distance == distance * progress_milli) by (nonlinear_arith);
}

} // verus!
