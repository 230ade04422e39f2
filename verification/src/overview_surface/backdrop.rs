//! The window behind the previews.

use crate::arith::max_i32;
use crate::geometry::Rect;
use crate::win32::{rgb_color, win32_edges_or_nothing, win32_extent, Win32Rect};
use vstd::prelude::*;

verus! {

use crate::arith::max_int;
use crate::win32::{edges_or_nothing, pixel_height, pixel_width};

/// What the backdrop shows: a snapshot of the screen where its handle is not zero, and a
/// column in which the previews stand.
#[derive(Clone, Copy, Debug, PartialEq, Eq, Structural)]
pub struct BackdropWindowState {
    pub shell_snapshot_bitmap: isize,
    pub viewport_column_rect: Option<Rect>,
}

impl BackdropWindowState {
    pub fn new() -> (r: BackdropWindowState)
        ensures
            r == (BackdropWindowState { shell_snapshot_bitmap: 0, viewport_column_rect: None }),
    {
        BackdropWindowState { shell_snapshot_bitmap: 0, viewport_column_rect: None }
    }

    /// Replaces the snapshot and hands out the former one, which has to be destroyed unless
    /// it is zero. The backdrop has to be painted again.
    pub fn set_backdrop_snapshot(&mut self, bitmap: isize) -> (r: isize)
        ensures
            r == old(self).shell_snapshot_bitmap,
            *final(self) == (BackdropWindowState { shell_snapshot_bitmap: bitmap, ..*old(self) }),
    {
        let previous: isize = self.shell_snapshot_bitmap;
        self.shell_snapshot_bitmap = bitmap;
        previous
    }

    pub fn clear_backdrop_snapshot(&mut self) -> (r: isize)
        ensures
            r == old(self).shell_snapshot_bitmap,
            *final(self) == (BackdropWindowState { shell_snapshot_bitmap: 0, ..*old(self) }),
    {
        self.set_backdrop_snapshot(0)
    }

    /// Moves the column; the backdrop has to be painted again where that changes anything.
    pub fn set_backdrop_viewport_column(&mut self, rect: Option<Rect>) -> (r: bool)
        ensures
            r == (old(self).viewport_column_rect != rect),
            *final(self) == (BackdropWindowState { viewport_column_rect: rect, ..*old(self) }),
    {
        let same: bool = match (self.viewport_column_rect, rect) {
            (Some(current), Some(wanted)) => current == wanted,
            (None, None) => true,
            _ => false,
        };
        self.viewport_column_rect = rect;
        !same
    }

    pub fn clear_backdrop_viewport_column(&mut self) -> (r: bool)
        ensures
            r == (old(self).viewport_column_rect is Some),
            *final(self) == (BackdropWindowState { viewport_column_rect: None, ..*old(self) }),
    {
        self.set_backdrop_viewport_column(None)
    }

    /// What painting the backdrop takes: the snapshot or a plain fill, and then the column.
    pub fn paint_backdrop(&self) -> (r: (bool, Option<Win32Rect>))
        ensures
            r.0 == (self.shell_snapshot_bitmap != 0),
            r.1 == (match self.viewport_column_rect {
                Some(rect) => Some(edges_or_nothing(rect)),
                None => None,
            }),
    {
        let column: Option<Win32Rect> = match self.viewport_column_rect {
            Some(rect) => Some(paint_backdrop_viewport_column(rect)),
            None => None,
        };
        (self.shell_snapshot_bitmap != 0, column)
    }
}

pub fn paint_backdrop_viewport_column(column_rect: Rect) -> (r: Win32Rect)
    ensures
        r == edges_or_nothing(column_rect),
{
    win32_edges_or_nothing(column_rect)
}

/// How a rectangle is painted with a given opacity.
#[derive(Clone, Copy, Debug, PartialEq, Eq, Structural)]
pub enum AlphaPaint {
    Nothing,
    Solid,
    /// A one-pixel bitmap is stretched over an area of this size.
    Blend { width: i32, height: i32 },
}

/// An invisible rectangle is not painted and an opaque one is filled. Where blending fails
/// the rectangle is filled as well.
pub fn plan_alpha_rect(rect: Win32Rect, alpha: u8) -> (r: AlphaPaint)
    requires
        0 < alpha < 255 ==> i32::MIN <= rect.right - rect.left <= i32::MAX,
        0 < alpha < 255 ==> i32::MIN <= rect.bottom - rect.top <= i32::MAX,
    ensures
        r == (if alpha == 0 {
            AlphaPaint::Nothing
        } else if alpha == 255 {
            AlphaPaint::Solid
        } else {
            AlphaPaint::Blend {
                width: max_int(rect.right - rect.left, 1) as i32,
                height: max_int(rect.bottom - rect.top, 1) as i32,
            }
        }),
{
    if alpha == 0 {
        return AlphaPaint::Nothing;
    }
    if alpha == u8::MAX {
        return AlphaPaint::Solid;
    }
    AlphaPaint::Blend {
        width: max_i32(rect.right - rect.left, 1),
        height: max_i32(rect.bottom - rect.top, 1),
    }
}

/// The size of a snapshot of a part of the screen.
pub fn snapshot_extent(rect: Rect) -> (r: Result<(i32, i32), String>)
    ensures
        match r {
            Ok((width, height)) => width == pixel_width(rect) && height == pixel_height(rect),
            Err(text) => text@ == (if pixel_width(rect) > i32::MAX {
                "shell snapshot width overflowed"@
            } else {
                "shell snapshot height overflowed"@
            }),
        },
        r is Ok <==> pixel_width(rect) <= i32::MAX && pixel_height(rect) <= i32::MAX,
{
    win32_extent(rect, "shell snapshot width overflowed", "shell snapshot height overflowed")
}

/// The colour of a backdrop without a wallpaper.
pub fn backdrop_color() -> (r: u32)
    ensures
        r == 0x26_2626,
{
    rgb_color(0x26, 0x26, 0x26)
}

/// The colour of the column behind the previews.
pub fn preview_background_color() -> (r: u32)
    ensures
        r == 0x16_1616,
{
    rgb_color(0x16, 0x16, 0x16)
}

/// An invisible rectangle is not painted and an opaque one filled; any other one is blended
/// over its whole area, but over one pixel a side at least.
pub proof fn law_opacity_decides_the_painting(rect: Win32Rect, alpha: u8, r: AlphaPaint)
    requires
        call_ensures(plan_alpha_rect, (rect, alpha), r),
        i32::MIN <= rect.right - rect.left <= i32::MAX,
        i32::MIN <= rect.bottom - rect.top <= i32::MAX,
    ensures
        r is Nothing <==> alpha == 0,
        r is Solid <==> alpha == 0xff,
        r matches AlphaPaint::Blend { width, height } ==> (rect.left < rect.right ==> rect.left
            + width == rect.right) && (rect.left >= rect.right ==> width == 1) && (rect.top
            < rect.bottom ==> rect.top + height == rect.bottom) && (rect.top >= rect.bottom
            ==> height == 1),
{
}

/// A snapshot is as large as the part of the screen, but of one pixel a side at least; what
/// is too large is told, the width before the height.
pub proof fn law_snapshots_are_as_large_as_the_screen(rect: Rect, r: Result<(i32, i32), String>)
    requires
        call_ensures(snapshot_extent, (rect,), r),
    ensures
        r is Ok <==> rect.width <= 0x7fff_ffff && rect.height <= 0x7fff_ffff,
        r matches Ok(extent) ==> extent.0 == (if rect.width == 0 {
            1
        } else {
            rect.width as int
        }) && extent.1 == (if rect.height == 0 {
            1
        } else {
            rect.height as int
        }),
        rect.width > 0x7fff_ffff ==> (r matches Err(text) && text@
            == "shell snapshot width overflowed"@),
        rect.width <= 0x7fff_ffff && rect.height > 0x7fff_ffff ==> (r matches Err(text) && text@
            == "shell snapshot height overflowed"@),
{
}

/// The column behind the previews is darker than the backdrop; both are grey.
pub proof fn law_the_column_is_darker(backdrop: u32, column: u32)
    requires
        call_ensures(backdrop_color, (), backdrop),
        call_ensures(preview_background_color, (), column),
    ensures
        column < backdrop,
        backdrop == 0x26 * 0x1_0101,
        column == 0x16 * 0x1_0101,
{
}

/// The column is painted over the whole of its rectangle.
pub proof fn law_the_column_is_painted_whole(column_rect: Rect, r: Win32Rect)
    requires
        call_ensures(paint_backdrop_viewport_column, (column_rect,), r),
        0 < column_rect.width && 0 < column_rect.height,
        column_rect.x + column_rect.width <= 0x7fff_ffff,
        column_rect.y + column_rect.height <= 0x7fff_ffff,
        column_rect.width <= 0x7fff_ffff && column_rect.height <= 0x7fff_ffff,
    ensures
        r.left == column_rect.x && r.top == column_rect.y,
        r.right - r.left == column_rect.width,
        r.bottom - r.top == column_rect.height,
{
}

/// A new snapshot takes the place of the old one, which is handed out to be destroyed; the
/// column stays. A new column leaves the snapshot, and is painted where it differs.
pub proof fn law_snapshots_and_columns_are_replaced(
    first: &mut BackdropWindowState,
    bitmap: isize,
    former: isize,
    second: &mut BackdropWindowState,
    rect: Option<Rect>,
    changed: bool,
)
    requires
        call_ensures(BackdropWindowState::set_backdrop_snapshot, (first, bitmap), former),
        call_ensures(BackdropWindowState::set_backdrop_viewport_column, (second, rect), changed),
    ensures
        former == old(first).shell_snapshot_bitmap,
        final(first).shell_snapshot_bitmap == bitmap,
        final(first).viewport_column_rect == old(first).viewport_column_rect,
        changed <==> old(second).viewport_column_rect != rect,
        final(second).viewport_column_rect == rect,
        final(second).shell_snapshot_bitmap == old(second).shell_snapshot_bitmap,
{
}

/// Clearing takes the snapshot, or the column, away and leaves the other; what was there is
/// told.
pub proof fn law_clearing_takes_one_away(
    first: &mut BackdropWindowState,
    former: isize,
    second: &mut BackdropWindowState,
    changed: bool,
)
    requires
        call_ensures(BackdropWindowState::clear_backdrop_snapshot, (first,), former),
        call_ensures(BackdropWindowState::clear_backdrop_viewport_column, (second,), changed),
    ensures
        former == old(first).shell_snapshot_bitmap,
        final(first).shell_snapshot_bitmap == 0,
        final(first).viewport_column_rect == old(first).viewport_column_rect,
        changed <==> old(second).viewport_column_rect is Some,
        final(second).viewport_column_rect is None,
        final(second).shell_snapshot_bitmap == old(second).shell_snapshot_bitmap,
{
}

/// A backdrop with a snapshot shows it, and then the column where there is one.
pub proof fn law_backdrops_show_snapshot_and_column(
    state: &BackdropWindowState,
    r: (bool, Option<Win32Rect>),
)
    requires
        call_ensures(BackdropWindowState::paint_backdrop, (state,), r),
    ensures
        r.0 <==> state.shell_snapshot_bitmap != 0,
        r.1 is Some <==> state.viewport_column_rect is Some,
        state.viewport_column_rect matches Some(rect) ==> r.1 == Some(edges_or_nothing(rect)),
{
}

} // verus!
