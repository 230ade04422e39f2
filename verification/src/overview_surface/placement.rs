//! Where the overview's windows stand on the screen and in the stack of windows.

use crate::geometry::Rect;
use crate::win32::{
    last_error_message, win32_extent, HWND_NOTOPMOST, HWND_TOPMOST, SWP_NOACTIVATE, SWP_NOZORDER,
    SWP_SHOWWINDOW,
};
use vstd::prelude::*;

verus! {

use crate::win32::{last_error_text, pixel_height, pixel_width};

/// Where a window was put last.
#[derive(Clone, Copy, Debug, PartialEq, Eq, Structural)]
pub struct OverlayWindowPlacement {
    pub rect: Option<Rect>,
    pub visible: bool,
    pub topmost: bool,
    pub child_insert_after: Option<isize>,
}

impl Default for OverlayWindowPlacement {
    fn default() -> (r: OverlayWindowPlacement)
        ensures
            r == (OverlayWindowPlacement {
                rect: None,
                visible: false,
                topmost: false,
                child_insert_after: None,
            }),
    {
        OverlayWindowPlacement {
            rect: None,
            visible: false,
            topmost: false,
            child_insert_after: None,
        }
    }
}

/// The arguments of `SetWindowPos` for a window.
#[derive(Clone, Copy, Debug, PartialEq, Eq, Structural)]
pub struct PositionCall {
    pub insert_after: isize,
    pub x: i32,
    pub y: i32,
    pub width: i32,
    pub height: i32,
    pub flags: u32,
}

/// Shows a window that always stands above all others. It is placed by one call and then
/// shown without taking the focus.
pub fn show_overlay_window(rect: Rect) -> (r: Result<PositionCall, String>)
    ensures
        match r {
            Ok(call) => pixel_width(rect) <= i32::MAX && pixel_height(rect) <= i32::MAX && call
                == (PositionCall {
                insert_after: HWND_TOPMOST,
                x: rect.x,
                y: rect.y,
                width: pixel_width(rect) as i32,
                height: pixel_height(rect) as i32,
                flags: SWP_NOACTIVATE | SWP_SHOWWINDOW,
            }),
            Err(text) => if pixel_width(rect) > i32::MAX {
                text@ == "overlay width exceeds Win32 limits"@
            } else {
                pixel_height(rect) > i32::MAX && text@ == "overlay height exceeds Win32 limits"@
            },
        },
{
    match win32_extent(
        rect,
        "overlay width exceeds Win32 limits",
        "overlay height exceeds Win32 limits",
    ) {
        Ok((width, height)) => Ok(
            PositionCall {
                insert_after: HWND_TOPMOST,
                x: rect.x,
                y: rect.y,
                width,
                height,
                flags: SWP_NOACTIVATE | SWP_SHOWWINDOW,
            },
        ),
        Err(error) => Err(error),
    }
}

/// Where a window goes in the stack, and whether it keeps its place there.
///
/// A window is inserted behind the one it is told to follow, while the overview wants it
/// above. So the layering is made by the order of the calls, each of which moves its window
/// to the top.
pub open spec fn z_order_target(
    insert_after: Option<isize>,
    topmost: bool,
    was_topmost: bool,
) -> (isize, bool) {
    if insert_after is Some {
        (
            if topmost {
                HWND_TOPMOST
            } else {
                0
            },
            false,
        )
    } else if was_topmost != topmost {
        (
            if topmost {
                HWND_TOPMOST
            } else {
                HWND_NOTOPMOST
            },
            false,
        )
    } else {
        (0, true)
    }
}

pub fn resolve_z_order_target(
    insert_after: Option<isize>,
    topmost: bool,
    placement: &OverlayWindowPlacement,
    flags: &mut u32,
) -> (r: isize)
    ensures
        r == z_order_target(insert_after, topmost, placement.topmost).0,
        *final(flags) == (if z_order_target(insert_after, topmost, placement.topmost).1 {
            *old(flags) | SWP_NOZORDER
        } else {
            *old(flags)
        }),
{
    if insert_after.is_some() {
        return if topmost {
            HWND_TOPMOST
        } else {
            0
        };
    }
    if placement.topmost != topmost {
        return if topmost {
            HWND_TOPMOST
        } else {
            HWND_NOTOPMOST
        };
    }
    *flags = *flags | SWP_NOZORDER;
    0
}

impl OverlayWindowPlacement {
    /// Whether a window stands where it is wanted.
    pub open spec fn in_place(self, rect: Rect, topmost: bool, insert_after: Option<isize>) -> bool {
        self.visible && self.rect == Some(rect) && self.topmost == topmost
            && self.child_insert_after == insert_after
    }

    /// The call that puts a window where it is wanted.
    pub open spec fn position_call(
        self,
        rect: Rect,
        show: bool,
        topmost: bool,
        insert_after: Option<isize>,
    ) -> PositionCall {
        let (target, keeps_place) = z_order_target(insert_after, topmost, self.topmost);
        let shown: u32 = if show && !self.visible {
            SWP_NOACTIVATE | SWP_SHOWWINDOW
        } else {
            SWP_NOACTIVATE
        };
        PositionCall {
            insert_after: target,
            x: rect.x,
            y: rect.y,
            width: pixel_width(rect) as i32,
            height: pixel_height(rect) as i32,
            flags: if keeps_place {
                shown | SWP_NOZORDER
            } else {
                shown
            },
        }
    }

    /// The placement once a window has been put where it was wanted.
    pub open spec fn placed(
        self,
        rect: Rect,
        show: bool,
        topmost: bool,
        insert_after: Option<isize>,
    ) -> OverlayWindowPlacement {
        OverlayWindowPlacement {
            rect: Some(rect),
            visible: self.visible || show,
            topmost,
            child_insert_after: insert_after,
        }
    }

    pub open spec fn hidden(self) -> OverlayWindowPlacement {
        if self.visible {
            OverlayWindowPlacement { visible: false, child_insert_after: None, ..self }
        } else {
            self
        }
    }
}

/// What it takes to put a window where it is wanted: a call, or nothing where it stands
/// there; an extent that Win32 does not take is an error.
pub fn position_window_with_order(
    rect: Rect,
    show: bool,
    topmost: bool,
    insert_after: Option<isize>,
    placement: &OverlayWindowPlacement,
) -> (r: Result<Option<PositionCall>, String>)
    ensures
        match r {
            Ok(None) => placement.in_place(rect, topmost, insert_after),
            Ok(Some(call)) => !placement.in_place(rect, topmost, insert_after) && call
                == placement.position_call(rect, show, topmost, insert_after),
            Err(text) => text@ == (if pixel_width(rect) > i32::MAX {
                "overview width overflowed"@
            } else {
                "overview height overflowed"@
            }),
        },
        r is Err <==> pixel_width(rect) > i32::MAX || pixel_height(rect) > i32::MAX,
{
    let (width, height): (i32, i32) = match win32_extent(
        rect,
        "overview width overflowed",
        "overview height overflowed",
    ) {
        Ok(extent) => extent,
        Err(text) => {
            return Err(text);
        },
    };
    let same_rect: bool = match placement.rect {
        Some(current) => current == rect,
        None => false,
    };
    let same_order: bool = match (placement.child_insert_after, insert_after) {
        (Some(left), Some(right)) => left == right,
        (None, None) => true,
        _ => false,
    };
    if placement.visible && same_rect && placement.topmost == topmost && same_order {
        return Ok(None);
    }
    let mut flags: u32 = SWP_NOACTIVATE;
    if show && !placement.visible {
        flags = flags | SWP_SHOWWINDOW;
    }
    let target: isize = resolve_z_order_target(insert_after, topmost, placement, &mut flags);
    Ok(
        Some(
            PositionCall { insert_after: target, x: rect.x, y: rect.y, width, height, flags },
        ),
    )
}

/// The backdrop and other windows that are not layered relative to one another stand among
/// the topmost windows.
pub fn position_window(rect: Rect, show: bool, placement: &OverlayWindowPlacement) -> (r: Result<
    Option<PositionCall>,
    String,
>)
    ensures
        match r {
            Ok(None) => placement.in_place(rect, true, None),
            Ok(Some(call)) => !placement.in_place(rect, true, None) && call
                == placement.position_call(rect, show, true, None),
            Err(text) => text@ == (if pixel_width(rect) > i32::MAX {
                "overview width overflowed"@
            } else {
                "overview height overflowed"@
            }),
        },
        r is Err <==> pixel_width(rect) > i32::MAX || pixel_height(rect) > i32::MAX,
{
    position_window_with_order(rect, show, true, None, placement)
}

/// Takes note of what a positioning call did.
pub fn finish_position(
    rect: Rect,
    show: bool,
    topmost: bool,
    insert_after: Option<isize>,
    placement: &mut OverlayWindowPlacement,
    applied: bool,
    error: u32,
) -> (r: Result<(), String>)
    ensures
        applied ==> r is Ok && *final(placement) == old(placement).placed(
            rect,
            show,
            topmost,
            insert_after,
        ),
        !applied ==> *final(placement) == *old(placement) && r is Err && (r->Err_0)@
            == last_error_text("SetWindowPos"@, error),
{
    if !applied {
        return Err(last_error_message("SetWindowPos", error));
    }
    placement.rect = Some(rect);
    placement.topmost = topmost;
    placement.child_insert_after = insert_after;
    if show {
        placement.visible = true;
    }
    Ok(())
}

/// Hides a window; the caller has to do so where it was visible.
pub fn hide_overlay_window(placement: &mut OverlayWindowPlacement) -> (r: bool)
    ensures
        r == old(placement).visible,
        *final(placement) == old(placement).hidden(),
{
    if !placement.visible {
        return false;
    }
    placement.visible = false;
    placement.child_insert_after = None;
    true
}

/// A window that has been shown somewhere needs no further call to stand there, and a hidden
/// one is shown again by the next call.
pub proof fn law_positioning_settles(
    placement: OverlayWindowPlacement,
    rect: Rect,
    topmost: bool,
    insert_after: Option<isize>,
)
    ensures
        placement.placed(rect, true, topmost, insert_after).in_place(rect, topmost, insert_after),
        !placement.hidden().visible,
        placement.hidden().hidden() == placement.hidden(),
        !placement.hidden().in_place(rect, topmost, insert_after),
        insert_after is Some ==> placement.hidden().position_call(
            rect,
            true,
            topmost,
            insert_after,
        ).flags == SWP_NOACTIVATE | SWP_SHOWWINDOW,
{
}

/// A window that always stands above all others is put on its rectangle, in front of every
/// topmost one, shown and not activated.
pub proof fn law_overlays_stand_above_all(rect: Rect, r: Result<PositionCall, String>)
    requires
        call_ensures(show_overlay_window, (rect,), r),
        rect.width > 0 && rect.height > 0,
    ensures
        r is Ok <==> rect.width <= 0x7fff_ffff && rect.height <= 0x7fff_ffff,
        r matches Ok(call) ==> call.insert_after == -1 && call.x == rect.x && call.y == rect.y
            && call.width == rect.width && call.height == rect.height && call.flags == 0x10u32
            | 0x40u32,
        rect.width > 0x7fff_ffff ==> (r matches Err(text) && text@
            == "overlay width exceeds Win32 limits"@),
        rect.width <= 0x7fff_ffff && rect.height > 0x7fff_ffff ==> (r matches Err(text) && text@
            == "overlay height exceeds Win32 limits"@),
{
}

/// Where a window goes in the stack. One that follows another goes to the top, of the topmost
/// windows if it is one of them; one that becomes topmost, or ceases to be, moves; every other
/// one keeps its place.
pub proof fn law_windows_move_only_when_they_must(
    insert_after: Option<isize>,
    topmost: bool,
    was_topmost: bool,
)
    ensures
        ({
            let (target, keeps) = z_order_target(insert_after, topmost, was_topmost);
            &&& keeps <==> insert_after is None && topmost == was_topmost
            &&& !keeps && topmost ==> target == -1
            &&& insert_after is Some && !topmost ==> target == 0
            &&& insert_after is None && was_topmost && !topmost ==> target == -2
            &&& keeps ==> target == 0
        }),
{
}

/// A window is put on its rectangle and never activated. It is shown where it is wanted and
/// was not visible, and its place in the stack is left alone where it keeps it.
pub proof fn law_windows_are_put_on_their_rectangle(
    placement: OverlayWindowPlacement,
    rect: Rect,
    show: bool,
    topmost: bool,
    insert_after: Option<isize>,
)
    requires
        0 < rect.width <= 0x7fff_ffff,
        0 < rect.height <= 0x7fff_ffff,
    ensures
        ({
            let call = placement.position_call(rect, show, topmost, insert_after);
            let shown: u32 = if show && !placement.visible {
                0x10u32 | 0x40u32
            } else {
                0x10
            };
            &&& call.x == rect.x && call.y == rect.y
            &&& call.width == rect.width && call.height == rect.height
            &&& call.flags == (if insert_after is None && topmost == placement.topmost {
                shown | 0x04u32
            } else {
                shown
            })
        }),
{
}

/// A window stands where it is wanted only if it is visible, on that rectangle, in that part
/// of the stack and behind that window; nothing is then called for, and else a call is made.
pub proof fn law_only_misplaced_windows_are_moved(
    rect: Rect,
    show: bool,
    topmost: bool,
    insert_after: Option<isize>,
    placement: &OverlayWindowPlacement,
    r: Result<Option<PositionCall>, String>,
)
    requires
        call_ensures(position_window_with_order, (rect, show, topmost, insert_after, placement), r),
        rect.width <= 0x7fff_ffff && rect.height <= 0x7fff_ffff,
    ensures
        r is Ok,
        r->Ok_0 is None <==> placement.visible && placement.rect == Some(rect) && placement.topmost
            == topmost && placement.child_insert_after == insert_after,
        r matches Ok(Some(call)) ==> call == placement.position_call(
            rect,
            show,
            topmost,
            insert_after,
        ),
{
}

/// What is known of a window that has been put somewhere, or hidden.
pub proof fn law_placements_follow_the_calls(
    placement: OverlayWindowPlacement,
    rect: Rect,
    show: bool,
    topmost: bool,
    insert_after: Option<isize>,
)
    ensures
        ({
            let placed = placement.placed(rect, show, topmost, insert_after);
            let hidden = placement.hidden();
            &&& placed.rect == Some(rect) && placed.topmost == topmost && placed.child_insert_after
                == insert_after
            &&& placed.visible == (placement.visible || show)
            &&& !hidden.visible
            &&& hidden.rect == placement.rect && hidden.topmost == placement.topmost
            &&& placement.visible ==> hidden.child_insert_after is None
            &&& !placement.visible ==> hidden.child_insert_after == placement.child_insert_after
        }),
{
}

/// A window that keeps its place in the stack says so in the flags, and no other one does.
pub proof fn law_kept_places_are_flagged(
    insert_after: Option<isize>,
    topmost: bool,
    placement: &OverlayWindowPlacement,
    flags: &mut u32,
    r: isize,
)
    requires
        call_ensures(resolve_z_order_target, (insert_after, topmost, placement, flags), r),
    ensures
        insert_after is None && topmost == placement.topmost ==> *final(flags) == *old(flags)
            | 0x04u32 && r == 0,
        insert_after is Some || topmost != placement.topmost ==> *final(flags) == *old(flags),
        insert_after is Some || topmost != placement.topmost ==> (topmost ==> r == -1),
        insert_after is None && !topmost && placement.topmost ==> r == -2,
        insert_after is Some && !topmost ==> r == 0,
{
}

/// The backdrop stands among the topmost windows, behind none in particular.
pub proof fn law_the_backdrop_is_topmost(
    rect: Rect,
    show: bool,
    placement: &OverlayWindowPlacement,
    r: Result<Option<PositionCall>, String>,
)
    requires
        call_ensures(position_window, (rect, show, placement), r),
    ensures
        r is Err <==> rect.width > 0x7fff_ffff || rect.height > 0x7fff_ffff,
        r matches Ok(None) ==> placement.visible && placement.rect == Some(rect)
            && placement.topmost && placement.child_insert_after is None,
        r matches Ok(Some(call)) ==> call == placement.position_call(rect, show, true, None),
        rect.width > 0x7fff_ffff ==> (r matches Err(text) && text@ == "overview width overflowed"@),
        rect.width <= 0x7fff_ffff && rect.height > 0x7fff_ffff ==> (r matches Err(text) && text@
            == "overview height overflowed"@),
{
}

/// A window stands where it was put once the call has succeeded, and where it stood before
/// when it has failed.
pub proof fn law_failed_calls_move_nothing(
    rect: Rect,
    show: bool,
    topmost: bool,
    insert_after: Option<isize>,
    placement: &mut OverlayWindowPlacement,
    applied: bool,
    error: u32,
    r: Result<(), String>,
)
    requires
        call_ensures(
            finish_position,
            (rect, show, topmost, insert_after, placement, applied, error),
            r,
        ),
    ensures
        r is Ok <==> applied,
        applied ==> final(placement).rect == Some(rect) && final(placement).topmost == topmost
            && final(placement).child_insert_after == insert_after && final(placement).visible == (
        old(placement).visible || show),
        !applied ==> *final(placement) == *old(placement) && (r matches Err(text) && text@
            == last_error_text("SetWindowPos"@, error)),
{
}

/// Hiding a window takes a call exactly where it can be seen.
pub proof fn law_visible_windows_are_hidden(placement: &mut OverlayWindowPlacement, r: bool)
    requires
        call_ensures(hide_overlay_window, (placement,), r),
    ensures
        r <==> old(placement).visible,
        !final(placement).visible,
        final(placement).rect == old(placement).rect,
        final(placement).topmost == old(placement).topmost,
{
}

} // verus!
