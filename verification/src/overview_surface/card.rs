//! The card that stands for a window on a preview: a border, a title bar with three buttons
//! and a few lines of text.

use crate::arith::{clamp_to_i32, max_i32, saturating_add_i32, saturating_sub_i32};
use crate::double::{scale_round, Fraction};
use crate::geometry::Rect;
use crate::overview_surface::steps::SurfaceWindow;
use crate::win32::{win32_edges_or_nothing, Win32Rect};
use vstd::prelude::*;

verus! {

use crate::arith::{abs_int, clamp_i32, clamp_int, max_int, min_int};
use crate::double::{excess_bits, lemma_rounding_is_near, nearest_even, scaled};
use crate::win32::edges_or_nothing;
use vstd::arithmetic::power2::pow2;
use vstd::arithmetic::power2::{lemma2_to64, lemma_pow2_adds, lemma_pow2_pos};

/// A rectangle filled with a colour.
#[derive(Clone, Copy, Debug, PartialEq, Eq, Structural)]
pub struct Fill {
    pub rect: Win32Rect,
    pub color: u32,
}

pub const WORKSPACE_PREVIEW_BORDER_PX: i32 = 1;

pub const BORDER_COLOR: u32 = 0x66_6666;

pub const FILL_COLOR: u32 = 0x2B_2B2B;

pub const HEADER_COLOR: u32 = 0x39_3939;

pub const CONTENT_COLOR: u32 = 0x4D_4D4D;

pub const CONTENT_SECONDARY_COLOR: u32 = 0x3A_3A3A;

pub const CONTROL_COLOR: u32 = 0x8A_8A8A;

/// `HEADER_MANTISSA` parts of `2^53` are the double nearest to 0.14, the share of a card's
/// height that its title bar takes.
pub const HEADER_MANTISSA: u64 = 1261007895663739;

pub open spec fn header_share() -> (nat, int) {
    (HEADER_MANTISSA as nat, -53)
}

pub open spec fn edges_width(rect: Win32Rect) -> int {
    clamp_i32(rect.right - rect.left)
}

pub open spec fn edges_height(rect: Win32Rect) -> int {
    clamp_i32(rect.bottom - rect.top)
}

pub fn win32_rect_width(rect: Win32Rect) -> (r: i32)
    ensures
        r == edges_width(rect),
{
    saturating_sub_i32(rect.right, rect.left)
}

pub fn win32_rect_height(rect: Win32Rect) -> (r: i32)
    ensures
        r == edges_height(rect),
{
    saturating_sub_i32(rect.bottom, rect.top)
}

/// A rectangle without a margin on each side.
pub open spec fn inset(rect: Win32Rect, margin: int) -> Win32Rect {
    let by = max_int(margin, 0);
    Win32Rect {
        left: clamp_i32(rect.left + by) as i32,
        top: clamp_i32(rect.top + by) as i32,
        right: clamp_i32(rect.right - by) as i32,
        bottom: clamp_i32(rect.bottom - by) as i32,
    }
}

pub fn inset_win32_rect(rect: Win32Rect, margin: i32) -> (r: Win32Rect)
    ensures
        r == inset(rect, margin as int),
{
    let by: i32 = max_i32(margin, 0);
    Win32Rect {
        left: saturating_add_i32(rect.left, by),
        top: saturating_add_i32(rect.top, by),
        right: saturating_sub_i32(rect.right, by),
        bottom: saturating_sub_i32(rect.bottom, by),
    }
}

/// The height of a title bar: 0.14 of the card's, between 8 and 28 pixels.
pub open spec fn header_height(height: int) -> int {
    min_int(clamp_int(scaled(height as nat, header_share()) as int, 8, 28), height)
}

/// The title bar of a card; a card that is too small has none.
pub open spec fn header_rect(window_rect: Win32Rect) -> Option<Win32Rect> {
    if edges_width(window_rect) < 18 || edges_height(window_rect) < 12 {
        None
    } else {
        Some(
            Win32Rect {
                left: window_rect.left,
                top: window_rect.top,
                right: window_rect.right,
                bottom: clamp_i32(
                    window_rect.top + header_height(edges_height(window_rect)),
                ) as i32,
            },
        )
    }
}

pub fn preview_window_header_rect(window_rect: Win32Rect) -> (r: Option<Win32Rect>)
    ensures
        r == header_rect(window_rect),
{
    let width: i32 = win32_rect_width(window_rect);
    let height: i32 = win32_rect_height(window_rect);
    if width < 18 || height < 12 {
        return None;
    }
    let share: u128 = scale_round(
        height as u64,
        Fraction { mantissa: HEADER_MANTISSA, exponent: -53 },
    );
    let bounded: i32 = if share < 8 {
        8
    } else if share > 28 {
        28
    } else {
        share as i32
    };
    let header: i32 = if bounded > height {
        height
    } else {
        bounded
    };
    Some(
        Win32Rect {
            left: window_rect.left,
            top: window_rect.top,
            right: window_rect.right,
            bottom: saturating_add_i32(window_rect.top, header),
        },
    )
}

/// The side of a title bar's buttons.
pub open spec fn button_size(header_height: int) -> int {
    clamp_int(header_height / 4, 2, 5)
}

/// One of the three buttons of a title bar, of 8 to 28 pixels.
pub open spec fn button_rect(header: Win32Rect, index: int) -> Win32Rect {
    let height = edges_height(header);
    let size = button_size(height);
    let top = clamp_i32(header.top + max_int((height - size) / 2, 0));
    let first = clamp_i32(header.left + size + 1);
    let left = if index == 0 {
        first
    } else if index == 1 {
        clamp_i32(first + 2 * size)
    } else {
        clamp_i32(clamp_i32(first + 2 * size) + 2 * size)
    };
    Win32Rect {
        left: left as i32,
        top: top as i32,
        right: clamp_i32(left + size) as i32,
        bottom: clamp_i32(top + size) as i32,
    }
}

/// The fills of the three buttons.
pub open spec fn control_fills(header: Win32Rect) -> Seq<Fill> {
    seq![
        Fill { rect: button_rect(header, 0), color: CONTROL_COLOR },
        Fill { rect: button_rect(header, 1), color: CONTROL_COLOR },
        Fill { rect: button_rect(header, 2), color: CONTROL_COLOR },
    ]
}

fn push_control_fills(fills: &mut Vec<Fill>, header: Win32Rect)
    requires
        edges_height(header) >= 0,
    ensures
        final(fills)@ == old(fills)@ + control_fills(header),
{
    let height: i32 = win32_rect_height(header);
    let quarter: i32 = height / 4;
    let size: i32 = if quarter < 2 {
        2
    } else if quarter > 5 {
        5
    } else {
        quarter
    };
    let spare: i32 = if height > size {
        (height - size) / 2
    } else {
        0
    };
    let top: i32 = saturating_add_i32(header.top, spare);
    let bottom: i32 = saturating_add_i32(top, size);
    let first: i32 = clamp_to_i32(header.left as i64 + size as i64 + 1);
    let second: i32 = clamp_to_i32(first as i64 + 2 * size as i64);
    let third: i32 = clamp_to_i32(second as i64 + 2 * size as i64);
    fills.push(
        Fill {
            rect: Win32Rect { left: first, top, right: saturating_add_i32(first, size), bottom },
            color: CONTROL_COLOR,
        },
    );
    fills.push(
        Fill {
            rect: Win32Rect { left: second, top, right: saturating_add_i32(second, size), bottom },
            color: CONTROL_COLOR,
        },
    );
    fills.push(
        Fill {
            rect: Win32Rect { left: third, top, right: saturating_add_i32(third, size), bottom },
            color: CONTROL_COLOR,
        },
    );
    assert(fills@ =~= old(fills)@ + control_fills(header));
}

/// A line of text: a bar that takes a share of an area's width.
pub open spec fn line_rect(area: Win32Rect, top: int, height: int, part: int, whole: int) -> Win32Rect {
    Win32Rect {
        left: area.left,
        top: top as i32,
        right: clamp_i32(area.left + edges_width(area) * part / whole) as i32,
        bottom: clamp_i32(top + height) as i32,
    }
}

/// The lines of text of a card below its title bar: two, or three where there is room; none
/// where the card is too small.
pub open spec fn content_fills(window_rect: Win32Rect, header: Win32Rect) -> Seq<Fill> {
    let content = Win32Rect { top: header.bottom, ..window_rect };
    let area = inset(content, 6);
    if edges_width(content) < 24 || edges_height(content) < 18 || edges_width(area) < 18
        || edges_height(area) < 14 {
        Seq::empty()
    } else {
        let first = line_rect(area, area.top as int, 3, 3, 5);
        let second = line_rect(area, clamp_i32(first.bottom + 6), 2, 4, 5);
        let third = line_rect(area, clamp_i32(second.bottom + 6), 2, 2, 3);
        let two = seq![
            Fill { rect: first, color: CONTENT_COLOR },
            Fill { rect: second, color: CONTENT_SECONDARY_COLOR },
        ];
        if third.bottom <= area.bottom {
            two.push(Fill { rect: third, color: CONTENT_SECONDARY_COLOR })
        } else {
            two
        }
    }
}

fn line_of(area: Win32Rect, top: i32, height: i32, part: i64, whole: i64) -> (r: Win32Rect)
    requires
        edges_width(area) >= 0,
        0 <= part <= 4,
        1 <= whole <= 5,
    ensures
        r == line_rect(area, top as int, height as int, part as int, whole as int),
{
    let width: i64 = win32_rect_width(area) as i64;
    assert(0 <= width * part <= 0x7fff_ffff * 4) by (nonlinear_arith)
        requires
            0 <= width <= 0x7fff_ffff,
            0 <= part <= 4,
    ;
    let share: i64 = (width * part) / whole;
    assert(0 <= (width * part) as int / whole as int <= width * part) by (nonlinear_arith)
        requires
            width * part >= 0,
            whole >= 1,
    ;
    Win32Rect {
        left: area.left,
        top,
        right: clamp_to_i32(area.left as i64 + share),
        bottom: saturating_add_i32(top, height),
    }
}

fn push_content_fills(fills: &mut Vec<Fill>, window_rect: Win32Rect, header: Win32Rect)
    ensures
        final(fills)@ == old(fills)@ + content_fills(window_rect, header),
{
    let content: Win32Rect = Win32Rect {
        left: window_rect.left,
        top: header.bottom,
        right: window_rect.right,
        bottom: window_rect.bottom,
    };
    let area: Win32Rect = inset_win32_rect(content, 6);
    if win32_rect_width(content) < 24 || win32_rect_height(content) < 18 || win32_rect_width(area)
        < 18 || win32_rect_height(area) < 14 {
        assert(fills@ =~= old(fills)@ + content_fills(window_rect, header));
        return;
    }
    let first: Win32Rect = line_of(area, area.top, 3, 3, 5);
    let second: Win32Rect = line_of(area, saturating_add_i32(first.bottom, 6), 2, 4, 5);
    let third: Win32Rect = line_of(area, saturating_add_i32(second.bottom, 6), 2, 2, 3);
    fills.push(Fill { rect: first, color: CONTENT_COLOR });
    fills.push(Fill { rect: second, color: CONTENT_SECONDARY_COLOR });
    if third.bottom <= area.bottom {
        fills.push(Fill { rect: third, color: CONTENT_SECONDARY_COLOR });
    }
    assert(fills@ =~= old(fills)@ + content_fills(window_rect, header));
}

/// What is painted of a card, from the bottom up.
pub open spec fn card_fills(window_rect: Win32Rect) -> Seq<Fill> {
    let inner = inset(window_rect, WORKSPACE_PREVIEW_BORDER_PX as int);
    let base = seq![
        Fill { rect: window_rect, color: BORDER_COLOR },
        Fill { rect: inner, color: FILL_COLOR },
    ];
    match header_rect(inner) {
        None => base,
        Some(header) => base.push(Fill { rect: header, color: HEADER_COLOR }) + control_fills(
            header,
        ) + content_fills(inner, header),
    }
}

pub fn paint_preview_window_card(window_rect: Win32Rect) -> (r: Vec<Fill>)
    ensures
        r@ == card_fills(window_rect),
{
    let inner: Win32Rect = inset_win32_rect(window_rect, WORKSPACE_PREVIEW_BORDER_PX);
    let mut fills: Vec<Fill> = Vec::new();
    fills.push(Fill { rect: window_rect, color: BORDER_COLOR });
    fills.push(Fill { rect: inner, color: FILL_COLOR });
    let header: Win32Rect = match preview_window_header_rect(inner) {
        Some(header) => header,
        None => {
            assert(fills@ =~= card_fills(window_rect));
            return fills;
        },
    };
    fills.push(Fill { rect: header, color: HEADER_COLOR });
    push_control_fills(&mut fills, header);
    push_content_fills(&mut fills, inner, header);
    assert(fills@ =~= card_fills(window_rect));
    fills
}

/// The cards of some windows, one after another.
pub open spec fn cards_fills(painted_windows: Seq<Rect>) -> Seq<Fill>
    decreases painted_windows.len(),
{
    if painted_windows.len() == 0 {
        Seq::empty()
    } else {
        cards_fills(painted_windows.drop_last()) + card_fills(
            edges_or_nothing(painted_windows.last()),
        )
    }
}

/// What is painted on a window of a workspace's pair: a card for each window on the frame, and
/// nothing on the host, which the thumbnails cover.
pub open spec fn preview_fills(role: SurfaceWindow, painted_windows: Seq<Rect>) -> Seq<Fill> {
    match role {
        SurfaceWindow::Host => Seq::empty(),
        SurfaceWindow::Frame => cards_fills(painted_windows),
    }
}

pub fn paint_preview_rect(role: SurfaceWindow, painted_windows: &Vec<Rect>) -> (r: Vec<Fill>)
    ensures
        r@ == preview_fills(role, painted_windows@),
{
    let mut fills: Vec<Fill> = Vec::new();
    match role {
        SurfaceWindow::Host => {
            return fills;
        },
        SurfaceWindow::Frame => {},
    }
    let mut i: usize = 0;
    assert(painted_windows@.take(0) =~= Seq::empty());
    while i < painted_windows.len()
        invariant
            i <= painted_windows.len(),
            fills@ == cards_fills(painted_windows@.take(i as int)),
        decreases painted_windows.len() - i,
    {
        assert(painted_windows@.take(i + 1).drop_last() =~= painted_windows@.take(i as int));
        let mut card: Vec<Fill> = paint_preview_window_card(
            win32_edges_or_nothing(painted_windows[i]),
        );
        fills.append(&mut card);
        i = i + 1;
    }
    assert(painted_windows@.take(i as int) =~= painted_windows@);
    fills
}

/// A rectangle whose edges are in the wrong order is not painted.
pub fn fill_is_visible(rect: Win32Rect) -> (r: bool)
    ensures
        r == (rect.right > rect.left && rect.bottom > rect.top),
{
    rect.right > rect.left && rect.bottom > rect.top
}

/// The title bar of a card lies within the card.
pub proof fn law_title_bar_lies_in_the_card(window_rect: Win32Rect)
    ensures
        header_rect(window_rect) matches Some(header) ==> {
            &&& header.left == window_rect.left && header.right == window_rect.right
            &&& header.top == window_rect.top && header.bottom <= window_rect.bottom
            &&& 8 <= header.bottom - header.top <= 28
        },
{
}

/// The share of a card's height that its title bar takes, rounded to a whole pixel.
proof fn lemma_header_share(height: nat)
    requires
        height <= 0x7fff_ffff,
    ensures
        abs_int(100 * scaled(height, header_share()) - 14 * height) <= 50,
{
    let n = height * HEADER_MANTISSA as nat;
    assert(n < 0x10_0000_0000_0000_0000_0000) by (nonlinear_arith)
        requires
            n == height * 1261007895663739,
            height <= 0x7fff_ffff,
    ;
    lemma_rounding_is_near(n);
    let j = excess_bits(n);
    let p = nearest_even(n, pow2(j));
    lemma2_to64();
    lemma_pow2_adds(32, 21);
    lemma_pow2_adds((53 - j) as nat, j);
    lemma_pow2_pos((53 - j) as nat);
    lemma_pow2_pos(j);
    let d = pow2((53 - j) as nat);
    let one = pow2(j);
    assert(d * one == 0x20_0000_0000_0000);
    let r = scaled(height, header_share());
    assert(r == (2 * p + d) / (2 * d));
    assert(2 * d * r <= 2 * p + d < 2 * d * r + 2 * d) by (nonlinear_arith)
        requires
            r == (2 * p + d) / (2 * d),
            d > 0,
    ;
    assert(-0x20_0000_0000_0000 <= 0x40_0000_0000_0000 * r - 2 * (p * one) <= 0x20_0000_0000_0000)
        by (nonlinear_arith)
        requires
            2 * d * r <= 2 * p + d < 2 * d * r + 2 * d,
            one > 0,
            d * one == 0x20_0000_0000_0000,
    ;
    assert(n == height * 1261007895663739);
}

/// A title bar takes fourteen hundredths of its card, to the nearest pixel, but 8 pixels at
/// least and 28 at most.
pub proof fn law_title_bars_take_their_share(height: int)
    requires
        12 <= height <= 0x7fff_ffff,
    ensures
        ({
            let bar = header_height(height);
            ||| 8 < bar < 28 && -50 <= 100 * bar - 14 * height <= 50
            ||| bar == 8 && 14 * height <= 850
            ||| bar == 28 && 14 * height >= 2750
        }),
{
    lemma_header_share(height as nat);
}

/// A rectangle without a margin is smaller by the margin on every side; a negative margin
/// takes nothing off.
pub proof fn law_margins_come_off_every_side(rect: Win32Rect, margin: int)
    requires
        -0x4000_0000 <= rect.left <= 0x3fff_ffff && -0x4000_0000 <= rect.top <= 0x3fff_ffff,
        -0x4000_0000 <= rect.right <= 0x3fff_ffff && -0x4000_0000 <= rect.bottom <= 0x3fff_ffff,
        margin <= 0x3fff_ffff,
    ensures
        margin >= 0 ==> inset(rect, margin).left == rect.left + margin,
        margin >= 0 ==> inset(rect, margin).top == rect.top + margin,
        margin >= 0 ==> inset(rect, margin).right == rect.right - margin,
        margin >= 0 ==> inset(rect, margin).bottom == rect.bottom - margin,
        margin <= 0 ==> inset(rect, margin) == rect,
{
}

/// The extents between edges are the differences of the edges, as far as they fit.
pub proof fn law_extents_are_differences_of_edges(rect: Win32Rect, width: i32, height: i32)
    requires
        call_ensures(win32_rect_width, (rect,), width),
        call_ensures(win32_rect_height, (rect,), height),
        -0x8000_0000 <= rect.right - rect.left <= 0x7fff_ffff,
        -0x8000_0000 <= rect.bottom - rect.top <= 0x7fff_ffff,
    ensures
        width == rect.right - rect.left,
        height == rect.bottom - rect.top,
        edges_width(rect) == rect.right - rect.left,
        edges_height(rect) == rect.bottom - rect.top,
{
}

/// A card has a title bar where it is at least 18 pixels wide and 12 high. The bar spans the
/// card from its upper edge.
pub proof fn law_large_cards_have_a_title_bar(card: Win32Rect)
    requires
        -0x4000_0000 <= card.left <= 0x3fff_ffff && -0x4000_0000 <= card.top <= 0x3fff_ffff,
        -0x4000_0000 <= card.right <= 0x3fff_ffff && -0x4000_0000 <= card.bottom <= 0x3fff_ffff,
    ensures
        header_rect(card) is Some <==> card.right - card.left >= 18 && card.bottom - card.top >= 12,
        header_rect(card) matches Some(bar) ==> bar.left == card.left && bar.right == card.right
            && bar.top == card.top && bar.bottom - bar.top == header_height(
            card.bottom - card.top,
        ),
{
    if card.right - card.left >= 18 && card.bottom - card.top >= 12 {
        law_title_bars_take_their_share(card.bottom - card.top);
    }
}

/// The buttons of a title bar are squares of a quarter of its height, of 2 to 5 pixels. They
/// stand one after another from the left, a button's width apart, in the middle of the bar.
pub proof fn law_buttons_stand_in_the_middle(bar: Win32Rect, index: int)
    requires
        -0x4000_0000 <= bar.left <= 0x3fff_ffff && -0x4000_0000 <= bar.top <= 0x3fff_ffff,
        8 <= bar.bottom - bar.top <= 28,
        0 <= index <= 2,
    ensures
        ({
            let button = button_rect(bar, index);
            let height = bar.bottom - bar.top;
            let size = button.right - button.left;
            &&& button.bottom - button.top == size
            &&& height < 12 ==> size == 2
            &&& 12 <= height < 16 ==> size == 3
            &&& 16 <= height < 20 ==> size == 4
            &&& height >= 20 ==> size == 5
            &&& button.left == bar.left + 1 + size * (2 * index + 1)
            &&& 0 <= (bar.bottom - button.bottom) - (button.top - bar.top) <= 1
            &&& control_fills(bar)[index] == (Fill { rect: button, color: 0x8A_8A8A })
        }),
        control_fills(bar).len() == 3,
{
    let size = button_size(bar.bottom - bar.top);
    assert(size * 1 == size && size * 3 == 3 * size && size * 5 == 5 * size);
    if index == 0 {
    } else if index == 1 {
    } else {
        assert(index == 2);
    }
}

/// Where the lines of text of a card stand: six pixels from its sides and from one another,
/// three, four and two fifths, or thirds, of the area wide; the last one only where it fits.
pub proof fn law_lines_stand_below_the_title_bar(card: Win32Rect, bar: Win32Rect)
    requires
        -0x4000_0000 <= card.left <= 0x3fff_ffff && -0x4000_0000 <= bar.bottom <= 0x3fff_ffff,
        -0x4000_0000 <= card.right <= 0x3fff_ffff && -0x4000_0000 <= card.bottom <= 0x3fff_ffff,
    ensures
        ({
            let lines = content_fills(card, bar);
            let width = card.right - card.left - 12;
            let room = card.bottom - bar.bottom;
            &&& lines.len() == (if width < 18 || room < 26 {
                0int
            } else if room < 31 {
                2
            } else {
                3
            })
            &&& lines.len() >= 2 ==> {
                &&& lines[0].color == 0x4D_4D4D && lines[1].color == 0x3A_3A3A
                &&& lines[0].rect.left == card.left + 6 && lines[1].rect.left == card.left + 6
                &&& lines[0].rect.right == card.left + 6 + 3 * width / 5
                &&& lines[1].rect.right == card.left + 6 + 4 * width / 5
                &&& lines[0].rect.top == bar.bottom + 6 && lines[0].rect.bottom == bar.bottom + 9
                &&& lines[1].rect.top == bar.bottom + 15 && lines[1].rect.bottom == bar.bottom + 17
            }
            &&& lines.len() == 3 ==> {
                &&& lines[2].color == 0x3A_3A3A
                &&& lines[2].rect.left == card.left + 6
                &&& lines[2].rect.right == card.left + 6 + 2 * width / 3
                &&& lines[2].rect.top == bar.bottom + 23 && lines[2].rect.bottom == bar.bottom + 25
            }
        }),
{
    let width = card.right - card.left - 12;
    assert(width * 3 == 3 * width && width * 4 == 4 * width && width * 2 == 2 * width);
}

/// A card is painted from the bottom up: its border, what lies one pixel within it, and on
/// that, where there is room, the title bar, its buttons and the lines of text.
pub proof fn law_cards_are_painted_from_the_bottom_up(card: Win32Rect)
    requires
        -0x3fff_ffff <= card.left <= 0x3fff_fffe && -0x3fff_ffff <= card.top <= 0x3fff_fffe,
        -0x3fff_ffff <= card.right <= 0x3fff_fffe && -0x3fff_ffff <= card.bottom <= 0x3fff_fffe,
    ensures
        ({
            let fills = card_fills(card);
            let inner = Win32Rect {
                left: (card.left + 1) as i32,
                top: (card.top + 1) as i32,
                right: (card.right - 1) as i32,
                bottom: (card.bottom - 1) as i32,
            };
            &&& fills.len() >= 2
            &&& fills[0] == (Fill { rect: card, color: 0x66_6666 })
            &&& fills[1] == (Fill { rect: inner, color: 0x2B_2B2B })
            &&& header_rect(inner) is None ==> fills.len() == 2
            &&& header_rect(inner) matches Some(bar) ==> {
                &&& fills.len() == 6 + content_fills(inner, bar).len()
                &&& fills[2] == (Fill { rect: bar, color: 0x39_3939 })
                &&& fills.subrange(3, 6) == control_fills(bar)
                &&& fills.skip(6) == content_fills(inner, bar)
            }
        }),
{
}

/// The frame of a workspace shows a card for each of its windows, one after another, and the
/// host nothing.
pub proof fn law_every_window_has_a_card(windows: Seq<Rect>, last: Rect)
    ensures
        preview_fills(SurfaceWindow::Host, windows).len() == 0,
        preview_fills(SurfaceWindow::Frame, Seq::empty()).len() == 0,
        preview_fills(SurfaceWindow::Frame, windows.push(last)) == preview_fills(
            SurfaceWindow::Frame,
            windows,
        ) + card_fills(edges_or_nothing(last)),
{
    assert(windows.push(last).drop_last() =~= windows);
}

/// A rectangle is painted exactly where it holds a pixel.
pub proof fn law_visible_fills_hold_a_pixel(rect: Win32Rect, r: bool)
    requires
        call_ensures(fill_is_visible, (rect,), r),
    ensures
        r <==> rect.left < rect.right && rect.top < rect.bottom,
{
}

} // verus!
