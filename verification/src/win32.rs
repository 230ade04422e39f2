//! Plain counterparts of the Win32 values that the daemon's surfaces exchange with the
//! system.

use crate::arith::at_least_one;
use crate::geometry::Rect;
use crate::text::{chars_of, decimal_text, joined, quoted, signed_decimal_text};
use vstd::prelude::*;
use vstd::string::*;

verus! {

use crate::arith::max_int;
use crate::text::{decimal, signed_decimal};
use vstd::arithmetic::div_mod::*;

pub const SWP_NOZORDER: u32 = 0x0004;

pub const SWP_NOACTIVATE: u32 = 0x0010;

pub const SWP_SHOWWINDOW: u32 = 0x0040;

/// Above every window that is not topmost.
pub const HWND_TOPMOST: isize = -1;

/// Behind every topmost window.
pub const HWND_NOTOPMOST: isize = -2;

/// The window class has been registered before.
pub const ERROR_CLASS_ALREADY_EXISTS: u32 = 1410;

/// A rectangle given by its four edges.
#[derive(Clone, Copy, Debug, PartialEq, Eq, Structural)]
pub struct Win32Rect {
    pub left: i32,
    pub top: i32,
    pub right: i32,
    pub bottom: i32,
}

impl Win32Rect {
    pub fn empty() -> (r: Win32Rect)
        ensures
            r == (Win32Rect { left: 0, top: 0, right: 0, bottom: 0 }),
    {
        Win32Rect { left: 0, top: 0, right: 0, bottom: 0 }
    }
}

/// The extents of a rectangle of at least one pixel a side.
pub open spec fn pixel_width(rect: Rect) -> int {
    max_int(rect.width as int, 1)
}

pub open spec fn pixel_height(rect: Rect) -> int {
    max_int(rect.height as int, 1)
}

/// A width and a height that Win32 takes; else the text that goes with the one that is too
/// large.
pub fn win32_extent(rect: Rect, width_error: &str, height_error: &str) -> (r: Result<
    (i32, i32),
    String,
>)
    ensures
        match r {
            Ok((width, height)) => width == pixel_width(rect) && height == pixel_height(rect),
            Err(text) => text@ == (if pixel_width(rect) > i32::MAX {
                width_error@
            } else {
                height_error@
            }),
        },
        r is Ok <==> pixel_width(rect) <= i32::MAX && pixel_height(rect) <= i32::MAX,
{
    let width: u32 = at_least_one(rect.width);
    if width > i32::MAX as u32 {
        return Err(width_error.to_owned());
    }
    let height: u32 = at_least_one(rect.height);
    if height > i32::MAX as u32 {
        return Err(height_error.to_owned());
    }
    Ok((width as i32, height as i32))
}

/// Why a rectangle has no four edges, told after a label.
pub open spec fn rect_error(rect: Rect, label: Seq<char>) -> Option<Seq<char>> {
    if pixel_width(rect) > i32::MAX {
        Some(label + " width exceeds Win32 limits"@)
    } else if pixel_height(rect) > i32::MAX {
        Some(label + " height exceeds Win32 limits"@)
    } else if rect.x + pixel_width(rect) > i32::MAX {
        Some(label + " right edge overflowed"@)
    } else if rect.y + pixel_height(rect) > i32::MAX {
        Some(label + " bottom edge overflowed"@)
    } else {
        None
    }
}

/// The edges of a rectangle of at least one pixel a side.
pub fn rect_to_win32(rect: Rect, label: &str) -> (r: Result<Win32Rect, String>)
    ensures
        match r {
            Ok(edges) => {
                &&& rect_error(rect, label@) is None
                &&& edges.left == rect.x
                &&& edges.top == rect.y
                &&& edges.right == rect.x + pixel_width(rect)
                &&& edges.bottom == rect.y + pixel_height(rect)
            },
            Err(text) => rect_error(rect, label@) == Some(text@),
        },
{
    let width: u32 = at_least_one(rect.width);
    if width > i32::MAX as u32 {
        return Err(joined(label, " width exceeds Win32 limits"));
    }
    let height: u32 = at_least_one(rect.height);
    if height > i32::MAX as u32 {
        return Err(joined(label, " height exceeds Win32 limits"));
    }
    let right: i64 = rect.x as i64 + width as i64;
    if right > i32::MAX as i64 {
        return Err(joined(label, " right edge overflowed"));
    }
    let bottom: i64 = rect.y as i64 + height as i64;
    if bottom > i32::MAX as i64 {
        return Err(joined(label, " bottom edge overflowed"));
    }
    Ok(Win32Rect { left: rect.x, top: rect.y, right: right as i32, bottom: bottom as i32 })
}

/// The edges of what is painted of a rectangle; nothing where they do not fit.
pub open spec fn edges_or_nothing(rect: Rect) -> Win32Rect {
    if rect_error(rect, Seq::empty()) is None {
        Win32Rect {
            left: rect.x,
            top: rect.y,
            right: (rect.x + pixel_width(rect)) as i32,
            bottom: (rect.y + pixel_height(rect)) as i32,
        }
    } else {
        Win32Rect { left: 0, top: 0, right: 0, bottom: 0 }
    }
}

pub fn win32_edges_or_nothing(rect: Rect) -> (r: Win32Rect)
    ensures
        r == edges_or_nothing(rect),
{
    match rect_to_win32(rect, "") {
        Ok(edges) => edges,
        Err(_) => Win32Rect::empty(),
    }
}

/// The rectangle between four edges; empty where they are in the wrong order.
pub open spec fn edges_rect(edges: Win32Rect) -> Rect {
    Rect {
        x: edges.left,
        y: edges.top,
        width: max_int(edges.right - edges.left, 0) as u32,
        height: max_int(edges.bottom - edges.top, 0) as u32,
    }
}

pub fn rect_from_win32(rect: Win32Rect) -> (r: Rect)
    ensures
        r == edges_rect(rect),
{
    let width: i64 = rect.right as i64 - rect.left as i64;
    let height: i64 = rect.bottom as i64 - rect.top as i64;
    Rect::new(
        rect.left,
        rect.top,
        if width > 0 {
            width as u32
        } else {
            0
        },
        if height > 0 {
            height as u32
        } else {
            0
        },
    )
}

/// A window handle, where the number can be one.
pub fn hwnd_from_raw(raw_hwnd: u64) -> (r: Option<isize>)
    ensures
        match r {
            Some(hwnd) => hwnd == raw_hwnd,
            None => raw_hwnd > isize::MAX,
        },
{
    if raw_hwnd <= isize::MAX as u64 {
        Some(raw_hwnd as isize)
    } else {
        None
    }
}

/// A colour as GDI packs it, red in the lowest byte.
pub fn rgb_color(red: u8, green: u8, blue: u8) -> (r: u32)
    ensures
        r == red + 0x100 * green + 0x1_0000 * blue,
{
    let packed: u32 = (red as u32) | ((green as u32) << 8) | ((blue as u32) << 16);
    assert((red as u32) | ((green as u32) << 8) | ((blue as u32) << 16) == red + 0x100 * green
        + 0x1_0000 * blue) by (bit_vector);
    packed
}

/// A character in UTF-16.
pub open spec fn utf16_units(c: char) -> Seq<u16> {
    let code = c as int;
    if code < 0x1_0000 {
        seq![code as u16]
    } else {
        seq![
            (0xD800 + (code - 0x1_0000) / 0x400) as u16,
            (0xDC00 + (code - 0x1_0000) % 0x400) as u16,
        ]
    }
}

/// A text in UTF-16.
pub open spec fn utf16(text: Seq<char>) -> Seq<u16>
    decreases text.len(),
{
    if text.len() == 0 {
        Seq::empty()
    } else {
        utf16(text.drop_last()) + utf16_units(text.last())
    }
}

fn push_utf16(units: &mut Vec<u16>, c: char)
    ensures
        final(units)@ == old(units)@ + utf16_units(c),
{
    let code: u32 = c as u32;
    if code < 0x1_0000 {
        units.push(code as u16);
    } else {
        let rest: u32 = code - 0x1_0000;
        units.push((0xD800 + rest / 0x400) as u16);
        units.push((0xDC00 + rest % 0x400) as u16);
    }
    assert(units@ =~= old(units)@ + utf16_units(c));
}

/// A text in UTF-16 with a zero at the end.
pub fn widestring(value: &str) -> (r: Vec<u16>)
    ensures
        r@ == utf16(value@).push(0),
{
    let chars: Vec<char> = chars_of(value);
    let mut units: Vec<u16> = Vec::new();
    let mut i: usize = 0;
    assert(chars@.take(0) =~= Seq::empty());
    while i < chars.len()
        invariant
            i <= chars.len(),
            units@ == utf16(chars@.take(i as int)),
        decreases chars.len() - i,
    {
        assert(chars@.take(i + 1).drop_last() =~= chars@.take(i as int));
        push_utf16(&mut units, chars[i]);
        i = i + 1;
    }
    assert(chars@.take(i as int) =~= chars@);
    units.push(0);
    units
}

/// What a failed call of the system is reported as.
pub open spec fn last_error_text(api: Seq<char>, code: u32) -> Seq<char> {
    api + " failed with Win32 error "@ + decimal(code as nat)
}

pub fn last_error_message(api: &str, code: u32) -> (r: String)
    ensures
        r@ == last_error_text(api@, code),
{
    quoted(api, " failed with Win32 error ", decimal_text(code as u64).as_str())
}

/// Registering a window class fails only where the class did not exist before.
pub fn class_registration_result(atom: u16, error: u32) -> (r: Result<(), String>)
    ensures
        r is Ok <==> atom != 0 || error == ERROR_CLASS_ALREADY_EXISTS,
        r matches Err(text) ==> text@ == last_error_text("RegisterClassW"@, error),
{
    if atom == 0 && error != ERROR_CLASS_ALREADY_EXISTS {
        return Err(last_error_message("RegisterClassW", error));
    }
    Ok(())
}

/// The digits of a number in base sixteen.
pub open spec fn hexadecimal(n: nat) -> Seq<char>
    decreases n,
{
    if n < 16 {
        seq![hex_digit(n)]
    } else {
        hexadecimal(n / 16).push(hex_digit(n % 16))
    }
}

pub open spec fn hex_digit(n: nat) -> char {
    if n < 10 {
        ((48 + n) as u32) as char
    } else {
        ((87 + n) as u32) as char
    }
}

fn push_hexadecimal(out: &mut Vec<char>, n: u32)
    ensures
        final(out)@ == old(out)@ + hexadecimal(n as nat),
    decreases n,
{
    if n >= 16 {
        push_hexadecimal(out, n / 16);
    }
    let d: u8 = (n % 16) as u8;
    let c: char = if d < 10 {
        (48u8 + d) as char
    } else {
        (87u8 + d) as char
    };
    out.push(c);
    assert(c == hex_digit((n % 16) as nat));
    assert(out@ =~= old(out)@ + hexadecimal(n as nat));
}

/// What a failed call of the window compositor is reported as: the result code as the bits
/// of its two's complement.
pub open spec fn hresult_text(api: Seq<char>, result: i32) -> Seq<char> {
    api + " failed with HRESULT 0x"@ + hexadecimal(unsigned_bits(result))
}

pub open spec fn unsigned_bits(result: i32) -> nat {
    if result < 0 {
        (result + 0x1_0000_0000) as nat
    } else {
        result as nat
    }
}

pub fn hresult_message(api: &str, result: i32) -> (r: String)
    ensures
        r@ == hresult_text(api@, result),
{
    let bits: u32 = if result < 0 {
        (result as i64 + 0x1_0000_0000) as u32
    } else {
        result as u32
    };
    let mut digits: Vec<char> = Vec::new();
    push_hexadecimal(&mut digits, bits);
    assert(digits@ =~= hexadecimal(bits as nat));
    quoted(api, " failed with HRESULT 0x", crate::text::text_of(&digits).as_str())
}

/// A negative result code of the compositor is a failure.
pub fn hresult_check(api: &str, result: i32) -> (r: Result<(), String>)
    ensures
        r is Ok <==> result >= 0,
        r matches Err(text) ==> text@ == hresult_text(api@, result),
{
    if result < 0 {
        return Err(hresult_message(api, result));
    }
    Ok(())
}

/// Sixteen bits read as a signed number.
pub open spec fn signed_word(bits: int) -> int {
    if bits >= 0x8000 {
        bits - 0x1_0000
    } else {
        bits
    }
}

/// The point that a mouse message carries: two signed words, the horizontal one lowest.
pub fn point_from_lparam(lparam: i64) -> (r: (i32, i32))
    ensures
        r.0 == signed_word(lparam as int % 0x1_0000),
        r.1 == signed_word((lparam as int / 0x1_0000) % 0x1_0000),
{
    let shifted: u128 = (lparam as i128 + 0x8000_0000_0000_0000) as u128;
    proof {
        let bits = lparam as int;
        lemma_fundamental_div_mod(bits, 0x1_0000);
        lemma_fundamental_div_mod_converse(
            shifted as int,
            0x1_0000,
            bits / 0x1_0000 + 0x8000_0000_0000,
            bits % 0x1_0000,
        );
        lemma_mod_multiples_vanish(0x8000_0000, bits / 0x1_0000, 0x1_0000);
    }
    let low: i32 = (shifted % 0x1_0000) as i32;
    let high: i32 = ((shifted / 0x1_0000) % 0x1_0000) as i32;
    let x: i32 = if low >= 0x8000 {
        low - 0x1_0000
    } else {
        low
    };
    let y: i32 = if high >= 0x8000 {
        high - 0x1_0000
    } else {
        high
    };
    (x, y)
}

/// A rectangle as it is logged.
pub open spec fn rect_text(rect: Rect) -> Seq<char> {
    "("@ + signed_decimal(rect.x as int) + ","@ + signed_decimal(rect.y as int) + " "@ + decimal(
        rect.width as nat,
    ) + "x"@ + decimal(rect.height as nat) + ")"@
}

pub fn format_rect(rect: Rect) -> (r: String)
    ensures
        r@ == rect_text(rect),
{
    let mut text: String = "(".to_owned();
    text.append(signed_decimal_text(rect.x as i64).as_str());
    text.append(",");
    text.append(signed_decimal_text(rect.y as i64).as_str());
    text.append(" ");
    text.append(decimal_text(rect.width as u64).as_str());
    text.append("x");
    text.append(decimal_text(rect.height as u64).as_str());
    text.append(")");
    text
}

/// Where the edges of a rectangle fit, it is the rectangle between them again, but for an
/// extent of no pixel, which becomes one.
pub proof fn law_edges_give_the_rectangle_back(rect: Rect, edges: Win32Rect)
    requires
        rect_error(rect, Seq::empty()) is None,
        edges.left == rect.x,
        edges.top == rect.y,
        edges.right == rect.x + pixel_width(rect),
        edges.bottom == rect.y + pixel_height(rect),
    ensures
        edges_rect(edges) == (Rect {
            width: pixel_width(rect) as u32,
            height: pixel_height(rect) as u32,
            ..rect
        }),
{
}

/// The edges of a rectangle lie as far apart as it is wide and high, but at least one pixel;
/// what does not fit is told after the label, an extent before an edge.
pub proof fn law_rectangles_have_four_edges(rect: Rect, label: &str, r: Result<Win32Rect, String>)
    requires
        call_ensures(rect_to_win32, (rect, label), r),
    ensures
        ({
            let width = if rect.width == 0 {
                1
            } else {
                rect.width as int
            };
            let height = if rect.height == 0 {
                1
            } else {
                rect.height as int
            };
            let wide = width <= 0x7fff_ffff;
            let high = height <= 0x7fff_ffff;
            let right = rect.x + width <= 0x7fff_ffff;
            let bottom = rect.y + height <= 0x7fff_ffff;
            &&& r is Ok <==> wide && high && right && bottom
            &&& r matches Ok(edges) ==> edges.left == rect.x && edges.top == rect.y && edges.right
                - edges.left == width && edges.bottom - edges.top == height
            &&& !wide ==> (r matches Err(text) && text@ == label@ + " width exceeds Win32 limits"@)
            &&& wide && !high ==> (r matches Err(text) && text@ == label@
                + " height exceeds Win32 limits"@)
            &&& wide && high && !right ==> (r matches Err(text) && text@ == label@
                + " right edge overflowed"@)
            &&& wide && high && right && !bottom ==> (r matches Err(text) && text@ == label@
                + " bottom edge overflowed"@)
        }),
{
}

/// What is painted of a rectangle reaches from its corner as far as it is wide and high, and
/// nothing is painted where an edge does not fit.
pub proof fn law_painted_edges_are_the_rectangle(rect: Rect)
    requires
        0 < rect.width <= 0x7fff_ffff,
        0 < rect.height <= 0x7fff_ffff,
    ensures
        ({
            let edges = edges_or_nothing(rect);
            let fits = rect.x + rect.width <= 0x7fff_ffff && rect.y + rect.height <= 0x7fff_ffff;
            &&& fits ==> edges.left == rect.x && edges.top == rect.y && edges.right == rect.x
                + rect.width && edges.bottom == rect.y + rect.height
            &&& !fits ==> edges.left == 0 && edges.top == 0 && edges.right == 0 && edges.bottom == 0
        }),
{
}

/// A rectangle is as wide and high as its edges lie apart; edges in the wrong order hold
/// nothing between them.
pub proof fn law_edges_bound_the_rectangle(edges: Win32Rect)
    ensures
        edges_rect(edges).x == edges.left && edges_rect(edges).y == edges.top,
        edges.left <= edges.right ==> edges.left + edges_rect(edges).width == edges.right,
        edges.left > edges.right ==> edges_rect(edges).width == 0,
        edges.top <= edges.bottom ==> edges.top + edges_rect(edges).height == edges.bottom,
        edges.top > edges.bottom ==> edges_rect(edges).height == 0,
{
}

/// An extent is the rectangle's, but at least one pixel; the width is faulted before the
/// height.
pub proof fn law_extents_are_the_rectangles(
    rect: Rect,
    width_error: &str,
    height_error: &str,
    r: Result<(i32, i32), String>,
)
    requires
        call_ensures(win32_extent, (rect, width_error, height_error), r),
    ensures
        r is Ok <==> rect.width <= 0x7fff_ffff && rect.height <= 0x7fff_ffff,
        r matches Ok(extent) ==> extent.0 == (if rect.width == 0 {
            1
        } else {
            rect.width as int
        }) && extent.1 == (if rect.height == 0 {
            1
        } else {
            rect.height as int
        }),
        rect.width > 0x7fff_ffff ==> (r matches Err(text) && text@ == width_error@),
        rect.width <= 0x7fff_ffff && rect.height > 0x7fff_ffff ==> (r matches Err(text) && text@
            == height_error@),
{
}

/// The three parts of a colour can be read from it again: red from the lowest byte, green
/// from the next one and blue from the third.
pub proof fn law_colours_hold_their_parts(red: u8, green: u8, blue: u8, r: u32)
    requires
        call_ensures(rgb_color, (red, green, blue), r),
    ensures
        r as int % 0x100 == red,
        r as int / 0x100 % 0x100 == green,
        r as int / 0x1_0000 == blue,
{
}

/// A handle is the number itself, and every number that can be one is.
pub proof fn law_handles_are_numbers(raw_hwnd: u64, r: Option<isize>)
    requires
        call_ensures(hwnd_from_raw, (raw_hwnd,), r),
    ensures
        r is Some <==> raw_hwnd <= isize::MAX,
        r matches Some(hwnd) ==> hwnd == raw_hwnd,
{
}

/// A character can be read from its units again: it is the unit itself where there is one,
/// and is put together from ten bits of each where there is a pair of surrogates.
pub proof fn law_units_give_the_character_back(c: char)
    ensures
        c as int <= 0xffff ==> utf16_units(c).len() == 1 && utf16_units(c)[0] == c as int,
        c as int > 0xffff ==> {
            let units = utf16_units(c);
            &&& units.len() == 2
            &&& 0xd800 <= units[0] <= 0xdbff
            &&& 0xdc00 <= units[1] <= 0xdfff
            &&& 0x1_0000 + 0x400 * (units[0] - 0xd800) + (units[1] - 0xdc00) == c as int
        },
{
}

/// The units of two texts one after the other are those of the first and then those of the
/// second.
pub proof fn law_units_follow_the_text(first: Seq<char>, second: Seq<char>)
    ensures
        utf16(first + second) == utf16(first) + utf16(second),
    decreases second.len(),
{
    if second.len() == 0 {
        assert(first + second =~= first);
        assert(utf16(first) + utf16(second) =~= utf16(first));
    } else {
        law_units_follow_the_text(first, second.drop_last());
        assert((first + second).drop_last() =~= first + second.drop_last());
        assert((first + second).last() == second.last());
        assert(utf16(first + second) =~= utf16(first) + utf16(second));
    }
}

/// A text of one character has the units of that character.
pub proof fn law_units_of_one_character(c: char)
    ensures
        utf16(seq![c]) == utf16_units(c),
        utf16(Seq::empty()) == Seq::<u16>::empty(),
{
    let alone = seq![c];
    assert(utf16(alone.drop_last()).len() == 0);
    assert(alone.last() == c);
    assert(utf16(alone) =~= utf16_units(c));
}

/// A text for the system is its units with a zero behind them.
pub proof fn law_wide_texts_end_with_a_zero(value: &str, r: Vec<u16>)
    requires
        call_ensures(widestring, (value,), r),
    ensures
        r@.len() == utf16(value@).len() + 1,
        r@.drop_last() == utf16(value@),
        r@.last() == 0,
{
}

/// A failed call is told with its name and its error, a failed result by the name and the
/// bits of the code in base sixteen.
pub proof fn law_failures_name_the_call(
    api: &str,
    code: u32,
    text: String,
    result: i32,
    r: Result<(), String>,
)
    requires
        call_ensures(last_error_message, (api, code), text),
        call_ensures(hresult_check, (api, result), r),
    ensures
        text@ == api@ + " failed with Win32 error "@ + decimal(code as nat),
        r is Err <==> result < 0,
        r matches Err(error) ==> error@ == api@ + " failed with HRESULT 0x"@ + hexadecimal(
            (result + 0x1_0000_0000) as nat,
        ),
{
}

/// The bits of a result code read as a number: the code itself, or all of 2^32 more where it is
/// negative.
pub proof fn law_result_codes_keep_their_bits(api: &str, result: i32, text: String)
    requires
        call_ensures(hresult_message, (api, result), text),
    ensures
        result >= 0 ==> text@ == api@ + " failed with HRESULT 0x"@ + hexadecimal(result as nat),
        result < 0 ==> text@ == api@ + " failed with HRESULT 0x"@ + hexadecimal(
            (0x1_0000_0000 + result) as nat,
        ),
{
}

/// The digits of a number in base sixteen are those of its sixteenth part and the one of the
/// rest; a digit is a figure up to nine and a small letter from ten on.
pub proof fn law_numbers_are_written_in_sixteens(n: nat)
    ensures
        n < 16 ==> hexadecimal(n) == seq![hex_digit(n)],
        n >= 16 ==> hexadecimal(n) == hexadecimal(n / 16).push(hex_digit(n % 16)),
        n <= 9 ==> hex_digit(n) as int == '0' as int + n,
        10 <= n <= 15 ==> hex_digit(n) as int == 'a' as int + n - 10,
{
}

/// Registering a class fails exactly where there is no atom and the class is new.
pub proof fn law_classes_are_registered_once(atom: u16, error: u32, r: Result<(), String>)
    requires
        call_ensures(class_registration_result, (atom, error), r),
    ensures
        r is Err <==> atom == 0 && error != 1410,
        r matches Err(text) ==> text@ == "RegisterClassW"@ + " failed with Win32 error "@ + decimal(
            error as nat,
        ),
{
}

/// The point of a mouse message agrees with the lowest bits of the message, sixteen for each
/// coordinate, and lies within what so many bits can tell of signed numbers.
pub proof fn law_points_agree_with_their_message(lparam: i64, r: (i32, i32))
    requires
        call_ensures(point_from_lparam, (lparam,), r),
    ensures
        -0x8000 <= r.0 < 0x8000 && -0x8000 <= r.1 < 0x8000,
        (lparam - r.0) % 0x1_0000 == 0,
        (lparam as int / 0x1_0000 - r.1) % 0x1_0000 == 0,
{
}

/// A rectangle is logged by its corner and its extents.
pub proof fn law_rectangles_are_logged(rect: Rect, text: String)
    requires
        call_ensures(format_rect, (rect,), text),
    ensures
        text@ == "("@ + signed_decimal(rect.x as int) + ","@ + signed_decimal(rect.y as int) + " "@
            + decimal(rect.width as nat) + "x"@ + decimal(rect.height as nat) + ")"@,
{
}

} // verus!
