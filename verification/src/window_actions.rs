//! What the daemon does to single windows.

use crate::overview_surface::shell::normalized_process_name;
use crate::text::{chars_of, decimal_text, lower_chars, quoted, same_chars, same_text, trim_chars};
use crate::win32::last_error_message;
use vstd::prelude::*;
use vstd::string::*;

verus! {

use crate::overview_surface::shell::{normal_process_name, optional_text};
use crate::text::{decimal, lowered, trimmed};
use crate::win32::last_error_text;

pub const WALLPAPER_SELECTOR_PROCESS: &'static str = "flowshellwallpaper.ui";

pub const WALLPAPER_SELECTOR_TITLE: &'static str = "flowshellwallpaper.ui";

pub const SW_SHOW: i32 = 5;

pub const SW_RESTORE: i32 = 9;

/// The bits of a handle read as a signed number.
pub open spec fn signed_handle(raw_hwnd: u64) -> int {
    if raw_hwnd > i64::MAX {
        raw_hwnd - 0x1_0000_0000_0000_0000
    } else {
        raw_hwnd as int
    }
}

/// A handle that a window can have: any but zero.
pub fn normalize_hwnd(raw_hwnd: u64) -> (r: Result<i64, String>)
    ensures
        match r {
            Ok(hwnd) => raw_hwnd != 0 && hwnd == signed_handle(raw_hwnd),
            Err(text) => raw_hwnd == 0 && text@ == "focused window has no valid HWND binding"@,
        },
{
    if raw_hwnd == 0 {
        return Err("focused window has no valid HWND binding".to_owned());
    }
    Ok(
        if raw_hwnd > i64::MAX as u64 {
            (raw_hwnd as i128 - 0x1_0000_0000_0000_0000) as i64
        } else {
            raw_hwnd as i64
        },
    )
}

/// Why a window could not be asked to close.
pub open spec fn close_error(raw_hwnd: u64, is_valid: bool, posted: bool, error: u32) -> Option<
    Seq<char>,
> {
    if raw_hwnd == 0 {
        Some("focused window has no valid HWND binding"@)
    } else if !is_valid {
        Some("focused window hwnd "@ + decimal(raw_hwnd as nat) + " is no longer valid"@)
    } else if !posted {
        Some(last_error_text("PostMessageW(WM_CLOSE)"@, error))
    } else {
        None
    }
}

/// The outcome of asking a window to close: whether it exists, whether the request could be
/// posted to it, and the error where it could not.
pub fn close_window(raw_hwnd: u64, is_valid: bool, posted: bool, error: u32) -> (r: Result<
    (),
    String,
>)
    ensures
        match r {
            Ok(_) => close_error(raw_hwnd, is_valid, posted, error) is None,
            Err(text) => close_error(raw_hwnd, is_valid, posted, error) == Some(text@),
        },
{
    if let Err(text) = normalize_hwnd(raw_hwnd) {
        return Err(text);
    }
    if !is_valid {
        return Err(
            quoted(
                "focused window hwnd ",
                decimal_text(raw_hwnd).as_str(),
                " is no longer valid",
            ),
        );
    }
    if !posted {
        return Err(last_error_message("PostMessageW(WM_CLOSE)", error));
    }
    Ok(())
}

/// Whether a wallpaper selector was closed, from what closing the one that was found came
/// to.
pub fn close_wallpaper_selector_window(closed: Option<Result<(), String>>) -> (r: Result<
    bool,
    String,
>)
    ensures
        r == (match closed {
            None => Ok::<bool, String>(false),
            Some(Ok(_)) => Ok(true),
            Some(Err(error)) => Err(error),
        }),
{
    match closed {
        None => Ok(false),
        Some(Ok(_)) => Ok(true),
        Some(Err(error)) => Err(error),
    }
}

/// Whether a window is the wallpaper selector, by its process or by its title.
pub fn is_wallpaper_selector_window(process_name: Option<&str>, title: &str) -> (r: bool)
    ensures
        r == (normal_process_name(optional_text(process_name)) == Some(WALLPAPER_SELECTOR_PROCESS@)
            || lowered(trimmed(title@)) == lowered(WALLPAPER_SELECTOR_TITLE@)),
{
    let by_process: bool = match normalized_process_name(process_name) {
        Some(name) => same_text(name.as_str(), WALLPAPER_SELECTOR_PROCESS),
        None => false,
    };
    by_process || same_chars(
        &lower_chars(&trim_chars(&chars_of(title))),
        &lower_chars(&chars_of(WALLPAPER_SELECTOR_TITLE)),
    )
}

/// Two threads whose input can be joined.
pub open spec fn joinable(left: u32, right: u32) -> bool {
    left != 0 && right != 0 && left != right
}

pub open spec fn with_pair(pairs: Seq<(u32, u32)>, left: u32, right: u32) -> Seq<(u32, u32)> {
    if joinable(left, right) {
        pairs.push((left, right))
    } else {
        pairs
    }
}

/// The pairs of threads whose input is joined so that a window may take the foreground, in
/// order.
pub open spec fn thread_pairs(current: u32, target: u32, foreground: u32) -> Seq<(u32, u32)> {
    with_pair(
        with_pair(with_pair(Seq::empty(), current, target), current, foreground),
        target,
        foreground,
    )
}

fn attach_thread_pair(left: u32, right: u32, pairs: &mut Vec<(u32, u32)>)
    ensures
        final(pairs)@ == with_pair(old(pairs)@, left, right),
{
    if left == 0 || right == 0 || left == right {
        return;
    }
    pairs.push((left, right));
}

pub fn plan_thread_pairs(current: u32, target: u32, foreground: u32) -> (r: Vec<(u32, u32)>)
    ensures
        r@ == thread_pairs(current, target, foreground),
{
    let mut pairs: Vec<(u32, u32)> = Vec::new();
    attach_thread_pair(current, target, &mut pairs);
    attach_thread_pair(current, foreground, &mut pairs);
    attach_thread_pair(target, foreground, &mut pairs);
    pairs
}

/// The pairs that were joined, the last one first: the order in which they are parted again.
pub fn detach_order(attached: &Vec<(u32, u32)>) -> (r: Vec<(u32, u32)>)
    ensures
        r@ == attached@.reverse(),
{
    let mut order: Vec<(u32, u32)> = Vec::new();
    let mut i: usize = attached.len();
    while i > 0
        invariant
            i <= attached.len(),
            order.len() == attached.len() - i,
            forall|j: int| 0 <= j < order.len() ==> order@[j] == attached@[attached.len() - 1 - j],
        decreases i,
    {
        i = i - 1;
        order.push(attached[i]);
    }
    assert(order@ =~= attached@.reverse());
    order
}

/// How a window is shown before it takes the foreground: a minimised one is restored.
pub fn show_command(iconic: bool) -> (r: i32)
    ensures
        r == (if iconic {
            SW_RESTORE
        } else {
            SW_SHOW
        }),
{
    if iconic {
        SW_RESTORE
    } else {
        SW_SHOW
    }
}

/// A call that helps a window to the foreground; it makes no difference whether it succeeds.
#[derive(Clone, Copy, Debug, PartialEq, Eq, Structural)]
pub enum ActivationCall {
    Show { command: i32 },
    BringToTop,
    SetActive,
    SetFocus,
    SetForeground,
}

/// The calls that bring a window to the foreground. It is raised twice, as some shells do not
/// heed the first attempt.
pub open spec fn activation_sequence(iconic: bool) -> Seq<ActivationCall> {
    seq![
        ActivationCall::Show {
            command: if iconic {
                SW_RESTORE
            } else {
                SW_SHOW
            },
        },
        ActivationCall::BringToTop,
        ActivationCall::SetActive,
        ActivationCall::SetFocus,
        ActivationCall::SetForeground,
        ActivationCall::BringToTop,
        ActivationCall::SetForeground,
    ]
}

pub fn activation_calls(iconic: bool) -> (r: Vec<ActivationCall>)
    ensures
        r@ == activation_sequence(iconic),
{
    let mut calls: Vec<ActivationCall> = Vec::new();
    calls.push(ActivationCall::Show { command: show_command(iconic) });
    calls.push(ActivationCall::BringToTop);
    calls.push(ActivationCall::SetActive);
    calls.push(ActivationCall::SetFocus);
    calls.push(ActivationCall::SetForeground);
    calls.push(ActivationCall::BringToTop);
    calls.push(ActivationCall::SetForeground);
    assert(calls@ =~= activation_sequence(iconic));
    calls
}

/// Why a window could not take the foreground.
pub open spec fn activation_error(raw_hwnd: u64, is_valid: bool, activated: bool) -> Option<
    Seq<char>,
> {
    if raw_hwnd == 0 {
        Some("focused window has no valid HWND binding"@)
    } else if !is_valid {
        Some("target window hwnd "@ + decimal(raw_hwnd as nat) + " is no longer valid"@)
    } else if !activated {
        Some(
            "platform activation path failed to foreground hwnd "@ + decimal(raw_hwnd as nat),
        )
    } else {
        None
    }
}

/// The outcome of bringing a window to the foreground.
pub fn activate_window(raw_hwnd: u64, is_valid: bool, activated: bool) -> (r: Result<(), String>)
    ensures
        match r {
            Ok(_) => activation_error(raw_hwnd, is_valid, activated) is None,
            Err(text) => activation_error(raw_hwnd, is_valid, activated) == Some(text@),
        },
{
    if let Err(text) = normalize_hwnd(raw_hwnd) {
        return Err(text);
    }
    if !is_valid {
        return Err(
            quoted("target window hwnd ", decimal_text(raw_hwnd).as_str(), " is no longer valid"),
        );
    }
    if !activated {
        let mut text: String = "platform activation path failed to foreground hwnd ".to_owned();
        text.append(decimal_text(raw_hwnd).as_str());
        return Err(text);
    }
    Ok(())
}

/// Every pair of threads that is joined is of two different ones that exist, and there are at
/// most three pairs.
pub proof fn law_thread_pairs_are_proper(current: u32, target: u32, foreground: u32, i: int)
    requires
        0 <= i < thread_pairs(current, target, foreground).len(),
    ensures
        joinable(
            thread_pairs(current, target, foreground)[i].0,
            thread_pairs(current, target, foreground)[i].1,
        ),
        thread_pairs(current, target, foreground).len() <= 3,
{
}

/// A window is asked to close exactly where it has a handle, exists and takes the request;
/// what fails first is told.
pub proof fn law_closing_tells_what_failed(
    raw_hwnd: u64,
    is_valid: bool,
    posted: bool,
    error: u32,
    r: Result<(), String>,
)
    requires
        call_ensures(close_window, (raw_hwnd, is_valid, posted, error), r),
    ensures
        r is Ok <==> raw_hwnd != 0 && is_valid && posted,
        raw_hwnd == 0 ==> (r matches Err(text) && text@
            == "focused window has no valid HWND binding"@),
        raw_hwnd != 0 && !is_valid ==> (r matches Err(text) && text@ == "focused window hwnd "@
            + decimal(raw_hwnd as nat) + " is no longer valid"@),
        raw_hwnd != 0 && is_valid && !posted ==> (r matches Err(text) && text@ == last_error_text(
            "PostMessageW(WM_CLOSE)"@,
            error,
        )),
{
}

/// A window takes the foreground exactly where it has a handle, exists and was activated;
/// what fails first is told.
pub proof fn law_activation_tells_what_failed(
    raw_hwnd: u64,
    is_valid: bool,
    activated: bool,
    r: Result<(), String>,
)
    requires
        call_ensures(activate_window, (raw_hwnd, is_valid, activated), r),
    ensures
        r is Ok <==> raw_hwnd != 0 && is_valid && activated,
        raw_hwnd == 0 ==> (r matches Err(text) && text@
            == "focused window has no valid HWND binding"@),
        raw_hwnd != 0 && !is_valid ==> (r matches Err(text) && text@ == "target window hwnd "@
            + decimal(raw_hwnd as nat) + " is no longer valid"@),
        raw_hwnd != 0 && is_valid && !activated ==> (r matches Err(text) && text@
            == "platform activation path failed to foreground hwnd "@ + decimal(raw_hwnd as nat)),
{
}

/// A handle keeps its bits when it is read as a signed number: both agree where the number is
/// not negative, and differ by all of 2^64 where it is. Only zero is no handle.
pub proof fn law_handles_keep_their_bits(raw_hwnd: u64, r: Result<i64, String>)
    requires
        call_ensures(normalize_hwnd, (raw_hwnd,), r),
    ensures
        r is Ok <==> raw_hwnd != 0,
        r matches Ok(hwnd) ==> (hwnd - raw_hwnd) % 0x1_0000_0000_0000_0000 == 0,
{
}

/// The threads that are joined are this one and the window's, this one and the one in the
/// foreground, and then those two, each pair exactly where both threads exist and differ.
pub proof fn law_joinable_threads_are_joined(current: u32, target: u32, foreground: u32)
    ensures
        ({
            let pairs = thread_pairs(current, target, foreground);
            let own = current != 0 && target != 0 && current != target;
            let front = current != 0 && foreground != 0 && current != foreground;
            let other = target != 0 && foreground != 0 && target != foreground;
            &&& pairs == (if own {
                seq![(current, target)]
            } else {
                Seq::empty()
            }) + (if front {
                seq![(current, foreground)]
            } else {
                Seq::empty()
            }) + (if other {
                seq![(target, foreground)]
            } else {
                Seq::empty()
            })
        }),
{
}

/// Threads are parted in the opposite order in which they were joined.
pub proof fn law_threads_are_parted_backwards(attached: &Vec<(u32, u32)>, r: Vec<(u32, u32)>, i: int)
    requires
        call_ensures(detach_order, (attached,), r),
        0 <= i < attached@.len(),
    ensures
        r@.len() == attached@.len(),
        r@[i] == attached@[attached@.len() - 1 - i],
{
}

/// A minimised window is restored and any other one shown, before it is raised, made active
/// and given the focus; then it is raised and put in front once more.
pub proof fn law_windows_are_shown_before_they_are_raised(iconic: bool, r: Vec<ActivationCall>)
    requires
        call_ensures(activation_calls, (iconic,), r),
    ensures
        r@.len() == 7,
        r@[0] == (ActivationCall::Show {
            command: if iconic {
                9
            } else {
                5
            },
        }),
        r@[1] is BringToTop && r@[2] is SetActive && r@[3] is SetFocus && r@[4] is SetForeground
            && r@[5] is BringToTop && r@[6] is SetForeground,
{
}

/// The wallpaper selector is told by its process, or by its title in any case of letters and
/// with any white space around it.
pub proof fn law_the_selector_is_told_by_its_name(
    process_name: Option<&str>,
    title: &str,
    r: bool,
)
    requires
        call_ensures(is_wallpaper_selector_window, (process_name, title), r),
    ensures
        r <==> normal_process_name(optional_text(process_name)) == Some("flowshellwallpaper.ui"@)
            || lowered(trimmed(title@)) == lowered("flowshellwallpaper.ui"@),
{
}

/// A selector was closed exactly where one was found and could be closed.
pub proof fn law_a_found_selector_is_closed(
    closed: Option<Result<(), String>>,
    r: Result<bool, String>,
)
    requires
        call_ensures(close_wallpaper_selector_window, (closed,), r),
    ensures
        r == Ok::<bool, String>(true) <==> closed is Some && closed->0 is Ok,
        r == Ok::<bool, String>(false) <==> closed is None,
        r matches Err(error) ==> closed == Some(Err::<(), String>(error)),
{
}

/// A minimised window is restored, and any other one is shown as it is.
pub proof fn law_minimised_windows_are_restored(iconic: bool, r: i32)
    requires
        call_ensures(show_command, (iconic,), r),
    ensures
        iconic ==> r == 9,
        !iconic ==> r == 5,
{
}

} // verus!
