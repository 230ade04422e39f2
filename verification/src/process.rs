//! The process as a whole.

use crate::win32::last_error_message;
use vstd::prelude::*;

verus! {

use crate::win32::last_error_text;

/// The awareness of the process has been set before.
pub const ERROR_ACCESS_DENIED: u32 = 5;

/// The outcome of making the process aware of each monitor's resolution. That it was made so
/// before is no failure.
pub fn ensure_process_dpi_awareness(applied: bool, error: u32) -> (r: Result<(), String>)
    ensures
        r is Ok <==> applied || error == ERROR_ACCESS_DENIED,
        r matches Err(text) ==> text@ == last_error_text("SetProcessDpiAwarenessContext"@, error),
{
    if applied || error == ERROR_ACCESS_DENIED {
        return Ok(());
    }
    Err(last_error_message("SetProcessDpiAwarenessContext", error))
}

/// A process that cannot be made aware of its monitors is told why, except where it was made
/// so before.
pub proof fn law_awareness_is_set_once(applied: bool, error: u32, r: Result<(), String>)
    requires
        call_ensures(ensure_process_dpi_awareness, (applied, error), r),
    ensures
        r is Err <==> !applied && error != 5,
        r matches Err(text) ==> text@ == last_error_text("SetProcessDpiAwarenessContext"@, error),
{
}

} // verus!
