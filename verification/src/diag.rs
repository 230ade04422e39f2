//! Lines of the daemon's log.

use crate::text::{decimal_text, quoted};
use vstd::prelude::*;
use vstd::string::*;

verus! {

use crate::text::decimal;

pub const EARLY_LOG_PATH_ENV: &'static str = "FLOWTILE_EARLY_LOG_PATH";

pub const TOUCHPAD_DUMP_PATH_ENV: &'static str = "FLOWTILE_TOUCHPAD_DUMP_PATH";

/// A message with the time at which it was logged, in milliseconds, as a line.
pub fn log_line(timestamp_ms: u64, message: &str) -> (r: String)
    ensures
        r@ == "["@ + decimal(timestamp_ms as nat) + "] "@ + message@ + "\n"@,
{
    let mut line: String = quoted("[", decimal_text(timestamp_ms).as_str(), "] ");
    line.append(message);
    line.append("\n");
    line
}

/// A line of the log is the message behind its time, and ends the line.
pub proof fn law_lines_tell_the_time(timestamp_ms: u64, message: &str, line: String)
    requires
        call_ensures(log_line, (timestamp_ms, message), line),
    ensures
        line@ == "["@ + decimal(timestamp_ms as nat) + "] "@ + message@ + "\n"@,
{
}

} // verus!
