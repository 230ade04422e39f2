//! Switches that the environment may hold.

use crate::text::{chars_of, lower_chars, same_chars, trim_chars};
use vstd::prelude::*;

verus! {

use crate::overview_surface::shell::optional_text;
use crate::text::{lowered, trimmed};

/// A value without white space round it and in lower case.
pub open spec fn normal_value(value: Seq<char>) -> Seq<char> {
    lowered(trimmed(value))
}

/// Whether a value says no.
pub open spec fn denies(value: Seq<char>) -> bool {
    normal_value(value) == "0"@ || normal_value(value) == "false"@
}

fn value_denies(value: &Vec<char>) -> (r: bool)
    ensures
        r == (value@ == "0"@ || value@ == "false"@),
{
    same_chars(value, &chars_of("0")) || same_chars(value, &chars_of("false"))
}

/// A switch is on where the environment holds it and its value is neither empty nor a no.
pub fn overview_env_flag(value: Option<&str>) -> (r: bool)
    ensures
        r == (match optional_text(value) {
            Some(text) => normal_value(text).len() > 0 && !denies(text),
            None => false,
        }),
{
    match value {
        Some(text) => {
            let normalized: Vec<char> = lower_chars(&trim_chars(&chars_of(text)));
            normalized.len() > 0 && !value_denies(&normalized)
        },
        None => false,
    }
}

/// The geometry of thumbnails is logged only on demand.
pub fn overview_thumbnail_diagnostics_enabled(value: Option<&str>) -> (r: bool)
    ensures
        r == (match optional_text(value) {
            Some(text) => normal_value(text).len() > 0 && !denies(text),
            None => false,
        }),
{
    overview_env_flag(value)
}

/// Thumbnails show only the client area of a window unless the environment says no.
pub fn overview_thumbnail_client_only_enabled(value: Option<&str>) -> (r: bool)
    ensures
        r == (match optional_text(value) {
            Some(text) => !denies(text),
            None => true,
        }),
{
    match value {
        Some(text) => !value_denies(&lower_chars(&trim_chars(&chars_of(text)))),
        None => true,
    }
}

/// Both switches are off where the environment says no. Where it says nothing, logging is
/// off and showing the client area alone is on; an empty value counts for nothing said when
/// it comes to logging.
pub proof fn law_switches_obey_the_environment(
    value: Option<&str>,
    flag: bool,
    diagnostics: bool,
    client_only: bool,
)
    requires
        call_ensures(overview_env_flag, (value,), flag),
        call_ensures(overview_thumbnail_diagnostics_enabled, (value,), diagnostics),
        call_ensures(overview_thumbnail_client_only_enabled, (value,), client_only),
    ensures
        value is None ==> !flag && !diagnostics && client_only,
        value matches Some(text) ==> {
            let said = lowered(trimmed(text@));
            let no = said == "0"@ || said == "false"@;
            &&& client_only == !no
            &&& flag == (said.len() != 0 && !no)
            &&& diagnostics == (said.len() != 0 && !no)
        },
{
}

} // verus!
