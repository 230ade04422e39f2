//! The terminal that a command opens.

use crate::text::{quoted, signed_decimal_text};
use vstd::prelude::*;
use vstd::string::*;

verus! {

use crate::text::signed_decimal;

pub const DEFAULT_TERMINAL_SHORTCUT_PATH: &'static str =
    "C:\\Users\\mayo\\AppData\\Roaming\\Microsoft\\Windows\\Start Menu\\Programs\\PowerShell.lnk";

/// Why the shortcut could not be opened: it is not there, or the shell answered with one of
/// its error codes, which are those up to 32.
pub open spec fn shortcut_error(exists: bool, shell_code: i64) -> Option<Seq<char>> {
    if !exists {
        Some("shortcut path does not exist"@)
    } else if shell_code <= 32 {
        Some("ShellExecuteW failed with shell code "@ + signed_decimal(shell_code as int))
    } else {
        None
    }
}

fn spawn_terminal_shortcut(exists: bool, shell_code: i64) -> (r: Result<(), String>)
    ensures
        match r {
            Ok(_) => shortcut_error(exists, shell_code) is None,
            Err(text) => shortcut_error(exists, shell_code) == Some(text@),
        },
{
    if !exists {
        return Err("shortcut path does not exist".to_owned());
    }
    if shell_code <= 32 {
        let mut text: String = "ShellExecuteW failed with shell code ".to_owned();
        text.append(signed_decimal_text(shell_code).as_str());
        return Err(text);
    }
    Ok(())
}

/// The outcome of opening the terminal's shortcut: whether it exists, and what the shell
/// answered.
pub fn open_default_terminal(exists: bool, shell_code: i64) -> (r: Result<(), String>)
    ensures
        match r {
            Ok(_) => shortcut_error(exists, shell_code) is None,
            Err(text) => shortcut_error(exists, shell_code) matches Some(error) && text@
                == "failed to open terminal shortcut "@ + DEFAULT_TERMINAL_SHORTCUT_PATH@ + ": "@
                + error,
        },
{
    match spawn_terminal_shortcut(exists, shell_code) {
        Ok(_) => Ok(()),
        Err(error) => {
            let mut text: String = quoted(
                "failed to open terminal shortcut ",
                DEFAULT_TERMINAL_SHORTCUT_PATH,
                ": ",
            );
            text.append(error.as_str());
            Err(text)
        },
    }
}

/// The terminal opens exactly where its shortcut exists and the shell answers with more than
/// 32; what failed is told after the path.
pub proof fn law_the_shortcut_opens_the_terminal(
    exists: bool,
    shell_code: i64,
    r: Result<(), String>,
)
    requires
        call_ensures(open_default_terminal, (exists, shell_code), r),
    ensures
        r is Ok <==> exists && shell_code > 32,
        !exists ==> (r matches Err(text) && text@ == "failed to open terminal shortcut "@
            + DEFAULT_TERMINAL_SHORTCUT_PATH@ + ": "@ + "shortcut path does not exist"@),
        exists && shell_code <= 32 ==> (r matches Err(text) && text@
            == "failed to open terminal shortcut "@ + DEFAULT_TERMINAL_SHORTCUT_PATH@ + ": "@ + (
        "ShellExecuteW failed with shell code "@ + signed_decimal(shell_code as int))),
{
}

} // verus!
