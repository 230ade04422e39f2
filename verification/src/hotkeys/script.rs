//! The script that observes hotkeys where the system offers none: which hotkeys it is given,
//! and what becomes of each line that it writes.

use crate::control::WatchCommand;
use crate::hotkeys::listener::{
    script_event_action, script_registrations, HotkeyBinding, HotkeyListenerError,
    HotkeyScriptEvent, ScriptEventAction,
};
use crate::text::{chars_of, joined, text_of, trim_chars};
use vstd::prelude::*;
use vstd::string::*;

verus! {

use crate::hotkeys::listener::{
    binding_texts, command_named, known_bindings, text_or, trigger_warning,
};
use crate::text::trimmed;

/// What is done about a line of the script.
#[derive(Clone, Debug, PartialEq, Eq)]
pub enum ScriptStep {
    /// Nothing: the next line is read.
    ReadOn,
    /// Parse the text as an event.
    Parse(String),
    /// Send a command on.
    Send(WatchCommand),
    /// Tell the user, and read on.
    Report(String),
    /// Read no more; the user may be told why.
    Stop(Option<String>),
}

pub ghost enum ScriptStepView {
    ReadOn,
    Parse(Seq<char>),
    Send(WatchCommand),
    Report(Seq<char>),
    Stop(Option<Seq<char>>),
}

impl View for ScriptStep {
    type V = ScriptStepView;

    open spec fn view(&self) -> ScriptStepView {
        match self {
            ScriptStep::ReadOn => ScriptStepView::ReadOn,
            ScriptStep::Parse(text) => ScriptStepView::Parse(text@),
            ScriptStep::Send(command) => ScriptStepView::Send(*command),
            ScriptStep::Report(text) => ScriptStepView::Report(text@),
            ScriptStep::Stop(Some(text)) => ScriptStepView::Stop(Some(text@)),
            ScriptStep::Stop(None) => ScriptStepView::Stop(None),
        }
    }
}

/// The hotkeys that the script is started with; it is not started where there are none.
pub fn plan_script_listener(bindings: &[HotkeyBinding]) -> (r: Option<Vec<HotkeyBinding>>)
    ensures
        match r {
            None => known_bindings(bindings@).len() == 0,
            Some(known) => known_bindings(bindings@).len() > 0 && binding_texts(known@)
                == known_bindings(bindings@),
        },
{
    let known: Vec<HotkeyBinding> = script_registrations(bindings);
    assert(binding_texts(known@).len() == known@.len());
    if known.len() == 0 {
        None
    } else {
        Some(known)
    }
}

/// The listener needs both of the script's outputs.
pub fn script_outputs(stdout: bool, stderr: bool) -> (r: Result<(), HotkeyListenerError>)
    ensures
        r is Ok <==> stdout && stderr,
        r matches Err(error) ==> if stdout {
            error is MissingStderr
        } else {
            error is MissingStdout
        },
{
    if !stdout {
        Err(HotkeyListenerError::MissingStdout)
    } else if !stderr {
        Err(HotkeyListenerError::MissingStderr)
    } else {
        Ok(())
    }
}


/// What a line of the script's output comes to: it is parsed without the blanks around it, and
/// skipped where there is nothing else. A failure to read ends the reading.
pub open spec fn line_step(line: Result<String, String>) -> ScriptStepView {
    match line {
        Err(error) => ScriptStepView::Stop(
            Some("failed to read hotkey listener stdout: "@ + error@),
        ),
        Ok(text) => if trimmed(text@).len() == 0 {
            ScriptStepView::ReadOn
        } else {
            ScriptStepView::Parse(trimmed(text@))
        },
    }
}

pub fn script_line(line: Result<String, String>) -> (r: ScriptStep)
    ensures
        r@ == line_step(line),
{
    match line {
        Err(error) => ScriptStep::Stop(
            Some(joined("failed to read hotkey listener stdout: ", error.as_str())),
        ),
        Ok(text) => {
            let chars: Vec<char> = trim_chars(&chars_of(text.as_str()));
            if chars.len() == 0 {
                ScriptStep::ReadOn
            } else {
                ScriptStep::Parse(text_of(&chars))
            }
        },
    }
}

/// What an event of the script comes to: a known command is sent on, everything else is
/// reported.
pub open spec fn event_step(event: HotkeyScriptEvent) -> ScriptStepView {
    if event.kind@ == "command"@ {
        match event.command {
            None => ScriptStepView::Report(
                "hotkey listener emitted command event without command"@,
            ),
            Some(name) => match command_named(name@) {
                Some(command) => ScriptStepView::Send(command),
                None => ScriptStepView::Report(
                    "hotkey listener emitted unsupported command '"@ + name@ + "'"@,
                ),
            },
        }
    } else if event.kind@ == "warning"@ {
        ScriptStepView::Report(
            trigger_warning(
                text_or(event.trigger, "?"@),
                text_or(event.command, "?"@),
                text_or(event.message, "unknown hotkey warning"@),
            ),
        )
    } else {
        ScriptStepView::Report(
            "hotkey listener emitted unsupported event kind '"@ + event.kind@ + "'"@,
        )
    }
}

/// What a line comes to once it has been parsed. One that is no event ends the reading.
pub fn script_event(parsed: Result<HotkeyScriptEvent, String>) -> (r: ScriptStep)
    ensures
        r@ == (match parsed {
            Ok(event) => event_step(event),
            Err(error) => ScriptStepView::Stop(
                Some("hotkey listener returned invalid json: "@ + error@),
            ),
        }),
{
    match parsed {
        Ok(event) => match script_event_action(&event) {
            ScriptEventAction::Send(command) => ScriptStep::Send(command),
            ScriptEventAction::Report(line) => ScriptStep::Report(line),
        },
        Err(error) => ScriptStep::Stop(
            Some(joined("hotkey listener returned invalid json: ", error.as_str())),
        ),
    }
}

/// What follows a command that was sent on. Nothing more is read where nobody takes commands.
pub fn script_command_sent(taken: bool) -> (r: ScriptStep)
    ensures
        r@ == (if taken {
            ScriptStepView::ReadOn
        } else {
            ScriptStepView::Stop(None)
        }),
{
    if taken {
        ScriptStep::ReadOn
    } else {
        ScriptStep::Stop(None)
    }
}

/// What a line that the script complains in comes to: the user is told of it.
pub fn script_error_line(line: Result<String, String>) -> (r: ScriptStep)
    ensures
        r@ == (match line {
            Err(error) => ScriptStepView::Stop(
                Some("failed to read hotkey listener stderr: "@ + error@),
            ),
            Ok(text) => if trimmed(text@).len() == 0 {
                ScriptStepView::ReadOn
            } else {
                ScriptStepView::Report("hotkey listener: "@ + trimmed(text@))
            },
        }),
{
    match line {
        Err(error) => ScriptStep::Stop(
            Some(joined("failed to read hotkey listener stderr: ", error.as_str())),
        ),
        Ok(text) => {
            let chars: Vec<char> = trim_chars(&chars_of(text.as_str()));
            if chars.len() == 0 {
                ScriptStep::ReadOn
            } else {
                ScriptStep::Report(joined("hotkey listener: ", text_of(&chars).as_str()))
            }
        },
    }
}

/// Whatever the script says, and whatever an event of it holds, the reading goes on: a line is
/// skipped or parsed, and an event is sent on or reported.
pub proof fn law_events_keep_the_script_running(event: HotkeyScriptEvent, text: String)
    ensures
        event_step(event) is Send || event_step(event) is Report,
        line_step(Ok(text)) is ReadOn || line_step(Ok(text)) == ScriptStepView::Parse(
            trimmed(text@),
        ),
{
}

/// What the script writes is taken line by line: blank lines are skipped, others are parsed
/// without the white space round them, and a line that cannot be read is the last one.
pub proof fn law_lines_are_parsed_or_skipped(line: Result<String, String>, step: ScriptStep)
    requires
        call_ensures(script_line, (line,), step),
    ensures
        line matches Ok(text) ==> {
            &&& trimmed(text@).len() == 0 ==> step is ReadOn
            &&& trimmed(text@).len() > 0 ==> (step matches ScriptStep::Parse(parsed) && parsed@
                == trimmed(text@))
        },
        line matches Err(error) ==> (step matches ScriptStep::Stop(Some(message)) && message@
            == "failed to read hotkey listener stdout: "@ + error@),
{
}

/// An event of a known command sends that command; an event that says nothing useful is
/// reported; and what is no event ends the reading.
pub proof fn law_script_commands_are_sent(
    parsed: Result<HotkeyScriptEvent, String>,
    step: ScriptStep,
    command: WatchCommand,
)
    requires
        call_ensures(script_event, (parsed,), step),
    ensures
        parsed matches Ok(event) ==> {
            &&& step is Send || step is Report
            &&& step == ScriptStep::Send(command) <==> event.kind@ == "command"@ && (
            event.command matches Some(name) && command_named(name@) == Some(command))
        },
        parsed matches Err(error) ==> (step matches ScriptStep::Stop(Some(message)) && message@
            == "hotkey listener returned invalid json: "@ + error@),
{
}

/// The script needs both of its outputs; the standard one is missed first.
pub proof fn law_scripts_need_both_outputs(
    stdout: bool,
    stderr: bool,
    r: Result<(), HotkeyListenerError>,
)
    requires
        call_ensures(script_outputs, (stdout, stderr), r),
    ensures
        stdout && stderr ==> r is Ok,
        !stdout ==> r is Err && r->Err_0 is MissingStdout,
        stdout && !stderr ==> r is Err && r->Err_0 is MissingStderr,
{
}

/// The script is listened to as long as its commands are taken; its complaints are passed on
/// without the white space around them, and empty ones are not.
pub proof fn law_complaints_are_passed_on(
    taken: bool,
    sent: ScriptStep,
    line: Result<String, String>,
    r: ScriptStep,
)
    requires
        call_ensures(script_command_sent, (taken,), sent),
        call_ensures(script_error_line, (line,), r),
    ensures
        taken ==> sent@ is ReadOn,
        !taken ==> sent@ == ScriptStepView::Stop(None),
        line matches Err(error) ==> r@ == ScriptStepView::Stop(
            Some("failed to read hotkey listener stderr: "@ + error@),
        ),
        line matches Ok(text) ==> (trimmed(text@).len() == 0 ==> r@ is ReadOn),
        line matches Ok(text) ==> (trimmed(text@).len() > 0 ==> r@ == ScriptStepView::Report(
            "hotkey listener: "@ + trimmed(text@),
        )),
{
}

} // verus!
