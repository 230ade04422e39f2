//! Requests to the shell's own service, over its command pipe.

use serde_json::Value;

use crate::text::{chars_of, decimal_text, quoted, same_text, text_of, trim_chars};
use crate::win32::widestring;
use vstd::prelude::*;
use vstd::string::*;

verus! {

use crate::overview_surface::shell::optional_text;
use crate::text::{decimal, trimmed};
use crate::win32::utf16;

pub const PROTOCOL_VERSION: u32 = 1;

pub const COMMAND_PIPE_ENV_VAR: &'static str = "FLOWSHELL_CORE_COMMAND_PIPE";

pub const DEFAULT_COMMAND_PIPE_NAME: &'static str = "flowshellcore-ipc-v1";

pub const WALLPAPER_SELECTOR_ENTRYPOINT_ID: &'static str = "wallpaper-selector";

/// How long the service may take to accept a connection, in milliseconds.
pub const DEFAULT_TIMEOUT_MS: u64 = 5000;

pub const ERROR_BROKEN_PIPE: u32 = 109;

pub const ERROR_PIPE_BUSY: u32 = 231;

pub const ERROR_MORE_DATA: u32 = 234;

/// `serde_json::Value`, a JSON document.
#[verifier::external_type_specification]
#[verifier::external_body]
pub struct ExJsonValue(serde_json::Value);

/// The names of the members of a JSON object; none of a document that is no object.
pub uninterp spec fn json_member_names(value: Value) -> Set<Seq<char>>;

/// The members of a JSON object that are strings.
pub uninterp spec fn json_texts(value: Value) -> Map<Seq<char>, Seq<char>>;

/// The members of a JSON object that are truth values.
pub uninterp spec fn json_truths(value: Value) -> Map<Seq<char>, bool>;

/// A single text under a name.
pub open spec fn one_text(name: Seq<char>, text: Seq<char>) -> Map<Seq<char>, Seq<char>> {
    map![name => text]
}

/// Collects one pair with `Value`'s `FromIterator` for pairs, which makes an object: its one
/// member has the given name and is the given string.
#[verifier::external_body]
fn json_object(name: &str, text: &str) -> (r: Value)
    ensures
        json_member_names(r) == set![name@],
        json_texts(r) == one_text(name@, text@),
{
    [(name, text)].into_iter().collect::<Value>()
}

/// Looks a member up with `Value::get` and reads it with `Value::as_bool`. There is a result
/// only where the document is an object and its member of that name is a truth value.
#[verifier::external_body]
fn json_truth(value: &Value, name: &str) -> (r: Option<bool>)
    ensures
        r == (if json_truths(*value).contains_key(name@) {
            Some(json_truths(*value)[name@])
        } else {
            None
        }),
{
    value.get(name).and_then(Value::as_bool)
}

#[derive(Debug)]
pub struct IpcRequest {
    pub protocol_version: u32,
    pub request_id: String,
    pub message_type: String,
    pub payload: Value,
}

impl IpcRequest {
    pub fn new(request_id: String, message_type: String, payload: Value) -> (r: IpcRequest)
        ensures
            r.protocol_version == PROTOCOL_VERSION,
            r.request_id == request_id,
            r.message_type == message_type,
            r.payload == payload,
    {
        IpcRequest { protocol_version: PROTOCOL_VERSION, request_id, message_type, payload }
    }
}

/// Why the service refused a request.
#[derive(Clone, Debug, PartialEq, Eq)]
pub struct IpcError {
    pub code: String,
    pub message: String,
}

#[derive(Debug)]
pub struct IpcResponse {
    pub protocol_version: u32,
    pub request_id: String,
    pub ok: bool,
    pub result: Option<Value>,
    pub error: Option<IpcError>,
}

/// A request asks to launch an entrypoint.
pub open spec fn asks_to_launch(request: IpcRequest, entrypoint_id: Seq<char>) -> bool {
    &&& request.protocol_version == PROTOCOL_VERSION
    &&& request.message_type@ == "launch_entrypoint"@
    &&& json_member_names(request.payload) == set!["entrypoint_id"@]
    &&& json_texts(request.payload) == one_text("entrypoint_id"@, entrypoint_id)
}

/// The request that launches an entrypoint of the shell.
pub fn launch_entrypoint(request_id: String, entrypoint_id: &str) -> (r: IpcRequest)
    ensures
        asks_to_launch(r, entrypoint_id@),
        r.request_id == request_id,
{
    IpcRequest::new(
        request_id,
        "launch_entrypoint".to_owned(),
        json_object("entrypoint_id", entrypoint_id),
    )
}

/// The request that opens the wallpaper selector, made at a given time in milliseconds.
pub fn open_wallpaper_selector(millis: u64) -> (r: IpcRequest)
    ensures
        asks_to_launch(r, WALLPAPER_SELECTOR_ENTRYPOINT_ID@),
        r.request_id@ == request_id_text("launch-entrypoint"@, millis),
{
    launch_entrypoint(
        request_id("launch-entrypoint", millis),
        WALLPAPER_SELECTOR_ENTRYPOINT_ID,
    )
}

/// What tells requests apart: what they are for and when they were made.
pub open spec fn request_id_text(prefix: Seq<char>, millis: u64) -> Seq<char> {
    "flowtilewm-"@ + prefix + "-"@ + decimal(millis as nat)
}

pub fn request_id(prefix: &str, millis: u64) -> (r: String)
    ensures
        r@ == request_id_text(prefix@, millis),
{
    let mut id: String = quoted("flowtilewm-", prefix, "-");
    id.append(decimal_text(millis).as_str());
    id
}

/// The pipe that the environment names, or the usual one where it names none.
pub open spec fn pipe_name(value: Option<Seq<char>>) -> Seq<char> {
    match value {
        Some(value) => if trimmed(value).len() > 0 {
            trimmed(value)
        } else {
            DEFAULT_COMMAND_PIPE_NAME@
        },
        None => DEFAULT_COMMAND_PIPE_NAME@,
    }
}

pub fn command_pipe_name(value: Option<&str>) -> (r: String)
    ensures
        r@ == pipe_name(optional_text(value)),
{
    match value {
        Some(value) => {
            let name: Vec<char> = trim_chars(&chars_of(value));
            if name.len() > 0 {
                text_of(&name)
            } else {
                DEFAULT_COMMAND_PIPE_NAME.to_owned()
            }
        },
        None => DEFAULT_COMMAND_PIPE_NAME.to_owned(),
    }
}

/// The path of a pipe of this machine, in UTF-16 with a zero at the end.
pub fn full_pipe_name(pipe_name: &str) -> (r: Vec<u16>)
    ensures
        r@ == utf16("\\\\.\\pipe\\"@ + pipe_name@).push(0),
{
    let mut path: String = "\\\\.\\pipe\\".to_owned();
    path.append(pipe_name);
    widestring(path.as_str())
}

/// Whether a result says that the launch was accepted.
pub open spec fn accepted_by(result: Option<Value>) -> Option<bool> {
    match result {
        Some(value) => if json_truths(value).contains_key("accepted"@) {
            Some(json_truths(value)["accepted"@])
        } else {
            None
        },
        None => None,
    }
}

/// What a response is faulted for, in this order: another protocol, another request, a
/// failure, and a launch that was not accepted.
pub open spec fn response_error(
    request: IpcRequest,
    response: IpcResponse,
    accepted: Option<bool>,
) -> Option<Seq<char>> {
    if response.protocol_version != PROTOCOL_VERSION {
        Some(
            "FlowShellCore protocol mismatch: expected "@ + decimal(PROTOCOL_VERSION as nat)
                + ", got "@ + decimal(response.protocol_version as nat),
        )
    } else if response.request_id@ != request.request_id@ {
        Some(
            "FlowShellCore request mismatch: expected '"@ + request.request_id@ + "', got '"@
                + response.request_id@ + "'"@,
        )
    } else if !response.ok {
        Some(
            "FlowShellCore launch_entrypoint failed: "@ + (match response.error {
                Some(error) => error.code@ + ": "@ + error.message@,
                None => "request failed"@,
            }),
        )
    } else if accepted == Some(false) {
        Some("FlowShellCore launch_entrypoint was rejected"@)
    } else {
        None
    }
}

/// Judges a response by what its result says of the launch.
pub fn judge_response(request: &IpcRequest, response: &IpcResponse, accepted: Option<bool>) -> (r:
    Result<(), String>)
    ensures
        match r {
            Ok(_) => response_error(*request, *response, accepted) is None,
            Err(text) => response_error(*request, *response, accepted) == Some(text@),
        },
{
    if response.protocol_version != PROTOCOL_VERSION {
        let mut text: String = quoted(
            "FlowShellCore protocol mismatch: expected ",
            decimal_text(PROTOCOL_VERSION as u64).as_str(),
            ", got ",
        );
        text.append(decimal_text(response.protocol_version as u64).as_str());
        return Err(text);
    }
    if !same_text(response.request_id.as_str(), request.request_id.as_str()) {
        let mut text: String = quoted(
            "FlowShellCore request mismatch: expected '",
            request.request_id.as_str(),
            "', got '",
        );
        text.append(response.request_id.as_str());
        text.append("'");
        return Err(text);
    }
    if !response.ok {
        let mut text: String = "FlowShellCore launch_entrypoint failed: ".to_owned();
        match &response.error {
            Some(error) => {
                let reason: String = quoted(error.code.as_str(), ": ", error.message.as_str());
                text.append(reason.as_str());
            },
            None => {
                text.append("request failed");
            },
        }
        return Err(text);
    }
    match accepted {
        Some(false) => Err("FlowShellCore launch_entrypoint was rejected".to_owned()),
        _ => Ok(()),
    }
}

pub fn ensure_success(request: &IpcRequest, response: &IpcResponse) -> (r: Result<(), String>)
    ensures
        match r {
            Ok(_) => response_error(*request, *response, accepted_by(response.result)) is None,
            Err(text) => response_error(*request, *response, accepted_by(response.result)) == Some(
                text@,
            ),
        },
{
    let accepted: Option<bool> = match &response.result {
        Some(value) => json_truth(value, "accepted"),
        None => None,
    };
    judge_response(request, response, accepted)
}

/// What to do about a pipe that could not be opened.
#[derive(Clone, Copy, Debug, PartialEq, Eq, Structural)]
pub enum PipeRetry {
    /// Give up with the system's error.
    Fail,
    /// Give up: it took too long.
    TimedOut,
    /// Wait at most so many milliseconds for the pipe and try again.
    Wait { millis: u32 },
}

/// Only a busy pipe is tried again, until a deadline. Times are in milliseconds.
pub fn pipe_retry(last_error: u32, now: u64, deadline: u64) -> (r: PipeRetry)
    ensures
        r == (if last_error != ERROR_PIPE_BUSY {
            PipeRetry::Fail
        } else if now >= deadline {
            PipeRetry::TimedOut
        } else {
            PipeRetry::Wait {
                millis: (if deadline - now > u32::MAX {
                    u32::MAX
                } else {
                    (deadline - now) as u32
                }),
            }
        }),
{
    if last_error != ERROR_PIPE_BUSY {
        return PipeRetry::Fail;
    }
    if now >= deadline {
        return PipeRetry::TimedOut;
    }
    let remaining: u64 = deadline - now;
    PipeRetry::Wait {
        millis: if remaining > u32::MAX as u64 {
            u32::MAX
        } else {
            remaining as u32
        },
    }
}

/// Whether a wait for the pipe that failed was the last.
pub fn pipe_wait_timed_out(waited: bool, now: u64, deadline: u64) -> (r: bool)
    ensures
        r == (!waited && now >= deadline),
{
    !waited && now >= deadline
}

/// What to do after a read from the pipe.
#[derive(Clone, Copy, Debug, PartialEq, Eq, Structural)]
pub enum ReadStep {
    /// The chunk ends the message.
    Complete,
    /// The chunk belongs to the message, and there is more of it.
    More,
    /// The other side is gone: what was read before is the message.
    Closed,
    /// Give up with the system's error.
    Fail,
}

pub open spec fn step_after_read(success: bool, last_error: u32) -> ReadStep {
    if success {
        ReadStep::Complete
    } else if last_error == ERROR_MORE_DATA {
        ReadStep::More
    } else if last_error == ERROR_BROKEN_PIPE {
        ReadStep::Closed
    } else {
        ReadStep::Fail
    }
}

pub fn read_step(success: bool, last_error: u32) -> (r: ReadStep)
    ensures
        r == step_after_read(success, last_error),
{
    if success {
        ReadStep::Complete
    } else if last_error == ERROR_MORE_DATA {
        ReadStep::More
    } else if last_error == ERROR_BROKEN_PIPE {
        ReadStep::Closed
    } else {
        ReadStep::Fail
    }
}

/// A message that is read from the pipe chunk by chunk.
#[derive(Clone, Debug, PartialEq, Eq)]
pub struct PipeMessage {
    pub bytes: Vec<u8>,
}

impl PipeMessage {
    pub fn new() -> (r: PipeMessage)
        ensures
            r.bytes@ == Seq::<u8>::empty(),
    {
        PipeMessage { bytes: Vec::new() }
    }

    /// Takes what a read left in the buffer: the first `read` bytes of a chunk, where the
    /// chunk belongs to the message.
    pub fn read_message(
        &mut self,
        chunk: &[u8],
        read: usize,
        success: bool,
        last_error: u32,
    ) -> (r: ReadStep)
        requires
            read <= chunk@.len(),
        ensures
            r == step_after_read(success, last_error),
            final(self).bytes@ == (if r is Complete || r is More {
                old(self).bytes@ + chunk@.take(read as int)
            } else {
                old(self).bytes@
            }),
    {
        let step: ReadStep = read_step(success, last_error);
        if let ReadStep::Complete | ReadStep::More = step {
            let ghost before = self.bytes@;
            let mut i: usize = 0;
            assert(before + chunk@.take(0) =~= before);
            while i < read
                invariant
                    i <= read <= chunk@.len(),
                    self.bytes@ == before + chunk@.take(i as int),
                decreases read - i,
            {
                self.bytes.push(chunk[i]);
                assert(self.bytes@ =~= before + chunk@.take(i + 1));
                i = i + 1;
            }
        }
        step
    }
}

/// A response counts as a success exactly where it answers the request, under the same
/// protocol, and reports neither a failure nor a launch that was not accepted.
pub proof fn law_only_its_own_answer_counts(
    request: IpcRequest,
    response: IpcResponse,
    accepted: Option<bool>,
)
    ensures
        response_error(request, response, accepted) is None <==> response.protocol_version
            == PROTOCOL_VERSION && response.request_id@ == request.request_id@ && response.ok
            && accepted != Some(false),
{
}

/// A request to launch an entrypoint speaks the first version of the protocol, names the
/// message by what it does, and says nothing but which entrypoint is meant; the one for the
/// wallpaper selector is numbered by the time.
pub proof fn law_launches_name_their_entrypoint(
    id: String,
    entrypoint_id: &str,
    request: IpcRequest,
    millis: u64,
    selector: IpcRequest,
)
    requires
        call_ensures(launch_entrypoint, (id, entrypoint_id), request),
        call_ensures(open_wallpaper_selector, (millis,), selector),
    ensures
        request.request_id@ == id@,
        request.protocol_version == 1,
        request.message_type@ == "launch_entrypoint"@,
        json_member_names(request.payload) == set!["entrypoint_id"@],
        json_texts(request.payload).contains_pair("entrypoint_id"@, entrypoint_id@),
        selector.request_id@ == "flowtilewm-"@ + "launch-entrypoint"@ + "-"@ + decimal(
            millis as nat,
        ),
        selector.protocol_version == 1,
        selector.message_type@ == "launch_entrypoint"@,
        json_texts(selector.payload).contains_pair("entrypoint_id"@, "wallpaper-selector"@),
{
}

/// The pipe is the one that the environment names, without the white space around the name;
/// an empty name counts for none.
pub proof fn law_the_environment_names_the_pipe(value: Option<&str>, name: String)
    requires
        call_ensures(command_pipe_name, (value,), name),
    ensures
        value is None ==> name@ == "flowshellcore-ipc-v1"@,
        value matches Some(text) ==> (trimmed(text@).len() == 0 ==> name@
            == "flowshellcore-ipc-v1"@),
        value matches Some(text) ==> (trimmed(text@).len() > 0 ==> name@ == trimmed(text@)),
{
}

/// What a response is faulted for is said with what was expected and what came.
pub proof fn law_faults_say_what_came(
    request: &IpcRequest,
    response: &IpcResponse,
    accepted: Option<bool>,
    r: Result<(), String>,
)
    requires
        call_ensures(judge_response, (request, response, accepted), r),
    ensures
        response.protocol_version != 1 ==> (r matches Err(text) && text@
            == "FlowShellCore protocol mismatch: expected "@ + decimal(1) + ", got "@ + decimal(
            response.protocol_version as nat,
        )),
        response.protocol_version == 1 && response.request_id@ != request.request_id@ ==> (
        r matches Err(text) && text@ == "FlowShellCore request mismatch: expected '"@
            + request.request_id@ + "', got '"@ + response.request_id@ + "'"@),
        response.protocol_version == 1 && response.request_id@ == request.request_id@
            && !response.ok ==> (r matches Err(text) && text@
            == "FlowShellCore launch_entrypoint failed: "@ + (match response.error {
            Some(error) => error.code@ + ": "@ + error.message@,
            None => "request failed"@,
        })),
        response.protocol_version == 1 && response.request_id@ == request.request_id@
            && response.ok && accepted == Some(false) ==> (r matches Err(text) && text@
            == "FlowShellCore launch_entrypoint was rejected"@),
        r is Ok <==> response.protocol_version == 1 && response.request_id@ == request.request_id@
            && response.ok && accepted != Some(false),
{
}

/// A launch counts as accepted unless its result says otherwise.
pub proof fn law_results_tell_of_the_launch(value: Value)
    ensures
        accepted_by(None) is None,
        json_truths(value).contains_pair("accepted"@, true) ==> accepted_by(Some(value)) == Some(
            true,
        ),
        json_truths(value).contains_pair("accepted"@, false) ==> accepted_by(Some(value)) == Some(
            false,
        ),
        !json_truths(value).contains_key("accepted"@) ==> accepted_by(Some(value)) is None,
{
}

/// A busy pipe is waited for until the deadline and not a millisecond longer, as far as the
/// system can wait at once; every other error ends the attempt.
pub proof fn law_busy_pipes_are_waited_for(
    last_error: u32,
    now: u64,
    deadline: u64,
    r: PipeRetry,
)
    requires
        call_ensures(pipe_retry, (last_error, now, deadline), r),
    ensures
        r is Fail <==> last_error != 231,
        r is TimedOut <==> last_error == 231 && now >= deadline,
        r matches PipeRetry::Wait { millis } ==> now + millis <= deadline && (now + millis
            == deadline || millis == 0xffff_ffff),
{
}

/// A message ends with a read that succeeds, or where the other side is gone; it goes on
/// where the buffer was too small for it.
pub proof fn law_reads_end_the_message(last_error: u32)
    ensures
        step_after_read(true, last_error) is Complete,
        step_after_read(false, last_error) is More <==> last_error == 234,
        step_after_read(false, last_error) is Closed <==> last_error == 109,
        step_after_read(false, last_error) is Fail <==> last_error != 234 && last_error != 109,
{
}

/// A pipe is found under its name on this machine; a failed wait is the last where the
/// deadline has passed.
pub proof fn law_pipes_are_found_on_this_machine(
    name: &str,
    path: Vec<u16>,
    waited: bool,
    now: u64,
    deadline: u64,
    last: bool,
)
    requires
        call_ensures(full_pipe_name, (name,), path),
        call_ensures(pipe_wait_timed_out, (waited, now, deadline), last),
    ensures
        path@ == utf16("\\\\.\\pipe\\"@ + name@).push(0),
        waited ==> !last,
        !waited && deadline <= now ==> last,
        now < deadline ==> !last,
{
}

/// A chunk is added behind what was read before exactly where it belongs to the message, and
/// only as far as it was filled.
pub proof fn law_chunks_are_put_together(
    message: &mut PipeMessage,
    chunk: &[u8],
    read: usize,
    success: bool,
    last_error: u32,
    r: ReadStep,
    i: int,
)
    requires
        read <= chunk@.len(),
        call_ensures(PipeMessage::read_message, (message, chunk, read, success, last_error), r),
    ensures
        ({
            let before = old(message).bytes@;
            let after = final(message).bytes@;
            let taken = success || last_error == 234;
            &&& taken ==> after.len() == before.len() + read
            &&& !taken ==> after == before
            &&& 0 <= i < before.len() ==> after[i] == before[i]
            &&& taken && 0 <= i < read ==> after[before.len() + i] == chunk@[i]
        }),
{
}

} // verus!
