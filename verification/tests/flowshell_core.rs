//! Requests to the shell's core and what its answers mean.

use flowtile_core_daemon::flowshell_core::{
    self, command_pipe_name, ensure_success, full_pipe_name, judge_response, launch_entrypoint,
    open_wallpaper_selector, pipe_retry, pipe_wait_timed_out, read_step, IpcError, IpcRequest,
    IpcResponse, PipeMessage, PipeRetry, ReadStep, DEFAULT_COMMAND_PIPE_NAME, PROTOCOL_VERSION,
    WALLPAPER_SELECTOR_ENTRYPOINT_ID,
};
use serde_json::Value;
use windows_sys::Win32::Foundation::{ERROR_BROKEN_PIPE, ERROR_MORE_DATA, ERROR_PIPE_BUSY};

fn entrypoint_payload() -> Value {
    Value::from_iter([("entrypoint_id", WALLPAPER_SELECTOR_ENTRYPOINT_ID)])
}

#[test]
fn command_pipe_name_defaults_to_flowshellcore_pipe() {
    assert_eq!(command_pipe_name(None), DEFAULT_COMMAND_PIPE_NAME);
}

#[test]
fn command_pipe_name_honors_environment_override() {
    assert_eq!(
        command_pipe_name(Some("custom-core-pipe")),
        "custom-core-pipe"
    );
}

#[test]
fn wallpaper_selector_request_targets_expected_entrypoint() {
    let request = IpcRequest::new(
        "req-1".to_string(),
        "launch_entrypoint".to_string(),
        entrypoint_payload(),
    );

    assert_eq!(request.message_type, "launch_entrypoint");
    assert_eq!(
        request
            .payload
            .get("entrypoint_id")
            .and_then(|value| value.as_str()),
        Some(WALLPAPER_SELECTOR_ENTRYPOINT_ID)
    );
}

#[test]
fn failed_launch_response_surfaces_error() {
    let request = IpcRequest::new(
        "req-1".to_string(),
        "launch_entrypoint".to_string(),
        entrypoint_payload(),
    );
    let response = IpcResponse {
        protocol_version: 1,
        request_id: "req-1".to_string(),
        ok: false,
        result: None,
        error: Some(IpcError {
            code: "not_found".to_string(),
            message: "entrypoint is missing".to_string(),
        }),
    };

    let error = ensure_success(&request, &response).expect_err("response should fail");
    assert!(error.contains("not_found"));
    assert!(error.contains("entrypoint is missing"));
}

fn answer(request_id: &str, accepted: Option<Value>) -> IpcResponse {
    IpcResponse {
        protocol_version: PROTOCOL_VERSION,
        request_id: request_id.to_string(),
        ok: true,
        result: accepted.map(|value| Value::from_iter([("accepted", value)])),
        error: None,
    }
}

fn request(request_id: &str) -> IpcRequest {
    launch_entrypoint(request_id.to_string(), "settings")
}

#[test]
fn a_launch_request_holds_its_entrypoint_alone() {
    let request = request("req-7");
    assert_eq!(request.protocol_version, 1);
    assert_eq!(request.request_id, "req-7");
    assert_eq!(request.message_type, "launch_entrypoint");
    let members = request.payload.as_object().expect("the payload is an object");
    assert_eq!(members.len(), 1);
    assert_eq!(
        members.get("entrypoint_id"),
        Some(&Value::String("settings".to_string()))
    );
}

#[test]
fn the_wallpaper_selector_is_asked_for_by_its_entrypoint() {
    let request = open_wallpaper_selector(1_700_000_000_123);
    assert_eq!(
        request.request_id,
        "flowtilewm-launch-entrypoint-1700000000123"
    );
    assert_eq!(request.payload, entrypoint_payload());
}

#[test]
fn only_its_own_answer_counts() {
    assert_eq!(ensure_success(&request("a"), &answer("a", None)), Ok(()));
    assert_eq!(
        ensure_success(&request("a"), &answer("b", None)),
        Err("FlowShellCore request mismatch: expected 'a', got 'b'".to_string())
    );
    let mut other_protocol = answer("a", None);
    other_protocol.protocol_version = 2;
    assert_eq!(
        ensure_success(&request("a"), &other_protocol),
        Err("FlowShellCore protocol mismatch: expected 1, got 2".to_string())
    );
    let mut failed = answer("a", None);
    failed.ok = false;
    assert_eq!(
        ensure_success(&request("a"), &failed),
        Err("FlowShellCore launch_entrypoint failed: request failed".to_string())
    );
}

#[test]
fn only_a_false_acceptance_is_a_rejection() {
    let rejected = Err("FlowShellCore launch_entrypoint was rejected".to_string());
    for (accepted, expected) in [
        (Value::Bool(true), Ok(())),
        (Value::Bool(false), rejected),
        (Value::Null, Ok(())),
        (Value::String("false".to_string()), Ok(())),
        (Value::from(0), Ok(())),
    ] {
        assert_eq!(
            ensure_success(&request("a"), &answer("a", Some(accepted))),
            expected
        );
    }
    let mut no_object = answer("a", None);
    no_object.result = Some(Value::from(vec![false]));
    assert_eq!(ensure_success(&request("a"), &no_object), Ok(()));
    assert!(judge_response(&request("a"), &answer("a", None), Some(false)).is_err());
}

#[test]
fn a_blank_pipe_name_is_none() {
    assert_eq!(
        command_pipe_name(Some(" \t\u{3000}")),
        DEFAULT_COMMAND_PIPE_NAME
    );
    assert_eq!(command_pipe_name(Some("  my pipe\n")), "my pipe");
    assert_eq!(
        full_pipe_name("core-\u{1f5bc}"),
        "\\\\.\\pipe\\core-\u{1f5bc}\0"
            .encode_utf16()
            .collect::<Vec<u16>>()
    );
}

#[test]
fn a_busy_pipe_is_tried_again_until_the_deadline() {
    assert_eq!(ERROR_PIPE_BUSY, flowshell_core::ERROR_PIPE_BUSY);
    assert_eq!(ERROR_BROKEN_PIPE, flowshell_core::ERROR_BROKEN_PIPE);
    assert_eq!(ERROR_MORE_DATA, flowshell_core::ERROR_MORE_DATA);
    assert_eq!(pipe_retry(2, 0, 5000), PipeRetry::Fail);
    assert_eq!(
        pipe_retry(ERROR_PIPE_BUSY, 1000, 5000),
        PipeRetry::Wait { millis: 4000 }
    );
    assert_eq!(pipe_retry(ERROR_PIPE_BUSY, 5000, 5000), PipeRetry::TimedOut);
    assert_eq!(
        pipe_retry(ERROR_PIPE_BUSY, 0, u64::MAX),
        PipeRetry::Wait { millis: u32::MAX }
    );
    assert!(pipe_wait_timed_out(false, 5000, 5000));
    assert!(!pipe_wait_timed_out(true, 5000, 5000));
    assert!(!pipe_wait_timed_out(false, 4999, 5000));
}

#[test]
fn a_message_ends_with_its_last_chunk_or_its_sender() {
    assert_eq!(read_step(true, ERROR_MORE_DATA), ReadStep::Complete);
    assert_eq!(read_step(false, ERROR_MORE_DATA), ReadStep::More);
    assert_eq!(read_step(false, ERROR_BROKEN_PIPE), ReadStep::Closed);
    assert_eq!(read_step(false, 6), ReadStep::Fail);
}

#[test]
fn chunks_make_up_a_message() {
    let mut message = PipeMessage::new();
    assert_eq!(
        message.read_message(b"abcdef", 4, false, ERROR_MORE_DATA),
        ReadStep::More
    );
    assert_eq!(
        message.read_message(b"xyz", 2, false, 6),
        ReadStep::Fail
    );
    assert_eq!(
        message.read_message(b"xyz", 2, false, ERROR_BROKEN_PIPE),
        ReadStep::Closed
    );
    assert_eq!(
        message.read_message(b"xyz", 2, true, 0),
        ReadStep::Complete
    );
    assert_eq!(message.bytes, b"abcdxy");
}
