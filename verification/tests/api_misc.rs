use repo_lens::api::bounds::BoundsError;
use repo_lens::api::error::{Error, ErrorCode};
use repo_lens::api::version::ApiVersion;
use repo_lens::engine::telemetry::new_request_id;
use repo_lens::ipc::{client_unavailable, malformed_line, TransportConfig};

#[test]
fn error_codes_have_their_wire_names() {
    let names = [
        (ErrorCode::InvalidRequest, "invalid_request"),
        (ErrorCode::RepoNotFound, "repo_not_found"),
        (ErrorCode::GitBackendError, "git_backend_error"),
        (ErrorCode::Conflict, "conflict"),
        (ErrorCode::AuthRequired, "auth_required"),
        (ErrorCode::OperationCanceled, "operation_canceled"),
        (ErrorCode::Timeout, "timeout"),
        (ErrorCode::Internal, "internal"),
    ];
    for (code, name) in names {
        assert_eq!(code.as_str(), name);
    }
}

#[test]
fn errors_are_built_step_by_step() {
    let e = Error::new(ErrorCode::Conflict, "merge conflict".to_string());
    assert_eq!(e.code, ErrorCode::Conflict);
    assert_eq!(e.message, "merge conflict");
    assert!(e.remediation.is_none());
    assert!(e.details.is_none());
    let e = e.with_remediation("resolve the conflicts".to_string());
    assert_eq!(e.remediation.as_deref(), Some("resolve the conflicts"));
    assert_eq!(e.message, "merge conflict");
    let paths = serde_json::Value::Array(vec![
        serde_json::Value::String("a.txt".to_string()),
        serde_json::Value::String("b.txt".to_string()),
    ]);
    let e = e.with_details(paths.clone());
    assert_eq!(e.details, Some(paths));
    assert_eq!(e.code, ErrorCode::Conflict);
    assert_eq!(e.remediation.as_deref(), Some("resolve the conflicts"));
    assert_eq!(e.describe(), "conflict: merge conflict");
}

#[test]
fn error_with_message_and_rendering() {
    let e = Error::with_message(ErrorCode::AuthRequired, "credentials needed");
    assert_eq!(e.code, ErrorCode::AuthRequired);
    assert_eq!(e.describe(), "auth_required: credentials needed");
    assert_eq!(Error::with_message(ErrorCode::Internal, "").describe(), "internal: ");
}

#[test]
fn rejected_bounds_are_invalid_requests() {
    let e = Error::out_of_bounds(BoundsError::TooSmall);
    assert_eq!(e.code, ErrorCode::InvalidRequest);
    assert_eq!(e.message, "value too small");
    let e = Error::out_of_bounds(BoundsError::TooLarge);
    assert_eq!(e.code, ErrorCode::InvalidRequest);
    assert_eq!(e.message, "value too large");
}

#[test]
fn api_version_is_v0() {
    assert_eq!(ApiVersion::default(), ApiVersion::V0);
    assert_eq!(ApiVersion::V0.as_str(), "v0");
}

#[test]
fn request_ids_carry_time_and_count() {
    assert_eq!(new_request_id(0, 0), "req_0_0");
    assert_eq!(new_request_id(1700000000123, 42), "req_1700000000123_42");
    assert_eq!(new_request_id(10, 9), "req_10_9");
    assert_eq!(new_request_id(u128::MAX, u64::MAX), format!("req_{}_{}", u128::MAX, u64::MAX));
    assert_ne!(new_request_id(5, 1), new_request_id(5, 2));
}

#[test]
fn transport_defaults() {
    let config = TransportConfig::default();
    assert_eq!(config.buffer_size, 8192);
    assert_eq!(config.timeout_ms, 30000);
}

#[test]
fn malformed_lines_get_an_invalid_request_response() {
    let response = malformed_line("expected value at line 1 column 1");
    assert_eq!(response.id, "unknown");
    let e = response.result.unwrap_err();
    assert_eq!(e.code, ErrorCode::InvalidRequest);
    assert_eq!(e.message, "Failed to parse request: expected value at line 1 column 1");
}

#[test]
fn client_without_transport() {
    let e = client_unavailable();
    assert_eq!(e.code, ErrorCode::Internal);
    assert_eq!(e.message, "IPC client not implemented");
}
