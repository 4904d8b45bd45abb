//! What the line-delimited transport needs from the engine: its
//! configuration and the answers that do not come from a handler.

use crate::api::error::{Error, ErrorCode};
use crate::api::response::Response;
use vstd::prelude::*;
use vstd::string::StringExecFns;

verus! {

/// Transport configuration.
#[derive(Debug, Clone, Copy)]
pub struct TransportConfig {
    /// Buffer size for reading
    pub buffer_size: usize,
    /// Timeout for operations
    pub timeout_ms: u64,
}

impl Default for TransportConfig {
    fn default() -> (c: TransportConfig)
        ensures
            c.buffer_size == 8192,
            c.timeout_ms == 30000,
    {
        TransportConfig { buffer_size: 8192, timeout_ms: 30000 }
    }
}

/// The response to an input line that is no request: an `invalid_request`
/// error under the id `unknown`, so that the stream goes on.
pub fn malformed_line(detail: &str) -> (response: Response)
    ensures
        response.id@ == "unknown"@,
        response.result matches Err(e) && e.code == ErrorCode::InvalidRequest && e.message@
            == "Failed to parse request: "@ + detail@ && e.remediation is None && e.details is None,
{
    let mut message = String::from_str("Failed to parse request: ");
    message.append(detail);
    Response {
        id: String::from_str("unknown"),
        result: Err(Error::new(ErrorCode::InvalidRequest, message)),
    }
}

/// What a client without a transport answers to every request.
pub fn client_unavailable() -> (e: Error)
    ensures
        e.code == ErrorCode::Internal,
        e.message@ == "IPC client not implemented"@,
        e.remediation is None,
        e.details is None,
{
    Error::with_message(ErrorCode::Internal, "IPC client not implemented")
}

} // verus!
