use vstd::prelude::*;

use crate::utils::output::Output;

verus! {

/// The number that identifies a request, and the job that serves it.
pub type RequestId = u32;

/// The answer to a request whose work goes on in the background.
pub struct RequestIdResponse {
    pub request_id: RequestId,
}

/// How the work of a request ended.
pub enum RequestIdResult {
    Success { body: Option<String> },
    Error { error: String },
}

impl RequestIdResult {
    /// A copy of this result.
    pub fn copy(&self) -> (r: RequestIdResult)
        ensures
            r == *self,
    {
        match self {
            RequestIdResult::Success { body } => RequestIdResult::Success {
                body: match body {
                    Some(b) => Some(b.clone()),
                    None => None,
                },
            },
            RequestIdResult::Error { error } => RequestIdResult::Error { error: error.clone() },
        }
    }
}

/// The state of a request: the steps recorded so far, and how it ended if it
/// has.
pub struct RequestInfo {
    pub commands: Vec<String>,
    pub result: Option<RequestIdResult>,
}

/// One recorded step of a request.
pub struct CommandInfo {
    pub command: String,
    pub stdout: Output,
    pub stderr: Output,
    pub result: Option<String>,
}

} // verus!
