//! The code sandbox endpoint, which answers with a fixed placeholder run.

use vstd::prelude::*;

verus! {

/// Body of a code execution request.
#[derive(Debug, Clone, PartialEq, Eq)]
pub struct ExecuteCodeRequest {
    pub code: String,
}

/// Outcome of a code execution.
#[derive(Debug, Clone, PartialEq, Eq)]
pub struct ExecuteCodeResponse {
    pub stdout: String,
    pub stderr: String,
    pub exit_code: i32,
}

/// Runs code: the placeholder run prints `Hello, world!` and succeeds,
/// whatever the code.
pub fn execute_code(payload: ExecuteCodeRequest) -> (r: ExecuteCodeResponse)
    ensures
        r.stdout@ == "Hello, world!"@,
        r.stderr@ == ""@,
        r.exit_code == 0,
{
    ExecuteCodeResponse {
        stdout: String::from_str("Hello, world!"),
        stderr: String::from_str(""),
        exit_code: 0,
    }
}

} // verus!
