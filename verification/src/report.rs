//! The process-boundary contract of one run: on success only the token
//! text goes to standard output and the exit code is zero; on any failure
//! nothing goes to standard output and the exit code is one.

use vstd::prelude::*;

use crate::errors::CiError;

verus! {

/// What one finished run asks the process boundary to do.
pub struct RunReport {
    /// The process exit code: 0 on success, 1 on any failure.
    pub exit_code: u8,
    /// The token, to be printed to standard output alone and unframed;
    /// `None` on failure, so no token is ever printed then.
    pub stdout_line: Option<String>,
    /// The error to diagnose on standard error; `None` on success.
    pub error: Option<CiError>,
}

/// Turns the outcome of the token exchange into the report the process
/// boundary acts on.
pub fn finish(outcome: Result<String, CiError>) -> (r: RunReport)
    ensures
        outcome matches Ok(token) ==> {
            &&& r.exit_code == 0
            &&& r.stdout_line == Some(token)
            &&& r.error is None
        },
        outcome matches Err(e) ==> {
            &&& r.exit_code == 1
            &&& r.stdout_line is None
            &&& r.error == Some(e)
        },
{
    match outcome {
        Ok(token) => RunReport { exit_code: 0, stdout_line: Some(token), error: None },
        Err(e) => RunReport { exit_code: 1, stdout_line: None, error: Some(e) },
    }
}

} // verus!
