use crate::text::concat;
use vstd::prelude::*;

verus! {

/// Why a script could not be run.
#[derive(Debug, PartialEq, Eq)]
pub enum ExecuteError {
    /// No executor could be reached.
    ConnectionError(String),
    /// The executor refused or failed the script.
    ExecutionError(String),
}

impl ExecuteError {
    /// The message shown to the user.
    pub fn message(&self) -> (r: String)
        ensures
            r@ == (match self {
                ExecuteError::ConnectionError(e) => "Failed to connect to server: "@ + e@,
                ExecuteError::ExecutionError(e) => "Failed to execute script: "@ + e@,
            }),
    {
        match self {
            ExecuteError::ConnectionError(e) => concat("Failed to connect to server: ", e.as_str()),
            ExecuteError::ExecutionError(e) => concat("Failed to execute script: ", e.as_str()),
        }
    }
}

} // verus!
