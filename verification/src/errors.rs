//! Failure taxonomy of the pipeline. Every stage failure is fatal for the
//! invocation that hit it; the caller renders the message and exits.

use vstd::prelude::*;
use vstd::string::StringExecFns;

verus! {

/// What can go wrong: a missing project, artifact or configuration key; an
/// external command that could not be spawned or exited non-zero; a
/// filesystem or network fault; or malformed persisted JSON.
pub enum CiError {
    NotFound { what: String },
    ProcessFailure { command: String, detail: String },
    IoFailure { detail: String },
    ParseFailure { detail: String },
}

/// Human-readable rendering of an error.
pub open spec fn error_message_spec(e: CiError) -> Seq<char> {
    match e {
        CiError::NotFound { what } => "not found: "@ + what@,
        CiError::ProcessFailure { command, detail } => "command failed: "@ + command@ + " "@
            + detail@,
        CiError::IoFailure { detail } => "io failure: "@ + detail@,
        CiError::ParseFailure { detail } => "parse failure: "@ + detail@,
    }
}

impl CiError {
    pub fn message(&self) -> (r: String)
        ensures
            r@ == error_message_spec(*self),
    {
        match self {
            CiError::NotFound { what } => {
                let mut s = String::from_str("not found: ");
                s.append(what.as_str());
                s
            },
            CiError::ProcessFailure { command, detail } => {
                let mut s = String::from_str("command failed: ");
                s.append(command.as_str());
                s.append(" ");
                s.append(detail.as_str());
                s
            },
            CiError::IoFailure { detail } => {
                let mut s = String::from_str("io failure: ");
                s.append(detail.as_str());
                s
            },
            CiError::ParseFailure { detail } => {
                let mut s = String::from_str("parse failure: ");
                s.append(detail.as_str());
                s
            },
        }
    }
}

} // verus!
