//! The error of a run and what it says.

use vstd::prelude::*;
use vstd::std_specs::convert::FromSpecImpl;

verus! {

/// `std::io::Error`: the cause of a failed spawn, carried through as it is.
#[verifier::external_type_specification]
#[verifier::external_body]
pub struct ExIoError(std::io::Error);

/// `serde_json::Error`: the parser's complaint about a text that is no JSON
/// document, carried through as it is.
#[verifier::external_type_specification]
#[verifier::external_body]
pub struct ExJsonError(serde_json::Error);

/// Every failure of a run. Each one is fatal: nothing is retried and nothing
/// is downgraded to a warning.
#[derive(Debug)]
pub enum ProcessError {
    /// An external command exited with a non-zero status; `error_msg` is the
    /// text it wrote to standard error.
    ScriptingError { error_msg: String, exit_code: u16 },
    /// A process could not be spawned, or a file could not be read or written.
    Io(std::io::Error),
    /// The extension manifest is not a JSON document.
    Json(serde_json::Error),
    /// The extension manifest is JSON, but lacks the list it must hold.
    Configuration { message: String },
    /// A tool probe failed, or an identity string broke the username policy.
    Validation { message: String },
    /// A command ran past the time limit it was configured with.
    Timeout { program: String },
}

/// What a [`ProcessError`] says, with its texts as character sequences.
pub enum Failure {
    Scripting { message: Seq<char>, exit_code: u16 },
    Io(std::io::Error),
    Json(serde_json::Error),
    Configuration { message: Seq<char> },
    Validation { message: Seq<char> },
    Timeout { program: Seq<char> },
}

impl View for ProcessError {
    type V = Failure;

    open spec fn view(&self) -> Failure {
        match self {
            ProcessError::ScriptingError { error_msg, exit_code } => Failure::Scripting {
                message: error_msg@,
                exit_code: *exit_code,
            },
            ProcessError::Io(e) => Failure::Io(*e),
            ProcessError::Json(e) => Failure::Json(*e),
            ProcessError::Configuration { message } => Failure::Configuration {
                message: message@,
            },
            ProcessError::Validation { message } => Failure::Validation { message: message@ },
            ProcessError::Timeout { program } => Failure::Timeout { program: program@ },
        }
    }
}

impl From<std::io::Error> for ProcessError {
    fn from(e: std::io::Error) -> (r: ProcessError) {
        ProcessError::Io(e)
    }
}

impl FromSpecImpl<std::io::Error> for ProcessError {
    open spec fn obeys_from_spec() -> bool {
        true
    }

    open spec fn from_spec(e: std::io::Error) -> ProcessError {
        ProcessError::Io(e)
    }
}

impl From<serde_json::Error> for ProcessError {
    fn from(e: serde_json::Error) -> (r: ProcessError) {
        ProcessError::Json(e)
    }
}

impl FromSpecImpl<serde_json::Error> for ProcessError {
    open spec fn obeys_from_spec() -> bool {
        true
    }

    open spec fn from_spec(e: serde_json::Error) -> ProcessError {
        ProcessError::Json(e)
    }
}

} // verus!
