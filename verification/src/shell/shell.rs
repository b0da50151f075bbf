//! Errors around running a shell command, and the runner interface.

use vstd::prelude::*;
use vstd::string::StringExecFns;

verus! {

/// A failure while running a shell command.
#[derive(Debug, Clone, PartialEq, Eq)]
pub enum ShellError {
    /// The command's output was not readable text.
    ParseError(String),
    /// The command could not be started.
    ExecError(String),
    /// The command ran and reported failure.
    CommandError(String),
}

/// The human-readable message of each failure.
pub open spec fn shell_error_message(e: ShellError) -> Seq<char> {
    match e {
        ShellError::ParseError(msg) => "Error parsing shell output: "@ + msg@,
        ShellError::ExecError(msg) => "Error executing shell command: "@ + msg@,
        ShellError::CommandError(msg) => "Error executing shell command: "@ + msg@,
    }
}

impl ShellError {
    /// Renders the human-readable message for this failure.
    pub fn message(&self) -> (r: String)
        ensures
            r@ == shell_error_message(*self),
    {
        match self {
            ShellError::ParseError(msg) => {
                let mut out = String::from_str("Error parsing shell output: ");
                out.append(msg.as_str());
                out
            },
            ShellError::ExecError(msg) => {
                let mut out = String::from_str("Error executing shell command: ");
                out.append(msg.as_str());
                out
            },
            ShellError::CommandError(msg) => {
                let mut out = String::from_str("Error executing shell command: ");
                out.append(msg.as_str());
                out
            },
        }
    }
}

/// Runs a shell command; a host implements this over its process
/// facilities.
pub trait Shell {
    /// Runs the command and returns what it printed, or the failure.
    fn run(command: &str) -> Result<String, ShellError>;
}

} // verus!
