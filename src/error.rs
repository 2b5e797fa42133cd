//! What can go wrong while a line is carried out.
use vstd::prelude::*;
use vstd::string::to_string_from_display_ensures;

use crate::text::{upper_of, uppercase};

verus! {

#[verifier::external_type_specification]
#[verifier::external_body]
pub struct ExParseIntError(std::num::ParseIntError);

#[verifier::external_type_specification]
#[verifier::external_body]
pub struct ExIoError(std::io::Error);

/// An error of one command. None of them ends the interpreter: each is
/// reported as one line, and the next line is read.
#[derive(Debug)]
pub enum ShellError {
    /// The command is neither a builtin nor found on the search path, or it
    /// could not be started.
    CommandNotFound(String),
    /// A variable of the environment that the command needs is not set.
    EnvVarNotFound(String),
    /// `cd` could not change to this directory.
    FileOrDirNotFound(String),
    /// The argument of `exit` is no integer.
    InvalidExitCode(std::num::ParseIntError),
    /// Reading or writing a stream failed.
    IoError(std::io::Error),
    /// The command needs an argument and got none.
    NoArguments,
    /// A destination of a redirection could not be opened.
    RedirectionError(std::io::Error),
}

impl ShellError {
    /// The line that reports the error, without its line break.
    pub fn message(&self) -> (r: String)
        ensures
            match self {
                ShellError::CommandNotFound(cmd) => r@ == cmd@ + ": not found"@,
                ShellError::EnvVarNotFound(var) => r@ == "$"@ + upper_of(var@) + " not found"@,
                ShellError::FileOrDirNotFound(path) => r@ == "cd: "@ + path@
                    + ": No such file or directory"@,
                ShellError::InvalidExitCode(e) => exists|reason: String|
                    to_string_from_display_ensures::<std::num::ParseIntError>(e, reason) && r@
                        == "invalid exit code: "@ + reason@,
                ShellError::IoError(e) => to_string_from_display_ensures::<std::io::Error>(e, r),
                ShellError::NoArguments => r@ == "arguments are required"@,
                ShellError::RedirectionError(e) => to_string_from_display_ensures::<std::io::Error>(
                    e,
                    r,
                ),
            },
    {
        match self {
            ShellError::CommandNotFound(cmd) => cmd.clone().concat(": not found"),
            ShellError::EnvVarNotFound(var) => {
                let name = uppercase(var.as_str());
                String::from_str("$").concat(name.as_str()).concat(" not found")
            },
            ShellError::FileOrDirNotFound(path) => String::from_str("cd: ").concat(
                path.as_str(),
            ).concat(": No such file or directory"),
            ShellError::InvalidExitCode(error) => {
                let reason = error.to_string();
                String::from_str("invalid exit code: ").concat(reason.as_str())
            },
            ShellError::IoError(error) => error.to_string(),
            ShellError::NoArguments => String::from_str("arguments are required"),
            ShellError::RedirectionError(error) => error.to_string(),
        }
    }
}

/// A failed read or write of a stream.
impl From<std::io::Error> for ShellError {
    fn from(error: std::io::Error) -> (r: ShellError)
        ensures
            r == ShellError::IoError(error),
    {
        ShellError::IoError(error)
    }
}

impl vstd::std_specs::convert::FromSpecImpl<std::io::Error> for ShellError {
    open spec fn obeys_from_spec() -> bool {
        true
    }

    open spec fn from_spec(v: std::io::Error) -> ShellError {
        ShellError::IoError(v)
    }
}

} // verus!
