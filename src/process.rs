//! Checks on a command's executable before it is launched.

use vstd::prelude::*;
use vstd::string::*;
use crate::paths::{extension_of, is_absolute, path_extension, path_is_absolute};
use crate::text::{ends_with, ends_with_text};

verus! {

/// Why a command's executable cannot be launched.
#[derive(Debug)]
pub enum CreateProcessError {
    CommandNotExecutable(String),
    CommandDoesNotExist(String),
    CommandNotAbsolute(String),
}

impl CreateProcessError {
    /// A sentence that describes the error.
    pub fn message(&self) -> (r: String)
        ensures
            r@ == match self {
                CreateProcessError::CommandNotExecutable(c) => "The command \""@ + c@
                    + "\" is not executable"@,
                CreateProcessError::CommandDoesNotExist(c) => "The command \""@ + c@
                    + "\" does not exist"@,
                CreateProcessError::CommandNotAbsolute(c) => "The command \""@ + c@
                    + "\" does not have an absolute path"@,
            },
    {
        let (c, tail) = match self {
            CreateProcessError::CommandNotExecutable(c) => (c, "\" is not executable"),
            CreateProcessError::CommandDoesNotExist(c) => (c, "\" does not exist"),
            CreateProcessError::CommandNotAbsolute(c) => (c, "\" does not have an absolute path"),
        };
        let mut m = String::from_str("The command \"");
        m.append(c.as_str());
        m.append(tail);
        m
    }
}

/// Whether a path names an executable: its extension ends with `exe`.
pub open spec fn names_executable(path: Seq<char>) -> bool {
    match path_extension(path) {
        Some(e) => ends_with(e, "exe"@),
        None => false,
    }
}

/// The outcome of checking an executable: the first failed check, in the
/// order existence, `exe` extension, absolute path, names its error, which
/// carries the path.
pub open spec fn check_outcome(path: Seq<char>, exists: bool, r: Result<(), CreateProcessError>) -> bool {
    if !exists {
        r matches Err(CreateProcessError::CommandDoesNotExist(c)) && c@ == path
    } else if !names_executable(path) {
        r matches Err(CreateProcessError::CommandNotExecutable(c)) && c@ == path
    } else if !path_is_absolute(path) {
        r matches Err(CreateProcessError::CommandNotAbsolute(c)) && c@ == path
    } else {
        r is Ok
    }
}

/// Checks, in this order, that the executable exists (`exists`, as the
/// caller found it on disk), that its extension ends with `exe`, and that
/// its path is absolute.
pub fn check_command(path: &str, exists: bool) -> (r: Result<(), CreateProcessError>)
    ensures
        check_outcome(path@, exists, r),
{
    if !exists {
        return Err(CreateProcessError::CommandDoesNotExist(path.to_owned()));
    }
    let executable = match extension_of(path) {
        Some(e) => ends_with_text(e.as_str(), "exe"),
        None => false,
    };
    if !executable {
        return Err(CreateProcessError::CommandNotExecutable(path.to_owned()));
    }
    if !is_absolute(path) {
        return Err(CreateProcessError::CommandNotAbsolute(path.to_owned()));
    }
    Ok(())
}

} // verus!
