//! Where the bytes go: a file that is created afresh and never overwritten.
//!
//! Creating the file is left to the caller, who must use a primitive that
//! creates the file and fails if anything is at the path already, in one
//! step. This module names the default path and sorts the ways in which
//! creating can fail.

use vstd::prelude::*;
use vstd::string::StringExecFns;

verus! {

/// Why a file could not be created, as the operating system reports it.
#[derive(Clone, Copy, Debug, PartialEq, Eq, Structural)]
pub enum CreateFault {
    /// Something is at the path already: a file, a directory, a link.
    Exists,
    /// The caller has no right to create a file there.
    Denied,
    /// A directory on the way to the file is missing.
    NotFound,
    /// Something on the way to the file is not a directory.
    NotADirectory,
    /// A name in the path is not one that the file system can hold.
    InvalidName,
    /// The path is no path at all, such as one with a NUL in it.
    InvalidInput,
    /// Anything else.
    Other,
}

/// Why there is no sink to write to.
#[derive(Clone, Copy, Debug, PartialEq, Eq, Structural)]
pub enum SinkError {
    /// The path is taken. Nothing was changed.
    AlreadyExists,
    /// The caller may not create a file at the path.
    PermissionDenied,
    /// The path cannot be resolved.
    PathInvalid,
    /// Another failure of the file system.
    IoOther,
}

/// The error that a fault of creating stands for.
pub open spec fn classify_spec(fault: CreateFault) -> SinkError {
    match fault {
        CreateFault::Exists => SinkError::AlreadyExists,
        CreateFault::Denied => SinkError::PermissionDenied,
        CreateFault::NotFound => SinkError::PathInvalid,
        CreateFault::NotADirectory => SinkError::PathInvalid,
        CreateFault::InvalidName => SinkError::PathInvalid,
        CreateFault::InvalidInput => SinkError::PathInvalid,
        CreateFault::Other => SinkError::IoOther,
    }
}

/// The error that a fault of creating stands for.
pub fn classify(fault: CreateFault) -> (e: SinkError)
    ensures
        e == classify_spec(fault),
{
    match fault {
        CreateFault::Exists => SinkError::AlreadyExists,
        CreateFault::Denied => SinkError::PermissionDenied,
        CreateFault::NotFound
        | CreateFault::NotADirectory
        | CreateFault::InvalidName
        | CreateFault::InvalidInput => SinkError::PathInvalid,
        CreateFault::Other => SinkError::IoOther,
    }
}

/// The path that is written to where none is given: `rand.key`, in the
/// current directory.
pub open spec fn default_path_spec() -> Seq<char> {
    seq!['r', 'a', 'n', 'd', '.', 'k', 'e', 'y']
}

/// The path to write to: the one given, or the default.
pub open spec fn target_spec(given: Option<Seq<char>>) -> Seq<char> {
    match given {
        Some(path) => path,
        None => default_path_spec(),
    }
}

/// The path that is written to where none is given.
pub fn default_path() -> (path: String)
    ensures
        path@ == default_path_spec(),
{
    proof {
        reveal_strlit("rand.key");
        assert("rand.key"@ =~= default_path_spec());
    }
    String::from_str("rand.key")
}

/// The path to write to: the one given, or the default.
pub fn target(given: Option<&str>) -> (path: String)
    ensures
        path@ == target_spec(
            match given {
                Some(p) => Some(p@),
                None => None,
            },
        ),
{
    match given {
        Some(p) => String::from_str(p),
        None => default_path(),
    }
}

} // verus!
