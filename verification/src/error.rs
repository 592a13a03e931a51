//! Error types.
//!
//! Every fallible operation of the library reports one of these kinds:
//! an environment-variable lookup that failed, an operating-system I/O
//! failure passed through from the shell that performed the call, a value
//! that could not be encoded or decoded, or a resolution request that no
//! candidate location satisfied.

use vstd::prelude::*;

verus! {

/// Error kinds reported by the library.
///
/// Each variant carries a human-readable message. Low-level failures are
/// wrapped, never swallowed: the shell that performs an operating-system
/// call converts the OS error into `Io` with the error's own text.
#[derive(Debug)]
pub enum Error {
    /// A required environment variable was absent or unreadable.
    EnvironmentLookup(String),
    /// An I/O operation (create, open, read, write, lock, unlock, remove)
    /// failed; the message carries the underlying OS error's text.
    Io(String),
    /// The file's content did not decode as the expected type, or a value
    /// could not be encoded.
    Serialization(String),
    /// No candidate location satisfied a resolution request.
    NotFound(String),
}

impl Error {
    /// True of the `EnvironmentLookup` kind.
    pub fn is_environment_lookup(&self) -> (r: bool)
        ensures
            r == (self is EnvironmentLookup),
    {
        match self {
            Error::EnvironmentLookup(_) => true,
            _ => false,
        }
    }

    /// True of the `Io` kind.
    pub fn is_io(&self) -> (r: bool)
        ensures
            r == (self is Io),
    {
        match self {
            Error::Io(_) => true,
            _ => false,
        }
    }

    /// True of the `Serialization` kind.
    pub fn is_serialization(&self) -> (r: bool)
        ensures
            r == (self is Serialization),
    {
        match self {
            Error::Serialization(_) => true,
            _ => false,
        }
    }

    /// True of the `NotFound` kind.
    pub fn is_not_found(&self) -> (r: bool)
        ensures
            r == (self is NotFound),
    {
        match self {
            Error::NotFound(_) => true,
            _ => false,
        }
    }

    /// The message carried by the error, whatever its kind.
    pub open spec fn spec_message(&self) -> Seq<char> {
        match self {
            Error::EnvironmentLookup(m) => m@,
            Error::Io(m) => m@,
            Error::Serialization(m) => m@,
            Error::NotFound(m) => m@,
        }
    }

    /// The message carried by the error.
    pub fn message(&self) -> (m: &String)
        ensures
            m@ == self.spec_message(),
    {
        match self {
            Error::EnvironmentLookup(m) => m,
            Error::Io(m) => m,
            Error::Serialization(m) => m,
            Error::NotFound(m) => m,
        }
    }
}

impl Clone for Error {
    fn clone(&self) -> (r: Self)
        ensures
            r == self,
    {
        match self {
            Error::EnvironmentLookup(m) => Error::EnvironmentLookup(m.clone()),
            Error::Io(m) => Error::Io(m.clone()),
            Error::Serialization(m) => Error::Serialization(m.clone()),
            Error::NotFound(m) => Error::NotFound(m.clone()),
        }
    }
}

} // verus!
