//! Error values reported by archive operations.

use vstd::prelude::*;

verus! {

/// Errors that can occur during archive operations.
#[derive(Debug, Clone, PartialEq, Eq)]
pub enum Error {
    /// The archive format is not recognized or is corrupted.
    InvalidFormat(String),
    /// An I/O error occurred.
    Io(String),
    /// The requested item index is out of bounds.
    IndexOutOfBounds { index: usize, count: usize },
    /// A required feature is not supported.
    NotSupported(String),
    /// Generic error with a message.
    Other(String),
}

impl Error {
    /// The text of this error's description.
    pub open spec fn spec_message(self) -> Seq<char> {
        match self {
            Error::InvalidFormat(msg) => "invalid format: "@ + msg@,
            Error::Io(msg) => "i/o error: "@ + msg@,
            Error::IndexOutOfBounds { .. } => "index out of bounds"@,
            Error::NotSupported(msg) => "not supported: "@ + msg@,
            Error::Other(msg) => msg@,
        }
    }

    /// Describe this error in one line.
    pub fn message(&self) -> (r: String)
        ensures
            r@ == self.spec_message(),
    {
        match self {
            Error::InvalidFormat(msg) => {
                let mut s = String::from_str("invalid format: ");
                s.append(msg.as_str());
                s
            },
            Error::Io(msg) => {
                let mut s = String::from_str("i/o error: ");
                s.append(msg.as_str());
                s
            },
            Error::IndexOutOfBounds { .. } => String::from_str("index out of bounds"),
            Error::NotSupported(msg) => {
                let mut s = String::from_str("not supported: ");
                s.append(msg.as_str());
                s
            },
            Error::Other(msg) => msg.clone(),
        }
    }
}

impl From<String> for Error {
    fn from(msg: String) -> (r: Self) {
        Error::Other(msg)
    }
}

impl vstd::std_specs::convert::FromSpecImpl<String> for Error {
    open spec fn obeys_from_spec() -> bool {
        true
    }

    open spec fn from_spec(msg: String) -> Self {
        Error::Other(msg)
    }
}

} // verus!
