//! The error taxonomy of the client: argument errors abort before any
//! I/O, file-read errors abort before the network is touched.
use vstd::prelude::*;
use vstd::string::StringExecFns;

verus! {

/// A fatal error of one invocation.
#[derive(Clone, Copy, Debug, PartialEq, Eq, Structural)]
pub enum ClientError {
    /// A `-H` token had no `=`: headers must be written `key=value`.
    ArgumentError,
    /// The file named by `-f` could not be read.
    FileReadError,
}

impl ClientError {
    /// The diagnostic text for this error.
    pub fn message(&self) -> (r: String)
        ensures
            *self is ArgumentError ==> r@ == "header must have the form key=value"@,
            *self is FileReadError ==> r@ == "could not read the file"@,
    {
        match self {
            ClientError::ArgumentError => String::from_str("header must have the form key=value"),
            ClientError::FileReadError => String::from_str("could not read the file"),
        }
    }
}

} // verus!
