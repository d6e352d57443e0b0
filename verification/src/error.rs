//! What can go wrong.

use vstd::prelude::*;
use vstd::string::*;

verus! {

/// Why an operation of the tracker did not go through.
#[derive(Clone, Copy, Debug, PartialEq, Eq, Structural)]
pub enum TaskError {
    /// A required input is empty, or names a project that does not exist.
    Validation,
    /// A record cannot be written so that it reads back, or what is stored is
    /// no well-formed record.
    Io,
    /// The reporting window asked for is not offered.
    Unsupported,
}

impl TaskError {
    /// A sentence for the user.
    pub fn message(&self) -> (text: String)
        ensures
            text@ == (match *self {
                TaskError::Validation => "a required value is missing or not accepted"@,
                TaskError::Io => "the stored data could not be read or written"@,
                TaskError::Unsupported => "this reporting window is not supported"@,
            }),
    {
        match self {
            TaskError::Validation => String::from_str("a required value is missing or not accepted"),
            TaskError::Io => String::from_str("the stored data could not be read or written"),
            TaskError::Unsupported => String::from_str("this reporting window is not supported"),
        }
    }
}

} // verus!
