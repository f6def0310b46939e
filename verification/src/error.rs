//! What can go wrong with a command.

use vstd::prelude::*;

verus! {

/// Why a command did nothing.
#[derive(Debug, Clone, Copy, PartialEq, Eq, Structural)]
pub enum JournalError {
    /// No journal file was named and no home directory is known.
    NoJournalFile,
    /// The journal file holds something other than a list of tasks.
    Malformed,
    /// The position is zero or beyond the last task that is not completed.
    InvalidPosition,
}

impl JournalError {
    /// One line for the user.
    pub fn message(&self) -> (text: &'static str)
        ensures
            text@ == match *self {
                JournalError::NoJournalFile => "Failed to find journal file"@,
                JournalError::Malformed => "invalid journal file"@,
                JournalError::InvalidPosition => "invalid task position"@,
            },
    {
        match self {
            JournalError::NoJournalFile => "Failed to find journal file",
            JournalError::Malformed => "invalid journal file",
            JournalError::InvalidPosition => "invalid task position",
        }
    }
}

} // verus!
