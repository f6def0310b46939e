//! What the bytes of a journal file decode to.
//!
//! A journal file is a JSON array of tasks. Turning JSON into tasks is left to
//! the caller; this module decides what an attempt at it amounts to. A file
//! without any token, such as one that was just created, is an empty journal
//! and no error.

use vstd::prelude::*;
use crate::error::JournalError;
use crate::tasks::Task;

verus! {

/// White space between the tokens of JSON: space, tab, line feed, carriage
/// return.
pub open spec fn is_space(byte: u8) -> bool {
    byte == 0x20 || byte == 0x09 || byte == 0x0a || byte == 0x0d
}

/// Whether the bytes hold no token at all.
pub open spec fn blank(bytes: Seq<u8>) -> bool {
    forall|i: int| 0 <= i < bytes.len() ==> is_space(#[trigger] bytes[i])
}

/// Whether the bytes hold no token at all.
pub fn is_blank(bytes: &[u8]) -> (none: bool)
    ensures
        none == blank(bytes@),
{
    let mut i: usize = 0;
    while i < bytes.len()
        invariant
            i <= bytes.len(),
            forall|j: int| 0 <= j < i ==> is_space(#[trigger] bytes@[j]),
        decreases bytes.len() - i,
    {
        let byte = bytes[i];
        if !(byte == 0x20 || byte == 0x09 || byte == 0x0a || byte == 0x0d) {
            return false;
        }
        i += 1;
    }
    true
}

/// The content of a journal file.
#[derive(Debug)]
pub enum Decoded {
    /// The file holds no token: a journal without tasks.
    Empty,
    /// The file holds these tasks.
    Tasks(Vec<Task>),
    /// The file holds something else.
    Malformed,
}

/// What a file amounts to, given its bytes and the tasks that were parsed
/// from them, if parsing succeeded.
pub fn classify(bytes: &[u8], parsed: Option<Vec<Task>>) -> (decoded: Decoded)
    ensures
        decoded == match parsed {
            Some(tasks) => Decoded::Tasks(tasks),
            None => if blank(bytes@) {
                Decoded::Empty
            } else {
                Decoded::Malformed
            },
        },
{
    match parsed {
        Some(tasks) => Decoded::Tasks(tasks),
        None => if is_blank(bytes) {
            Decoded::Empty
        } else {
            Decoded::Malformed
        },
    }
}

impl Decoded {
    /// The journal that a file holds, or the error that it is none.
    pub fn into_tasks(self) -> (journal: Result<Vec<Task>, JournalError>)
        ensures
            match self {
                Decoded::Empty => journal matches Ok(tasks) && tasks@.len() == 0,
                Decoded::Tasks(held) => journal == Ok::<Vec<Task>, JournalError>(held),
                Decoded::Malformed => journal == Err::<Vec<Task>, JournalError>(
                    JournalError::Malformed,
                ),
            },
    {
        match self {
            Decoded::Empty => Ok(Vec::new()),
            Decoded::Tasks(held) => Ok(held),
            Decoded::Malformed => Err(JournalError::Malformed),
        }
    }
}

} // verus!
