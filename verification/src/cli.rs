//! The commands of the journal, and how one is carried out.

use std::path::PathBuf;
use vstd::prelude::*;
use crate::error::JournalError;
use crate::outside::{home_dir, joined, path_bytes, push_name};
use crate::time::representable;
use crate::tasks::{
    add_task, complete_task, completed, edit_task, edited, is_listing, list_completed_tasks,
    list_tasks, valid_position, Task, TaskView,
};

verus! {

/// One command.
#[derive(Debug)]
pub enum Action {
    /// Write a task to the journal.
    Add { text: String },
    /// Complete the task at a position.
    Done { position: usize },
    /// List the tasks that are not completed.
    List,
    /// Replace the text of the task at a position.
    Edit { position: usize, text: String },
    /// List the completed tasks.
    ListCompleted,
}

/// A command and the journal file it is meant for.
#[derive(Debug)]
pub struct CommandLineArgs {
    pub action: Action,
    /// The journal file to use in place of the one in the home directory.
    pub journal_file: Option<PathBuf>,
}

/// The journal file of a home directory: the directory extended by the name
/// `.rusty-journal.json`. Without a home directory there is none.
pub fn default_journal_file_in(home: Option<PathBuf>) -> (file: Option<PathBuf>)
    ensures
        match home {
            Some(directory) => file matches Some(path) && path_bytes(path) == joined(
                path_bytes(directory),
                ".rusty-journal.json"@,
            ),
            None => file is None,
        },
{
    match home {
        Some(mut path) => {
            push_name(&mut path, ".rusty-journal.json");
            Some(path)
        },
        None => None,
    }
}

/// The journal file in the user's home directory, if the home directory is
/// known. Which directory that is depends on the environment.
fn find_default_journal_file() -> (file: Option<PathBuf>)
    ensures
        file matches Some(path) ==> is_default_journal_file(path),
{
    default_journal_file_in(home_dir())
}

/// Whether a file is the journal file of some directory: that directory,
/// extended by the name `.rusty-journal.json`.
pub open spec fn is_default_journal_file(file: PathBuf) -> bool {
    exists|directory: Seq<u8>|
        path_bytes(file) == #[trigger] joined(directory, ".rusty-journal.json"@)
}

/// The journal file to use: the one that was named, else the default one.
pub fn journal_file_or(named: Option<PathBuf>, default_file: Option<PathBuf>) -> (file: Result<
    PathBuf,
    JournalError,
>)
    ensures
        file == match (named, default_file) {
            (Some(path), _) => Ok::<PathBuf, JournalError>(path),
            (None, Some(path)) => Ok::<PathBuf, JournalError>(path),
            (None, None) => Err::<PathBuf, JournalError>(JournalError::NoJournalFile),
        },
{
    match named {
        Some(path) => Ok(path),
        None => match default_file {
            Some(path) => Ok(path),
            None => Err(JournalError::NoJournalFile),
        },
    }
}

/// The journal file to use: the one that was named, else the one in the
/// user's home directory. The home directory is looked up only if no file was
/// named.
pub fn resolve_journal_file(named: Option<PathBuf>) -> (file: Result<PathBuf, JournalError>)
    ensures
        named matches Some(path) ==> file == Ok::<PathBuf, JournalError>(path),
        named is None ==> match file {
            Ok(path) => is_default_journal_file(path),
            Err(e) => e == JournalError::NoJournalFile,
        },
{
    match named {
        Some(path) => Ok(path),
        None => journal_file_or(None, find_default_journal_file()),
    }
}

impl Action {
    /// Whether the command changes the journal, so that the file is written
    /// anew if the command succeeds.
    pub fn rewrites(&self) -> (changes: bool)
        ensures
            changes == (*self is Add || *self is Done || *self is Edit),
    {
        match self {
            Action::Add { .. } | Action::Done { .. } | Action::Edit { .. } => true,
            Action::List | Action::ListCompleted => false,
        }
    }

    /// Whether the command may start a journal where there is no file yet.
    pub fn creates(&self) -> (may: bool)
        ensures
            may == (*self is Add),
    {
        match self {
            Action::Add { .. } => true,
            _ => false,
        }
    }
}

/// What a command did to a journal and what it printed.
pub open spec fn carried_out(
    action: Action,
    before: Seq<TaskView>,
    after: Seq<TaskView>,
    output: Result<Seq<Seq<char>>, JournalError>,
) -> bool {
    match action {
        Action::Add { text } => {
            &&& output == Ok::<Seq<Seq<char>>, JournalError>(Seq::empty())
            &&& exists|now: int|
                representable(now) && after == before.push(
                    TaskView { text: text@, create_at: now, completed_at: None },
                )
        },
        Action::Done { position } => if valid_position(before, position as int) {
            &&& output == Ok::<Seq<Seq<char>>, JournalError>(Seq::empty())
            &&& exists|now: int|
                representable(now) && after == completed(before, position as int, now)
        } else {
            &&& output == Err::<Seq<Seq<char>>, JournalError>(JournalError::InvalidPosition)
            &&& after == before
        },
        Action::Edit { position, text } => if valid_position(before, position as int) {
            &&& output == Ok::<Seq<Seq<char>>, JournalError>(Seq::empty())
            &&& after == edited(before, position as int, text@)
        } else {
            &&& output == Err::<Seq<Seq<char>>, JournalError>(JournalError::InvalidPosition)
            &&& after == before
        },
        Action::List => {
            &&& output matches Ok(lines)
            &&& is_listing(lines, before, false)
            &&& after == before
        },
        Action::ListCompleted => {
            &&& output matches Ok(lines)
            &&& is_listing(lines, before, true)
            &&& after == before
        },
    }
}

/// Carries out one command on a journal. The lines are what the command
/// prints.
pub fn run(action: Action, tasks: &mut Vec<Task>) -> (output: Result<Vec<String>, JournalError>)
    ensures
        carried_out(
            action,
            old(tasks).deep_view(),
            final(tasks).deep_view(),
            match output {
                Ok(lines) => Ok(lines.deep_view()),
                Err(e) => Err(e),
            },
        ),
{
    match action {
        Action::Add { text } => {
            let task = Task::new(text);
            add_task(tasks, task);
            let lines: Vec<String> = Vec::new();
            assert(lines.deep_view() =~= Seq::empty());
            Ok(lines)
        },
        Action::Done { position } => match complete_task(tasks, position) {
            Ok(()) => {
                let lines: Vec<String> = Vec::new();
                assert(lines.deep_view() =~= Seq::empty());
                Ok(lines)
            },
            Err(e) => Err(e),
        },
        Action::Edit { position, text } => match edit_task(tasks, position, text) {
            Ok(()) => {
                let lines: Vec<String> = Vec::new();
                assert(lines.deep_view() =~= Seq::empty());
                Ok(lines)
            },
            Err(e) => Err(e),
        },
        Action::List => Ok(list_tasks(tasks)),
        Action::ListCompleted => Ok(list_completed_tasks(tasks)),
    }
}

} // verus!
