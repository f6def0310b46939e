//! A task journal: an ordered list of short text tasks that can be added,
//! completed, edited and listed by position.
//!
//! The journal lives in a file, but nothing here opens one. A caller reads
//! the file, hands over the tasks it holds, and writes back what a command
//! leaves:
//!
//! - [`tasks`] holds the tasks and what the commands do to them;
//! - [`cli`] names the commands and carries one out;
//! - [`store`] decides what the bytes of a journal file amount to;
//! - [`render`] says how a task reads on a line of a listing;
//! - [`time`] holds the instants at which tasks are created and completed;
//! - [`laws`] states what holds of every journal;
//! - [`outside`] gathers the calls into other crates, which are believed and
//!   not proved.

pub mod cli;
pub mod error;
pub mod laws;
pub mod outside;
pub mod render;
pub mod store;
pub mod tasks;
pub mod time;
