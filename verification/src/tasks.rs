//! Tasks, and the journal that holds them in order.
//!
//! A journal is a `Vec<Task>`; its model is the sequence of the tasks' views.
//! A task has no identity of its own: commands name it by its position among
//! the tasks that are not completed, counted from one.

use vstd::prelude::*;
use vstd::string::StringExecFns;
use crate::error::JournalError;
use crate::outside::{clock_text, display_width, text_width};
use crate::render::{format_task, numbered, numbered_line, task_text};
use crate::time::{is_time_text, representable, valid_offset, Timestamp};

verus! {

/// One entry of the journal.
#[derive(Debug)]
pub struct Task {
    /// What is to be done.
    pub text: String,
    /// When the task was written down.
    pub create_at: Timestamp,
    /// When the task was completed; `None` while it is open.
    pub completed_at: Option<Timestamp>,
}

/// What a task is: its text, the second it was created, and the second it
/// was completed, if it was.
pub struct TaskView {
    pub text: Seq<char>,
    pub create_at: int,
    pub completed_at: Option<int>,
}

impl View for Task {
    type V = TaskView;

    open spec fn view(&self) -> TaskView {
        TaskView {
            text: self.text@,
            create_at: self.create_at@,
            completed_at: match self.completed_at {
                Some(at) => Some(at@),
                None => None,
            },
        }
    }
}

impl DeepView for Task {
    type V = TaskView;

    open spec fn deep_view(&self) -> TaskView {
        self@
    }
}

/// Whether a task is completed (`done`) or still open (`!done`).
pub open spec fn in_state(task: TaskView, done: bool) -> bool {
    (task.completed_at is Some) == done
}

/// The indices of the tasks in one state, in the order of the journal. It is
/// built from the end of the journal; `lemma_selected_sound` and
/// `lemma_selected_complete` say what it amounts to: exactly the indices of
/// the tasks in that state, each once, in rising order.
pub open spec fn selected(tasks: Seq<TaskView>, done: bool) -> Seq<int>
    decreases tasks.len(),
{
    if tasks.len() == 0 {
        Seq::empty()
    } else if in_state(tasks.last(), done) {
        selected(tasks.drop_last(), done).push(tasks.len() - 1)
    } else {
        selected(tasks.drop_last(), done)
    }
}

/// A position names a task when it lies between one and the number of tasks
/// that are not completed.
pub open spec fn valid_position(tasks: Seq<TaskView>, position: int) -> bool {
    1 <= position <= selected(tasks, false).len()
}

/// The index in the journal of the task at a position.
pub open spec fn target(tasks: Seq<TaskView>, position: int) -> int
    recommends
        valid_position(tasks, position),
{
    selected(tasks, false)[position - 1]
}

/// The journal after the task at a position was completed at `now`.
pub open spec fn completed(tasks: Seq<TaskView>, position: int, now: int) -> Seq<TaskView>
    recommends
        valid_position(tasks, position),
{
    let index = target(tasks, position);
    tasks.update(index, TaskView { completed_at: Some(now), ..tasks[index] })
}

/// The journal after the task at a position got a new text.
pub open spec fn edited(tasks: Seq<TaskView>, position: int, text: Seq<char>) -> Seq<TaskView>
    recommends
        valid_position(tasks, position),
{
    let index = target(tasks, position);
    tasks.update(index, TaskView { text, ..tasks[index] })
}

/// How far ahead of UTC, in seconds, the clocks stand that the two times of
/// a task are read from. The second counts for a completed task only.
pub struct Offsets {
    pub created: int,
    pub completed: int,
}

/// Whether there are clocks with these offsets, and the times of a task read
/// from them are dates with times of day.
pub open spec fn fitting(task: TaskView, offsets: Offsets) -> bool {
    &&& valid_offset(offsets.created)
    &&& is_time_text(clock_text(task.create_at, offsets.created))
    &&& task.completed_at matches Some(at) ==> {
        &&& valid_offset(offsets.completed)
        &&& is_time_text(clock_text(at, offsets.completed))
    }
}

/// A task on one line: its text, padded by its display width; the time of
/// its creation; and the time of its completion, if it is completed. Each
/// time is read from clocks with the offset given for it.
pub open spec fn shown(task: TaskView, offsets: Offsets) -> Seq<char> {
    task_text(
        task.text,
        display_width(task.text),
        clock_text(task.create_at, offsets.created),
        match task.completed_at {
            Some(at) => Some(clock_text(at, offsets.completed)),
            None => None,
        },
    )
}

/// Whether a line shows a task, with its times read from some clocks. Which
/// clocks those are depends on the time zone of the machine.
pub open spec fn shows(line: Seq<char>, task: TaskView) -> bool {
    exists|offsets: Offsets| fitting(task, offsets) && line == #[trigger] shown(task, offsets)
}

/// Whether a line is a numbered entry of a listing: the rank in decimal, a
/// full stop, a space, and a line that shows the task.
pub open spec fn is_entry(line: Seq<char>, rank: nat, task: TaskView) -> bool {
    exists|entry: Seq<char>| shows(entry, task) && line == #[trigger] numbered(rank, entry)
}

/// Whether a line is the entry of a task under a rank, with its times read
/// from the clocks given: the rank in decimal, a full stop, a space, and the
/// task as `shown`.
pub open spec fn is_entry_with(
    line: Seq<char>,
    rank: nat,
    task: TaskView,
    offsets: Offsets,
) -> bool {
    fitting(task, offsets) && line == numbered(rank, shown(task, offsets))
}

/// Whether lines are the listing of the tasks in one state, with the times of
/// each task read from the clocks given for it: for an empty journal the
/// notice that it is empty; otherwise one line for each task in that state,
/// in the order of the journal, numbered from one. A journal that holds
/// tasks, but none in that state, has an empty listing.
pub open spec fn is_listing_with(
    lines: Seq<Seq<char>>,
    tasks: Seq<TaskView>,
    done: bool,
    offsets: Seq<Offsets>,
) -> bool {
    &&& offsets.len() == tasks.len()
    &&& if tasks.len() == 0 {
        lines == seq!["Task list is empty!"@]
    } else {
        &&& lines.len() == selected(tasks, done).len()
        &&& forall|k: int|
            0 <= k < lines.len() ==> is_entry_with(
                #[trigger] lines[k],
                (k + 1) as nat,
                tasks[selected(tasks, done)[k]],
                offsets[selected(tasks, done)[k]],
            )
    }
}

/// Whether lines are the listing of the tasks in one state, with the times
/// read from some clocks. Which clocks those are depends on the time zone of
/// the machine.
pub open spec fn is_listing(lines: Seq<Seq<char>>, tasks: Seq<TaskView>, done: bool) -> bool {
    exists|offsets: Seq<Offsets>| #[trigger] is_listing_with(lines, tasks, done, offsets)
}

/// What `selected` holds: indices of the journal, each of a task in the
/// state asked for, in rising order.
pub proof fn lemma_selected_sound(tasks: Seq<TaskView>, done: bool)
    ensures
        selected(tasks, done).len() <= tasks.len(),
        forall|k: int|
            0 <= k < selected(tasks, done).len() ==> {
                &&& 0 <= #[trigger] selected(tasks, done)[k] < tasks.len()
                &&& in_state(tasks[selected(tasks, done)[k]], done)
            },
        forall|j: int, k: int|
            0 <= j < k < selected(tasks, done).len() ==> selected(tasks, done)[j] < selected(
                tasks,
                done,
            )[k],
    decreases tasks.len(),
{
    if tasks.len() > 0 {
        lemma_selected_sound(tasks.drop_last(), done);
    }
}

impl Task {
    /// A task that was created at an instant and is not completed.
    pub fn created(text: String, at: Timestamp) -> (task: Task)
        ensures
            task@ == (TaskView { text: text@, create_at: at@, completed_at: None }),
    {
        Task { text, create_at: at, completed_at: None }
    }

    /// A task that was created now and is not completed.
    pub fn new(text: String) -> (task: Task)
        ensures
            task@.text == text@,
            task@.completed_at is None,
            representable(task@.create_at),
    {
        Task::created(text, Timestamp::now())
    }

    /// The task on one line, with its times in the time zone of the machine.
    pub fn display(&self) -> (line: String)
        ensures
            shows(line@, self@),
    {
        let width = text_width(self.text.as_str());
        let created = self.create_at.local_text();
        let ghost first = choose|offset: int|
            valid_offset(offset) && created@ == #[trigger] clock_text(self.create_at@, offset);
        match self.completed_at {
            Some(at) => {
                let completed = at.local_text();
                let ghost second = choose|offset: int|
                    valid_offset(offset) && completed@ == #[trigger] clock_text(at@, offset);
                let line = format_task(
                    self.text.as_str(),
                    width,
                    created.as_str(),
                    Some(completed.as_str()),
                );
                assert(line@ == shown(self@, Offsets { created: first, completed: second }));
                line
            },
            None => {
                let line = format_task(self.text.as_str(), width, created.as_str(), None);
                assert(line@ == shown(self@, Offsets { created: first, completed: 0 }));
                line
            },
        }
    }
}

/// The indices of the tasks in one state, in the order of the journal.
pub fn select(tasks: &Vec<Task>, done: bool) -> (indices: Vec<usize>)
    ensures
        indices@.map_values(|i: usize| i as int) == selected(tasks.deep_view(), done),
{
    let ghost model = tasks.deep_view();
    let mut indices: Vec<usize> = Vec::new();
    let mut i: usize = 0;
    assert(model.take(0) =~= Seq::empty());
    while i < tasks.len()
        invariant
            i <= tasks.len(),
            model == tasks.deep_view(),
            indices@.map_values(|i: usize| i as int) =~= selected(model.take(i as int), done),
        decreases tasks.len() - i,
    {
        assert(model.take(i + 1).drop_last() =~= model.take(i as int));
        assert(model.take(i + 1).last() == tasks[i as int]@);
        if tasks[i].completed_at.is_some() == done {
            indices.push(i);
        }
        i += 1;
    }
    assert(model.take(i as int) =~= model);
    indices
}

/// The index in the journal of the task at a position, if the position names
/// one.
pub fn locate(tasks: &Vec<Task>, position: usize) -> (found: Option<usize>)
    ensures
        found is Some <==> valid_position(tasks.deep_view(), position as int),
        found matches Some(index) ==> index == target(tasks.deep_view(), position as int)
            && index < tasks.len(),
{
    let open = select(tasks, false);
    proof {
        lemma_selected_sound(tasks.deep_view(), false);
        assert(open@.map_values(|i: usize| i as int).len() == open.len());
    }
    if position == 0 || position > open.len() {
        None
    } else {
        let index = open[position - 1];
        assert(open@.map_values(|i: usize| i as int)[position - 1] == index);
        Some(index)
    }
}

/// Appends a task to the journal.
pub fn add_task(tasks: &mut Vec<Task>, task: Task)
    ensures
        final(tasks).deep_view() == old(tasks).deep_view().push(task@),
{
    tasks.push(task);
    assert(tasks.deep_view() =~= old(tasks).deep_view().push(task@));
}

/// Marks the task at a position as completed at `now`.
pub fn complete_task_at(tasks: &mut Vec<Task>, position: usize, now: Timestamp) -> (done: Result<
    (),
    JournalError,
>)
    ensures
        done is Ok <==> valid_position(old(tasks).deep_view(), position as int),
        done matches Err(e) ==> e == JournalError::InvalidPosition && final(tasks)@ == old(
            tasks,
        )@,
        done is Ok ==> final(tasks).deep_view() == completed(
            old(tasks).deep_view(),
            position as int,
            now@,
        ),
{
    match locate(tasks, position) {
        None => Err(JournalError::InvalidPosition),
        Some(index) => {
            tasks[index].completed_at = Some(now);
            assert(tasks.deep_view() =~= completed(
                old(tasks).deep_view(),
                position as int,
                now@,
            ));
            Ok(())
        },
    }
}

/// Marks the task at a position as completed now.
pub fn complete_task(tasks: &mut Vec<Task>, position: usize) -> (done: Result<(), JournalError>)
    ensures
        done is Ok <==> valid_position(old(tasks).deep_view(), position as int),
        done matches Err(e) ==> e == JournalError::InvalidPosition && final(tasks)@ == old(
            tasks,
        )@,
        done is Ok ==> exists|now: int|
            representable(now) && final(tasks).deep_view() == completed(
                old(tasks).deep_view(),
                position as int,
                now,
            ),
{
    if locate(tasks, position).is_none() {
        return Err(JournalError::InvalidPosition);
    }
    let now = Timestamp::now();
    let done = complete_task_at(tasks, position, now);
    assert(representable(now@) && tasks.deep_view() == completed(
        old(tasks).deep_view(),
        position as int,
        now@,
    ));
    done
}

/// Gives the task at a position a new text.
pub fn edit_task(tasks: &mut Vec<Task>, position: usize, text: String) -> (done: Result<
    (),
    JournalError,
>)
    ensures
        done is Ok <==> valid_position(old(tasks).deep_view(), position as int),
        done matches Err(e) ==> e == JournalError::InvalidPosition && final(tasks)@ == old(
            tasks,
        )@,
        done is Ok ==> final(tasks).deep_view() == edited(
            old(tasks).deep_view(),
            position as int,
            text@,
        ),
{
    match locate(tasks, position) {
        None => Err(JournalError::InvalidPosition),
        Some(index) => {
            tasks[index].text = text;
            assert(tasks.deep_view() =~= edited(old(tasks).deep_view(), position as int, text@));
            Ok(())
        },
    }
}

fn list_in_state(tasks: &Vec<Task>, done: bool) -> (lines: Vec<String>)
    ensures
        is_listing(lines.deep_view(), tasks.deep_view(), done),
{
    let ghost model = tasks.deep_view();
    let ghost chosen = selected(model, done);
    let ghost mut offsets = Seq::new(model.len(), |i: int| Offsets { created: 0, completed: 0 });
    let mut lines: Vec<String> = Vec::new();
    if tasks.len() == 0 {
        lines.push(String::from_str("Task list is empty!"));
        assert(lines.deep_view() =~= seq!["Task list is empty!"@]);
        assert(is_listing_with(lines.deep_view(), model, done, offsets));
        return lines;
    }
    let indices = select(tasks, done);
    proof {
        lemma_selected_sound(model, done);
        assert(indices@.map_values(|i: usize| i as int).len() == indices.len());
    }
    let mut k: usize = 0;
    while k < indices.len()
        invariant
            k <= indices.len(),
            model == tasks.deep_view(),
            chosen == selected(model, done),
            indices@.map_values(|i: usize| i as int) == chosen,
            forall|j: int| 0 <= j < chosen.len() ==> 0 <= #[trigger] chosen[j] < tasks.len(),
            forall|i: int, j: int| 0 <= i < j < chosen.len() ==> chosen[i] < chosen[j],
            offsets.len() == model.len(),
            lines.len() == k,
            forall|j: int|
                0 <= j < k ==> is_entry_with(
                    #[trigger] lines.deep_view()[j],
                    (j + 1) as nat,
                    model[chosen[j]],
                    offsets[chosen[j]],
                ),
        decreases indices.len() - k,
    {
        let index = indices[k];
        assert(indices@.map_values(|i: usize| i as int)[k as int] == index);
        let entry = tasks[index].display();
        let line = numbered_line(k + 1, entry.as_str());
        let ghost before = lines.deep_view();
        let ghost earlier = offsets;
        lines.push(line);
        proof {
            let read = choose|read: Offsets|
                fitting(model[index as int], read) && entry@ == #[trigger] shown(
                    model[index as int],
                    read,
                );
            offsets = earlier.update(index as int, read);
            assert(lines.deep_view() =~= before.push(line@));
            assert forall|j: int| 0 <= j < k + 1 implies is_entry_with(
                #[trigger] lines.deep_view()[j],
                (j + 1) as nat,
                model[chosen[j]],
                offsets[chosen[j]],
            ) by {
                if j < k {
                    assert(chosen[j] < chosen[k as int]);
                    assert(lines.deep_view()[j] == before[j]);
                }
            }
        }
        k += 1;
    }
    assert(is_listing_with(lines.deep_view(), model, done, offsets));
    lines
}

/// The lines that list the tasks that are not completed.
pub fn list_tasks(tasks: &Vec<Task>) -> (lines: Vec<String>)
    ensures
        is_listing(lines.deep_view(), tasks.deep_view(), false),
{
    list_in_state(tasks, false)
}

/// The lines that list the completed tasks.
pub fn list_completed_tasks(tasks: &Vec<Task>) -> (lines: Vec<String>)
    ensures
        is_listing(lines.deep_view(), tasks.deep_view(), true),
{
    list_in_state(tasks, true)
}

} // verus!
