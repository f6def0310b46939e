//! What holds of the journal whatever it contains.
//!
//! The statements are about the models: sequences of task views, and the
//! functions over them that the contracts of the commands are written in.

use vstd::prelude::*;
use crate::cli::{carried_out, Action};
use crate::error::JournalError;
use crate::tasks::{
    completed, edited, in_state, is_entry, is_entry_with, is_listing, is_listing_with,
    lemma_selected_sound, selected, shown, shows, target, valid_position, Offsets, TaskView,
};

verus! {

/// `selected` leaves out no task in the state asked for.
pub proof fn lemma_selected_complete(tasks: Seq<TaskView>, done: bool, index: int)
    requires
        0 <= index < tasks.len(),
        in_state(tasks[index], done),
    ensures
        selected(tasks, done).contains(index),
    decreases tasks.len(),
{
    let front = selected(tasks.drop_last(), done);
    if index == tasks.len() - 1 {
        assert(selected(tasks, done)[front.len() as int] == index);
    } else {
        lemma_selected_complete(tasks.drop_last(), done, index);
        let k = choose|k: int| 0 <= k < front.len() && front[k] == index;
        assert(selected(tasks, done)[k] == index);
    }
}

/// The task at index `selected(tasks, done)[k]` has exactly `k` tasks of the
/// same state before it in the journal.
pub proof fn lemma_selected_counts_prefix(tasks: Seq<TaskView>, done: bool, k: int)
    requires
        0 <= k < selected(tasks, done).len(),
    ensures
        0 <= selected(tasks, done)[k] < tasks.len(),
        selected(tasks.take(selected(tasks, done)[k]), done) == selected(tasks, done).take(k),
    decreases tasks.len(),
{
    lemma_selected_sound(tasks, done);
    let front = tasks.drop_last();
    let index = selected(tasks, done)[k];
    lemma_selected_sound(front, done);
    if k == selected(front, done).len() {
        assert(tasks.take(index) =~= front);
        assert(selected(tasks, done).take(k) =~= selected(front, done));
    } else {
        lemma_selected_counts_prefix(front, done, k);
        assert(tasks.take(index) =~= front.take(index));
        assert(selected(tasks, done).take(k) =~= selected(front, done).take(k));
    }
}

/// When the `k`-th task of one state leaves that state, the others of that
/// state keep their order and close ranks.
pub proof fn lemma_selected_after_leaving(
    tasks: Seq<TaskView>,
    done: bool,
    k: int,
    changed: TaskView,
)
    requires
        0 <= k < selected(tasks, done).len(),
        !in_state(changed, done),
    ensures
        selected(tasks.update(selected(tasks, done)[k], changed), done) == selected(
            tasks,
            done,
        ).remove(k),
    decreases tasks.len(),
{
    lemma_selected_sound(tasks, done);
    let front = tasks.drop_last();
    let index = selected(tasks, done)[k];
    let after = tasks.update(index, changed);
    lemma_selected_sound(front, done);
    if k == selected(front, done).len() {
        assert(after.drop_last() =~= front);
        assert(selected(tasks, done).remove(k) =~= selected(front, done));
    } else {
        lemma_selected_after_leaving(front, done, k, changed);
        assert(after.drop_last() =~= front.update(index, changed));
        assert(after.last() == tasks.last());
        if in_state(tasks.last(), done) {
            assert(selected(front, done).remove(k).push(tasks.len() - 1) =~= selected(
                tasks,
                done,
            ).remove(k));
        }
    }
}

/// When a task enters a state, it takes its place among the tasks of that
/// state by its index in the journal: behind those that come before it.
pub proof fn lemma_selected_after_entering(
    tasks: Seq<TaskView>,
    done: bool,
    index: int,
    changed: TaskView,
)
    requires
        0 <= index < tasks.len(),
        !in_state(tasks[index], done),
        in_state(changed, done),
    ensures
        selected(tasks.take(index), done).len() <= selected(tasks, done).len(),
        selected(tasks.update(index, changed), done) == selected(tasks, done).insert(
            selected(tasks.take(index), done).len() as int,
            index,
        ),
    decreases tasks.len(),
{
    let front = tasks.drop_last();
    let after = tasks.update(index, changed);
    let rank = selected(tasks.take(index), done).len() as int;
    if index == tasks.len() - 1 {
        assert(tasks.take(index) =~= front);
        assert(after.drop_last() =~= front);
        assert(selected(front, done).push(index) =~= selected(front, done).insert(rank, index));
    } else {
        lemma_selected_after_entering(front, done, index, changed);
        assert(tasks.take(index) =~= front.take(index));
        assert(after.drop_last() =~= front.update(index, changed));
        assert(after.last() == tasks.last());
        if in_state(tasks.last(), done) {
            assert(selected(front, done).insert(rank, index).push(tasks.len() - 1)
                =~= selected(tasks, done).insert(rank, index));
        }
    }
}

/// A change that keeps every task in its state keeps every position.
pub proof fn lemma_selected_same_states(before: Seq<TaskView>, after: Seq<TaskView>, done: bool)
    requires
        before.len() == after.len(),
        forall|i: int|
            0 <= i < before.len() ==> in_state(#[trigger] before[i], done) == in_state(
                after[i],
                done,
            ),
    ensures
        selected(before, done) == selected(after, done),
    decreases before.len(),
{
    if before.len() > 0 {
        assert(in_state(before[before.len() - 1], done) == in_state(after[after.len() - 1], done));
        assert forall|i: int| 0 <= i < before.drop_last().len() implies in_state(
            #[trigger] before.drop_last()[i],
            done,
        ) == in_state(after.drop_last()[i], done) by {
            assert(in_state(before[i], done) == in_state(after[i], done));
        }
        lemma_selected_same_states(before.drop_last(), after.drop_last(), done);
    }
}

/// Completing a position marks exactly one task: the one that is not yet
/// completed and has `position - 1` such tasks before it. That task keeps
/// its text and the time of its creation, and every other task stays as it
/// is. The tasks that are still open keep their order and close ranks; the
/// completed ones are joined by the marked task, at its place in the journal.
pub proof fn lemma_complete_marks_one(tasks: Seq<TaskView>, position: int, now: int)
    requires
        valid_position(tasks, position),
    ensures
        ({
            let index = target(tasks, position);
            let after = completed(tasks, position, now);
            &&& 0 <= index < tasks.len()
            &&& tasks[index].completed_at is None
            &&& selected(tasks.take(index), false).len() == position - 1
            &&& after.len() == tasks.len()
            &&& after[index].completed_at == Some(now)
            &&& after[index].text == tasks[index].text
            &&& after[index].create_at == tasks[index].create_at
            &&& forall|i: int| 0 <= i < tasks.len() && i != index ==> after[i] == tasks[i]
            &&& selected(after, false) == selected(tasks, false).remove(position - 1)
            &&& selected(after, true) == selected(tasks, true).insert(
                selected(tasks.take(index), true).len() as int,
                index,
            )
        }),
{
    let index = target(tasks, position);
    let changed = TaskView { completed_at: Some(now), ..tasks[index] };
    lemma_selected_sound(tasks, false);
    lemma_selected_counts_prefix(tasks, false, position - 1);
    lemma_selected_after_leaving(tasks, false, position - 1, changed);
    lemma_selected_after_entering(tasks, true, index, changed);
}

/// Editing a position changes the text of exactly one task, the one that
/// completing the position would mark. No task changes its state or its
/// times, so every position names the same task as before.
pub proof fn lemma_edit_changes_one_text(tasks: Seq<TaskView>, position: int, text: Seq<char>)
    requires
        valid_position(tasks, position),
    ensures
        ({
            let index = target(tasks, position);
            let after = edited(tasks, position, text);
            &&& 0 <= index < tasks.len()
            &&& after.len() == tasks.len()
            &&& after[index].text == text
            &&& after[index].create_at == tasks[index].create_at
            &&& after[index].completed_at == tasks[index].completed_at
            &&& forall|i: int| 0 <= i < tasks.len() && i != index ==> after[i] == tasks[i]
            &&& selected(after, false) == selected(tasks, false)
            &&& selected(after, true) == selected(tasks, true)
        }),
{
    let after = edited(tasks, position, text);
    lemma_selected_sound(tasks, false);
    lemma_selected_same_states(tasks, after, false);
    lemma_selected_same_states(tasks, after, true);
}

/// A task that is added takes the last position, and every position before
/// it names the same task as before.
pub proof fn lemma_added_task_is_last(tasks: Seq<TaskView>, task: TaskView)
    requires
        task.completed_at is None,
    ensures
        selected(tasks.push(task), false) == selected(tasks, false).push(tasks.len() as int),
        selected(tasks.push(task), true) == selected(tasks, true),
        valid_position(tasks.push(task), (selected(tasks, false).len() + 1) as int),
        target(tasks.push(task), (selected(tasks, false).len() + 1) as int) == tasks.len(),
{
    assert(tasks.push(task).drop_last() =~= tasks);
}

/// What a listing holds, whatever clocks its times were read from: for an
/// empty journal the notice; otherwise one numbered entry for each task in
/// the state asked for, in the order of the journal.
pub proof fn lemma_listing_entries(lines: Seq<Seq<char>>, tasks: Seq<TaskView>, done: bool)
    requires
        is_listing(lines, tasks, done),
    ensures
        tasks.len() == 0 ==> lines == seq!["Task list is empty!"@],
        tasks.len() > 0 ==> lines.len() == selected(tasks, done).len(),
        tasks.len() > 0 ==> forall|k: int|
            0 <= k < lines.len() ==> is_entry(
                #[trigger] lines[k],
                (k + 1) as nat,
                tasks[selected(tasks, done)[k]],
            ),
{
    let offsets = choose|offsets: Seq<Offsets>| is_listing_with(lines, tasks, done, offsets);
    if tasks.len() > 0 {
        assert forall|k: int| 0 <= k < lines.len() implies is_entry(
            #[trigger] lines[k],
            (k + 1) as nat,
            tasks[selected(tasks, done)[k]],
        ) by {
            let index = selected(tasks, done)[k];
            assert(is_entry_with(lines[k], (k + 1) as nat, tasks[index], offsets[index]));
            let entry = shown(tasks[index], offsets[index]);
            assert(shows(entry, tasks[index]));
        }
    }
}

/// A listing is settled by the journal and by the clocks that its times are
/// read from: two listings of one journal whose times were read from the
/// same clocks are the same lines.
pub proof fn lemma_listings_identical(
    first: Seq<Seq<char>>,
    second: Seq<Seq<char>>,
    tasks: Seq<TaskView>,
    done: bool,
    offsets: Seq<Offsets>,
)
    requires
        is_listing_with(first, tasks, done, offsets),
        is_listing_with(second, tasks, done, offsets),
    ensures
        first == second,
{
    if tasks.len() > 0 {
        assert forall|k: int| 0 <= k < first.len() implies first[k] == second[k] by {
            let index = selected(tasks, done)[k];
            assert(is_entry_with(first[k], (k + 1) as nat, tasks[index], offsets[index]));
            assert(is_entry_with(second[k], (k + 1) as nat, tasks[index], offsets[index]));
        }
        assert(first =~= second);
    }
}

/// After a task was added, the listing of the open tasks ends with it, under
/// the rank that is its position; the lines before it show the tasks that
/// were open before, under their ranks.
pub proof fn lemma_open_listing_after_adding(
    tasks: Seq<TaskView>,
    task: TaskView,
    lines: Seq<Seq<char>>,
)
    requires
        task.completed_at is None,
        is_listing(lines, tasks.push(task), false),
    ensures
        lines.len() == selected(tasks, false).len() + 1,
        is_entry(lines.last(), lines.len(), task),
        forall|k: int|
            0 <= k < lines.len() - 1 ==> is_entry(
                #[trigger] lines[k],
                (k + 1) as nat,
                tasks[selected(tasks, false)[k]],
            ),
{
    lemma_added_task_is_last(tasks, task);
    lemma_selected_sound(tasks, false);
    let after = tasks.push(task);
    lemma_listing_entries(lines, after, false);
    assert(after[tasks.len() as int] == task);
    assert forall|k: int| 0 <= k < lines.len() - 1 implies is_entry(
        #[trigger] lines[k],
        (k + 1) as nat,
        tasks[selected(tasks, false)[k]],
    ) by {
        assert(after[selected(after, false)[k]] == tasks[selected(tasks, false)[k]]);
    }
}

/// After a position was completed, the listing of the open tasks is the one
/// from before without that task: the tasks before it keep their ranks, the
/// tasks behind it move up by one.
pub proof fn lemma_open_listing_after_completing(
    tasks: Seq<TaskView>,
    position: int,
    now: int,
    lines: Seq<Seq<char>>,
)
    requires
        valid_position(tasks, position),
        is_listing(lines, completed(tasks, position, now), false),
    ensures
        lines.len() == selected(tasks, false).len() - 1,
        forall|k: int|
            0 <= k < position - 1 ==> is_entry(
                #[trigger] lines[k],
                (k + 1) as nat,
                tasks[selected(tasks, false)[k]],
            ),
        forall|k: int|
            position - 1 <= k < lines.len() ==> is_entry(
                #[trigger] lines[k],
                (k + 1) as nat,
                tasks[selected(tasks, false)[k + 1]],
            ),
{
    lemma_complete_marks_one(tasks, position, now);
    lemma_selected_sound(tasks, false);
    let after = completed(tasks, position, now);
    lemma_listing_entries(lines, after, false);
    assert forall|k: int| 0 <= k < position - 1 implies is_entry(
        #[trigger] lines[k],
        (k + 1) as nat,
        tasks[selected(tasks, false)[k]],
    ) by {
        assert(selected(after, false)[k] == selected(tasks, false)[k]);
    }
    assert forall|k: int| position - 1 <= k < lines.len() implies is_entry(
        #[trigger] lines[k],
        (k + 1) as nat,
        tasks[selected(tasks, false)[k + 1]],
    ) by {
        assert(selected(after, false)[k] == selected(tasks, false)[k + 1]);
    }
}

/// After a position was completed, the listing of the completed tasks holds
/// a line for that task, with its time of completion; its rank is one more
/// than the number of completed tasks before it in the journal.
pub proof fn lemma_completed_listing_after_completing(
    tasks: Seq<TaskView>,
    position: int,
    now: int,
    lines: Seq<Seq<char>>,
)
    requires
        valid_position(tasks, position),
        is_listing(lines, completed(tasks, position, now), true),
    ensures
        lines.len() == selected(tasks, true).len() + 1,
        ({
            let index = target(tasks, position);
            let rank = selected(tasks.take(index), true).len();
            &&& rank < lines.len()
            &&& is_entry(
                lines[rank as int],
                rank + 1,
                TaskView { completed_at: Some(now), ..tasks[index] },
            )
        }),
{
    lemma_selected_sound(tasks, false);
    let index = target(tasks, position);
    let changed = TaskView { completed_at: Some(now), ..tasks[index] };
    lemma_selected_after_entering(tasks, true, index, changed);
    let rank = selected(tasks.take(index), true).len() as int;
    let after = completed(tasks, position, now);
    lemma_listing_entries(lines, after, true);
    assert(selected(after, true)[rank] == index);
    assert(after[index] == changed);
}

/// After a position was edited, the listing of the open tasks shows the new
/// text under that position, and every other task under its rank as before.
pub proof fn lemma_open_listing_after_editing(
    tasks: Seq<TaskView>,
    position: int,
    text: Seq<char>,
    lines: Seq<Seq<char>>,
)
    requires
        valid_position(tasks, position),
        is_listing(lines, edited(tasks, position, text), false),
    ensures
        lines.len() == selected(tasks, false).len(),
        is_entry(
            lines[position - 1],
            position as nat,
            TaskView { text, ..tasks[target(tasks, position)] },
        ),
        forall|k: int|
            0 <= k < lines.len() && k != position - 1 ==> is_entry(
                #[trigger] lines[k],
                (k + 1) as nat,
                tasks[selected(tasks, false)[k]],
            ),
{
    lemma_edit_changes_one_text(tasks, position, text);
    lemma_selected_sound(tasks, false);
    let after = edited(tasks, position, text);
    lemma_listing_entries(lines, after, false);
    let index = target(tasks, position);
    assert(after[index] == TaskView { text, ..tasks[index] });
    assert forall|k: int| 0 <= k < lines.len() && k != position - 1 implies is_entry(
        #[trigger] lines[k],
        (k + 1) as nat,
        tasks[selected(tasks, false)[k]],
    ) by {
        assert(selected(tasks, false)[k] != index);
    }
}

/// No command takes a task out of the journal, moves one, or changes the
/// time of its creation; and a task that is completed stays as it is for
/// good. A task goes from open to completed and never back.
pub proof fn lemma_commands_only_complete(
    action: Action,
    before: Seq<TaskView>,
    after: Seq<TaskView>,
    output: Result<Seq<Seq<char>>, JournalError>,
)
    requires
        carried_out(action, before, after, output),
    ensures
        before.len() <= after.len(),
        forall|i: int|
            0 <= i < before.len() ==> (#[trigger] after[i]).create_at == before[i].create_at,
        forall|i: int|
            0 <= i < before.len() && before[i].completed_at is Some ==> #[trigger] after[i]
                == before[i],
        output is Err ==> after == before,
{
    lemma_selected_sound(before, false);
}

/// A position that names no task is one that neither completing nor editing
/// accepts: zero, or a number beyond the count of the tasks that are not
/// completed. That count never exceeds the length of the journal.
pub proof fn lemma_invalid_positions(tasks: Seq<TaskView>, position: int)
    ensures
        !valid_position(tasks, 0),
        position > tasks.len() ==> !valid_position(tasks, position),
        !valid_position(Seq::<TaskView>::empty(), position),
{
    lemma_selected_sound(tasks, false);
}

} // verus!
