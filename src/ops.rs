use vstd::prelude::*;

use crate::task::{model, Task, TaskModel};

verus! {

/// What an operation on the collection did, as reported to the user.
#[derive(Clone, Copy, Debug, PartialEq, Eq, Structural)]
pub enum Outcome {
    /// A task was appended.
    Added,
    /// The addressed task is now completed.
    Completed,
    /// The addressed task was removed.
    Deleted,
    /// The 1-based index addressed no task; nothing changed.
    InvalidIndex,
}

/// Whether a 1-based index addresses a task of a collection of `len` tasks.
pub open spec fn valid_index(index: int, len: int) -> bool {
    1 <= index <= len
}

/// The collection after appending a new, open task described by `d`.
pub open spec fn added(s: Seq<TaskModel>, d: Seq<char>) -> Seq<TaskModel> {
    s.push((d, false))
}

/// The collection after completing the task at 1-based `index`, if there is one.
pub open spec fn completed(s: Seq<TaskModel>, index: int) -> Seq<TaskModel> {
    if valid_index(index, s.len() as int) {
        s.update(index - 1, (s[index - 1].0, true))
    } else {
        s
    }
}

/// The collection after removing the task at 1-based `index`, if there is one.
pub open spec fn deleted(s: Seq<TaskModel>, index: int) -> Seq<TaskModel> {
    if valid_index(index, s.len() as int) {
        s.remove(index - 1)
    } else {
        s
    }
}

impl Outcome {
    /// The status line shown to the user.
    pub open spec fn spec_message(self) -> Seq<char> {
        match self {
            Outcome::Added => "Tasks Added Successfully"@,
            Outcome::Completed => "Task Marked Complete"@,
            Outcome::Deleted => "Task Deleted Successfully"@,
            Outcome::InvalidIndex => "Invalid Index"@,
        }
    }

    /// The status line shown to the user.
    pub fn message(&self) -> (m: String)
        ensures
            m@ == self.spec_message(),
    {
        match self {
            Outcome::Added => String::from_str("Tasks Added Successfully"),
            Outcome::Completed => String::from_str("Task Marked Complete"),
            Outcome::Deleted => String::from_str("Task Deleted Successfully"),
            Outcome::InvalidIndex => String::from_str("Invalid Index"),
        }
    }

    /// Whether the collection was changed and so must be written back.
    pub open spec fn spec_changed(self) -> bool {
        self != Outcome::InvalidIndex
    }

    /// Whether the collection was changed and so must be written back.
    pub fn changed(&self) -> (r: bool)
        ensures
            r == self.spec_changed(),
    {
        !matches!(self, Outcome::InvalidIndex)
    }
}

/// Appends a new, open task with the given description.
pub fn add_task(description: String, tasks: &mut Vec<Task>) -> (o: Outcome)
    ensures
        model(final(tasks)@) == added(model(old(tasks)@), description@),
        o == Outcome::Added,
{
    let ghost d = description@;
    let task = Task::new(description);
    tasks.push(task);
    proof {
        assert(model(final(tasks)@) =~= added(model(old(tasks)@), d));
    }
    Outcome::Added
}

/// Marks the task at 1-based `index` completed; an index that addresses no task
/// changes nothing.
pub fn complete_task(index: usize, tasks: &mut Vec<Task>) -> (o: Outcome)
    ensures
        model(final(tasks)@) == completed(model(old(tasks)@), index as int),
        o == (if valid_index(index as int, old(tasks)@.len() as int) {
            Outcome::Completed
        } else {
            Outcome::InvalidIndex
        }),
{
    if index >= 1 && index <= tasks.len() {
        tasks[index - 1].completed = true;
        proof {
            assert(model(tasks@) =~= completed(model(old(tasks)@), index as int));
        }
        Outcome::Completed
    } else {
        proof {
            assert(model(tasks@) =~= completed(model(tasks@), index as int));
        }
        Outcome::InvalidIndex
    }
}

/// Removes the task at 1-based `index`, moving the later tasks up by one; an
/// index that addresses no task changes nothing.
pub fn delete_task(index: usize, tasks: &mut Vec<Task>) -> (o: Outcome)
    ensures
        model(final(tasks)@) == deleted(model(old(tasks)@), index as int),
        o == (if valid_index(index as int, old(tasks)@.len() as int) {
            Outcome::Deleted
        } else {
            Outcome::InvalidIndex
        }),
{
    if index >= 1 && index <= tasks.len() {
        let _removed = tasks.remove(index - 1);
        proof {
            assert(model(tasks@) =~= deleted(model(old(tasks)@), index as int));
        }
        Outcome::Deleted
    } else {
        proof {
            assert(model(tasks@) =~= deleted(model(tasks@), index as int));
        }
        Outcome::InvalidIndex
    }
}

/// Adding a task makes the collection one longer, keeps every earlier task in
/// place, and puts an open task with the given description last.
pub proof fn lemma_add_appends(s: Seq<TaskModel>, d: Seq<char>)
    ensures
        added(s, d).len() == s.len() + 1,
        added(s, d).last() == (d, false),
        forall|j: int| 0 <= j < s.len() ==> #[trigger] added(s, d)[j] == s[j],
{
}

/// Completing a task by a valid index marks that task done, keeps its
/// description, and leaves the length and every other task as they were.
pub proof fn lemma_complete_only_target(s: Seq<TaskModel>, index: int)
    requires
        valid_index(index, s.len() as int),
    ensures
        completed(s, index).len() == s.len(),
        completed(s, index)[index - 1] == (s[index - 1].0, true),
        forall|j: int|
            0 <= j < s.len() && j != index - 1 ==> #[trigger] completed(s, index)[j] == s[j],
{
}

/// Completing the same task twice leaves the collection as completing it once.
pub proof fn lemma_complete_idempotent(s: Seq<TaskModel>, index: int)
    ensures
        completed(completed(s, index), index) == completed(s, index),
{
    if valid_index(index, s.len() as int) {
        assert(completed(completed(s, index), index) =~= completed(s, index));
    }
}

/// Deleting by a valid index makes the collection one shorter: the tasks before
/// the index stay in place and those after it move up by one, unchanged.
pub proof fn lemma_delete_removes_target(s: Seq<TaskModel>, index: int)
    requires
        valid_index(index, s.len() as int),
    ensures
        deleted(s, index).len() == s.len() - 1,
        forall|j: int| 0 <= j < index - 1 ==> #[trigger] deleted(s, index)[j] == s[j],
        forall|j: int| index - 1 <= j < s.len() - 1 ==> #[trigger] deleted(s, index)[j] == s[j + 1],
{
}

/// An index that addresses no task leaves the collection unchanged under both
/// completion and deletion.
pub proof fn lemma_invalid_index_unchanged(s: Seq<TaskModel>, index: int)
    requires
        !valid_index(index, s.len() as int),
    ensures
        completed(s, index) == s,
        deleted(s, index) == s,
{
}

} // verus!
