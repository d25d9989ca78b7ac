use vstd::prelude::*;

verus! {

/// A single entry of the to-do list.
#[derive(Clone, Debug)]
pub struct Task {
    /// What is to be done.
    pub description: String,
    /// Whether the task has been marked done.
    pub completed: bool,
}

/// The mathematical value of a task: its description and whether it is done.
pub type TaskModel = (Seq<char>, bool);

impl Task {
    pub open spec fn view(&self) -> TaskModel {
        (self.description@, self.completed)
    }

    /// A fresh task with the given description, not yet completed.
    pub fn new(description: String) -> (t: Task)
        ensures
            t@ == (description@, false),
    {
        Task { description, completed: false }
    }
}

/// The value of a task collection: its tasks' values, in order.
pub open spec fn model(tasks: Seq<Task>) -> Seq<TaskModel> {
    tasks.map_values(|t: Task| t@)
}

} // verus!
