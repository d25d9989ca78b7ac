use vstd::prelude::*;

use crate::listing::{list_tasks, listing};
use crate::ops::{add_task, complete_task, delete_task, added, completed, deleted, Outcome};
use crate::task::{model, Task};

verus! {

/// One invocation of the tracker, as the user asked for it.
#[derive(Clone, Debug)]
pub enum Command {
    /// Append a task with this description.
    Add(String),
    /// Show the collection.
    List,
    /// Mark the task at this 1-based index completed.
    Complete(usize),
    /// Remove the task at this 1-based index.
    Delete(usize),
}

/// What the front end must do after a command ran.
#[derive(Debug)]
pub struct Response {
    /// The text to show the user.
    pub text: String,
    /// Whether the collection changed and must be written back in full.
    pub persist: bool,
}

/// The text shown after an operation: its status line.
pub open spec fn status_text(o: Outcome) -> Seq<char> {
    o.spec_message() + "\n"@
}

fn report(o: Outcome) -> (r: Response)
    ensures
        r.text@ == status_text(o),
        r.persist == o.spec_changed(),
{
    let mut text = o.message();
    text.append("\n");
    Response { text, persist: o.changed() }
}

/// Runs one command against the collection and says what to show and whether
/// to write the collection back.
pub fn execute(cmd: Command, tasks: &mut Vec<Task>) -> (r: Response)
    ensures
        match cmd {
            Command::Add(d) => {
                &&& model(final(tasks)@) == added(model(old(tasks)@), d@)
                &&& r.text@ == status_text(Outcome::Added)
                &&& r.persist
            },
            Command::List => {
                &&& final(tasks)@ == old(tasks)@
                &&& r.text@ == listing(model(old(tasks)@))
                &&& !r.persist
            },
            Command::Complete(i) => {
                &&& model(final(tasks)@) == completed(model(old(tasks)@), i as int)
                &&& (if 1 <= i <= old(tasks)@.len() {
                    r.text@ == status_text(Outcome::Completed) && r.persist
                } else {
                    r.text@ == status_text(Outcome::InvalidIndex) && !r.persist
                })
            },
            Command::Delete(i) => {
                &&& model(final(tasks)@) == deleted(model(old(tasks)@), i as int)
                &&& (if 1 <= i <= old(tasks)@.len() {
                    r.text@ == status_text(Outcome::Deleted) && r.persist
                } else {
                    r.text@ == status_text(Outcome::InvalidIndex) && !r.persist
                })
            },
        },
{
    match cmd {
        Command::Add(d) => report(add_task(d, tasks)),
        Command::List => Response { text: list_tasks(tasks.as_slice()), persist: false },
        Command::Complete(i) => report(complete_task(i, tasks)),
        Command::Delete(i) => report(delete_task(i, tasks)),
    }
}

} // verus!
