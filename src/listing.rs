use vstd::prelude::*;

use crate::task::{model, Task, TaskModel};

verus! {

/// The decimal digit `d` as text.
pub open spec fn digit_text(d: nat) -> Seq<char> {
    if d == 0 {
        "0"@
    } else if d == 1 {
        "1"@
    } else if d == 2 {
        "2"@
    } else if d == 3 {
        "3"@
    } else if d == 4 {
        "4"@
    } else if d == 5 {
        "5"@
    } else if d == 6 {
        "6"@
    } else if d == 7 {
        "7"@
    } else if d == 8 {
        "8"@
    } else {
        "9"@
    }
}

/// `n` written in decimal, without leading zeros.
pub open spec fn decimal(n: nat) -> Seq<char>
    decreases n,
{
    if n < 10 {
        digit_text(n)
    } else {
        decimal(n / 10) + digit_text(n % 10)
    }
}

/// The completion marker shown between the brackets.
pub open spec fn marker(done: bool) -> Seq<char> {
    if done {
        "\u{2713}"@
    } else {
        " "@
    }
}

/// The line that shows task `t` at 1-based position `n`: `n: [m] description`.
pub open spec fn task_line(n: nat, t: TaskModel) -> Seq<char> {
    decimal(n) + ": ["@ + marker(t.1) + "] "@ + t.0 + "\n"@
}

/// One line for each task, numbered from 1, in collection order.
pub open spec fn task_lines(s: Seq<TaskModel>) -> Seq<char>
    decreases s.len(),
{
    if s.len() == 0 {
        Seq::empty()
    } else {
        task_lines(s.drop_last()) + task_line(s.len(), s.last())
    }
}

/// The whole listing of a collection: a notice when it is empty, else a
/// heading followed by one line per task.
pub open spec fn listing(s: Seq<TaskModel>) -> Seq<char> {
    if s.len() == 0 {
        "No Tasks Found\n"@
    } else {
        "List of Tasks:\n"@ + task_lines(s)
    }
}

fn digit_str(d: usize) -> (r: &'static str)
    requires
        d < 10,
    ensures
        r@ == digit_text(d as nat),
{
    match d {
        0 => "0",
        1 => "1",
        2 => "2",
        3 => "3",
        4 => "4",
        5 => "5",
        6 => "6",
        7 => "7",
        8 => "8",
        _ => "9",
    }
}

/// Writes `n` in decimal.
pub fn decimal_string(n: usize) -> (r: String)
    ensures
        r@ == decimal(n as nat),
    decreases n,
{
    if n < 10 {
        String::from_str(digit_str(n))
    } else {
        let mut r = decimal_string(n / 10);
        r.append(digit_str(n % 10));
        r
    }
}

/// Renders the collection as the text shown to the user.
pub fn list_tasks(tasks: &[Task]) -> (r: String)
    ensures
        r@ == listing(model(tasks@)),
{
    if tasks.len() == 0 {
        return String::from_str("No Tasks Found\n");
    }
    let mut out = String::from_str("List of Tasks:\n");
    let mut i: usize = 0;
    while i < tasks.len()
        invariant
            i <= tasks@.len(),
            out@ == "List of Tasks:\n"@ + task_lines(model(tasks@.take(i as int))),
        decreases tasks@.len() - i,
    {
        let t = &tasks[i];
        let ghost before = out@;
        out.append(&decimal_string(i + 1));
        out.append(": [");
        if t.completed {
            out.append("\u{2713}");
        } else {
            out.append(" ");
        }
        out.append("] ");
        out.append(t.description.as_str());
        out.append("\n");
        proof {
            let s = model(tasks@.take(i + 1));
            assert(s.drop_last() =~= model(tasks@.take(i as int)));
            assert(s.last() == t@);
            assert(out@ =~= before + task_line((i + 1) as nat, t@));
        }
        i = i + 1;
    }
    proof {
        assert(tasks@.take(i as int) =~= tasks@);
    }
    out
}

} // verus!
