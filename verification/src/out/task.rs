//! A task and the time logged on it, as lines of text.

use crate::task::{Task, TaskView};
use crate::text::{decimal, push_decimal, signed_decimal, texts};
use crate::time::{seconds_between, Timestamp};
use vstd::prelude::*;
use vstd::string::*;

verus! {

/// Shows a task.
pub struct TaskOut;

/// A duration in days, hours and minutes, each rounded toward zero, with as
/// many of the larger units as are not nothing: `1:2:3 (Days:Hours:Mins)`,
/// `2:3 (Hours:Mins)`, `3 (Mins)`. A negative duration shows its minutes alone.
pub open spec fn pretty(seconds: int) -> Seq<char> {
    let magnitude = if seconds < 0 {
        -seconds
    } else {
        seconds
    };
    let days = (magnitude / 86_400) as nat;
    let hours = ((magnitude % 86_400) / 3_600) as nat;
    let minutes = ((magnitude % 3_600) / 60) as nat;
    if seconds < 0 {
        signed_decimal(-(minutes as int)) + " (Mins)"@
    } else if days > 0 {
        decimal(days) + ":"@ + decimal(hours) + ":"@ + decimal(minutes) + " (Days:Hours:Mins)"@
    } else if hours > 0 {
        decimal(hours) + ":"@ + decimal(minutes) + " (Hours:Mins)"@
    } else {
        decimal(minutes) + " (Mins)"@
    }
}

/// The seconds shown for a task at `now`: from start to end for a task that
/// has ended and is not the current one, else from start to `now`.
pub open spec fn shown_seconds(task: TaskView, now: Timestamp) -> int {
    if !task.current && task.end is Some {
        seconds_between(task.start, task.end->0)
    } else {
        seconds_between(task.start, now)
    }
}

/// The five lines that show a task: its name with the ticket number in angle
/// brackets, its project and the time logged, between two rules.
pub open spec fn task_lines(task: TaskView, now: Timestamp) -> Seq<Seq<char>> {
    seq![
        "*******************"@,
        "* "@ + task.name + (match task.ticket_number {
            Some(ticket) => " <"@ + ticket + ">"@,
            None => Seq::<char>::empty(),
        }),
        "* - Project: "@ + task.project,
        "* - Time Logged: "@ + pretty(shown_seconds(task, now)),
        "*******************"@,
    ]
}

/// Writes a duration, given in seconds, in days, hours and minutes.
pub fn pretty_duration(seconds: i64) -> (text: String)
    ensures
        text@ == pretty(seconds as int),
{
    let magnitude: u64 = if seconds < 0 {
        (-(seconds as i128)) as u64
    } else {
        seconds as u64
    };
    let days: u64 = magnitude / 86_400;
    let hours: u64 = (magnitude % 86_400) / 3_600;
    let minutes: u64 = (magnitude % 3_600) / 60;
    let mut text = String::new();
    if seconds < 0 {
        if minutes > 0 {
            text.append("-");
            proof {
                reveal_strlit("-");
            }
        }
        push_decimal(&mut text, minutes);
        text.append(" (Mins)");
    } else if days > 0 {
        push_decimal(&mut text, days);
        text.append(":");
        push_decimal(&mut text, hours);
        text.append(":");
        push_decimal(&mut text, minutes);
        text.append(" (Days:Hours:Mins)");
    } else if hours > 0 {
        push_decimal(&mut text, hours);
        text.append(":");
        push_decimal(&mut text, minutes);
        text.append(" (Hours:Mins)");
    } else {
        push_decimal(&mut text, minutes);
        text.append(" (Mins)");
    }
    text
}

impl TaskOut {
    /// The lines that show a task and the time logged on it as seen at `now`.
    pub fn current_task(task: &Task, now: &Timestamp) -> (lines: Vec<String>)
        requires
            task.wf(),
            now.wf(),
        ensures
            texts(lines@) == task_lines(task@, *now),
    {
        let seconds: i64 = if !task.current && task.end.is_some() {
            match task.end {
                Some(end) => end.seconds_since(&task.start),
                None => 0,
            }
        } else {
            now.seconds_since(&task.start)
        };
        let mut title = String::from_str("* ");
        title.append(task.name.as_str());
        match &task.ticket_number {
            Some(ticket) => {
                title.append(" <");
                title.append(ticket.as_str());
                title.append(">");
            },
            None => {},
        }
        let mut project = String::from_str("* - Project: ");
        project.append(task.project.as_str());
        let mut logged = String::from_str("* - Time Logged: ");
        logged.append(pretty_duration(seconds).as_str());
        let mut lines: Vec<String> = Vec::new();
        lines.push(String::from_str("*******************"));
        lines.push(title);
        lines.push(project);
        lines.push(logged);
        lines.push(String::from_str("*******************"));
        assert(texts(lines@) =~= task_lines(task@, *now)) by {
            assert(texts(lines@)[1] =~= task_lines(task@, *now)[1]);
        }
        lines
    }
}

} // verus!
