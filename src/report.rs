use vstd::prelude::*;
use vstd::string::StringExecFns;
use crate::task::{TaskLog, TaskView};

verus! {

/// The decimal digit `d`, for `d` below ten.
pub open spec fn digit_char(d: nat) -> char {
    if d == 0 {
        '0'
    } else if d == 1 {
        '1'
    } else if d == 2 {
        '2'
    } else if d == 3 {
        '3'
    } else if d == 4 {
        '4'
    } else if d == 5 {
        '5'
    } else if d == 6 {
        '6'
    } else if d == 7 {
        '7'
    } else if d == 8 {
        '8'
    } else {
        '9'
    }
}

/// `n` written in decimal, without leading zeros.
pub open spec fn decimal(n: nat) -> Seq<char>
    decreases n,
{
    if n < 10 {
        seq![digit_char(n)]
    } else {
        decimal(n / 10).push(digit_char(n % 10))
    }
}

/// The end column of a history entry: the end time's text, or `Ongoing`.
pub open spec fn end_column(end: Option<Seq<char>>) -> Seq<char> {
    match end {
        Some(e) => e,
        None => "Ongoing"@,
    }
}

/// One history entry: `<number>. <name> | Start: <start> | End: <end>`.
pub open spec fn entry_text(number: nat, name: Seq<char>, start: Seq<char>, end: Option<Seq<char>>) -> Seq<char> {
    decimal(number) + ". "@ + name + " | Start: "@ + start + " | End: "@ + end_column(end)
}

/// The history entry of task `t` at 1-based position `number`.
pub open spec fn task_entry(number: nat, t: TaskView) -> Seq<char> {
    entry_text(
        number,
        t.name,
        t.start_time.text(),
        match t.end_time {
            Some(e) => Some(e.text()),
            None => None,
        },
    )
}

/// The lines that list the log `s`: a notice where it is empty, else a heading
/// and one entry per task, oldest first, numbered from 1.
pub open spec fn history(s: Seq<TaskView>) -> Seq<Seq<char>> {
    if s.len() == 0 {
        seq!["No tracked tasks yet."@]
    } else {
        seq!["Task History:"@] + Seq::new(s.len(), |i: int| task_entry((i + 1) as nat, s[i]))
    }
}

/// The texts of a list of lines.
pub open spec fn texts(lines: Seq<String>) -> Seq<Seq<char>> {
    lines.map_values(|l: String| l@)
}

fn digit_str(d: usize) -> (r: &'static str)
    requires
        d < 10,
    ensures
        r@ == seq![digit_char(d as nat)],
{
    if d == 0 {
        proof { reveal_strlit("0"); }
        "0"
    } else if d == 1 {
        proof { reveal_strlit("1"); }
        "1"
    } else if d == 2 {
        proof { reveal_strlit("2"); }
        "2"
    } else if d == 3 {
        proof { reveal_strlit("3"); }
        "3"
    } else if d == 4 {
        proof { reveal_strlit("4"); }
        "4"
    } else if d == 5 {
        proof { reveal_strlit("5"); }
        "5"
    } else if d == 6 {
        proof { reveal_strlit("6"); }
        "6"
    } else if d == 7 {
        proof { reveal_strlit("7"); }
        "7"
    } else if d == 8 {
        proof { reveal_strlit("8"); }
        "8"
    } else {
        proof { reveal_strlit("9"); }
        "9"
    }
}

/// `n` written in decimal.
pub fn decimal_string(n: usize) -> (r: String)
    ensures
        r@ == decimal(n as nat),
    decreases n,
{
    if n < 10 {
        String::from_str(digit_str(n))
    } else {
        let mut r = decimal_string(n / 10);
        r.append(digit_str(n % 10));
        r
    }
}

/// One history entry from its parts: the rendered start time and, for a task
/// that has ended, the rendered end time.
pub fn entry_line(number: usize, name: &str, start: &str, end: Option<&str>) -> (r: String)
    ensures
        r@ == entry_text(
            number as nat,
            name@,
            start@,
            match end {
                Some(e) => Some(e@),
                None => None,
            },
        ),
{
    let mut r = decimal_string(number);
    r.append(". ");
    r.append(name);
    r.append(" | Start: ");
    r.append(start);
    r.append(" | End: ");
    match end {
        Some(e) => r.append(e),
        None => r.append("Ongoing"),
    }
    r
}

impl TaskLog {
    /// The lines that list this log.
    pub fn history(&self) -> (r: Vec<String>)
        ensures
            texts(r@) == history(self@),
    {
        let tasks = self.tasks();
        let n = tasks.len();
        let mut lines: Vec<String> = Vec::new();
        if n == 0 {
            lines.push(String::from_str("No tracked tasks yet."));
            assert(texts(lines@) =~= history(self@));
            return lines;
        }
        lines.push(String::from_str("Task History:"));
        let mut i: usize = 0;
        while i < n
            invariant
                n == tasks@.len(),
                n == self@.len(),
                self@ == crate::task::view_tasks(tasks@),
                0 <= i <= n,
                lines@.len() == i + 1,
                lines@[0]@ == "Task History:"@,
                forall|j: int| 0 <= j < i ==> (#[trigger] lines@[j + 1])@ == task_entry((j + 1) as nat, self@[j]),
            decreases n - i,
        {
            let t = &tasks[i];
            let start = t.start_time.format();
            let line = match t.end_time {
                Some(e) => {
                    let end = e.format();
                    entry_line(i + 1, t.name.as_str(), start.as_str(), Some(end.as_str()))
                },
                None => entry_line(i + 1, t.name.as_str(), start.as_str(), None),
            };
            lines.push(line);
            i = i + 1;
        }
        assert(texts(lines@) =~= history(self@)) by {
            assert forall|k: int| 1 <= k <= n implies #[trigger] texts(lines@)[k] == history(self@)[k] by {
                let j = k - 1;
                assert(lines@[j + 1]@ == task_entry((j + 1) as nat, self@[j]));
            }
        }
        lines
    }
}

} // verus!
