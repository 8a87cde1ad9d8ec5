use vstd::prelude::*;
use vstd::string::StringExecFns;
use crate::report::{history, texts};
use crate::task::{close_tail, start_task, tail_running, StopOutcome, TaskLog, TaskView};
use crate::timestamp::Timestamp;

verus! {

/// One of the three things the tracker can be asked to do.
pub enum Command {
    /// Start tracking a task of this name.
    Start(String),
    /// Stop the running task.
    Stop,
    /// List the tracked tasks.
    Log,
}

/// The answer to a command: the lines to show, and whether the log changed
/// and has to be stored again.
pub struct Reply {
    pub lines: Vec<String>,
    pub save: bool,
}

/// The log after `cmd` runs on `s` at the instant `now`.
pub open spec fn step(s: Seq<TaskView>, cmd: Command, now: Timestamp) -> Seq<TaskView> {
    match cmd {
        Command::Start(name) => start_task(s, name@, now),
        Command::Stop => close_tail(s, now),
        Command::Log => s,
    }
}

/// Whether `cmd` on `s` changes the log, so that it has to be stored.
pub open spec fn saves(s: Seq<TaskView>, cmd: Command) -> bool {
    match cmd {
        Command::Start(_) => true,
        Command::Stop => tail_running(s),
        Command::Log => false,
    }
}

/// What stopping reports on the log `s`.
pub open spec fn stop_message(s: Seq<TaskView>) -> Seq<char> {
    if s.len() == 0 {
        "No tasks found."@
    } else if s.last().end_time is Some {
        "No task is currently running."@
    } else {
        "Stopped task: "@ + s.last().name
    }
}

/// The lines that `cmd` shows when it runs on `s`.
pub open spec fn messages(s: Seq<TaskView>, cmd: Command) -> Seq<Seq<char>> {
    match cmd {
        Command::Start(name) => seq!["Started tracking: "@ + name@],
        Command::Stop => seq![stop_message(s)],
        Command::Log => history(s),
    }
}

impl TaskLog {
    /// Runs `cmd` at the instant `now`.
    pub fn apply(&mut self, cmd: &Command, now: Timestamp) -> (r: Reply)
        requires
            old(self)@.len() < usize::MAX,
        ensures
            final(self)@ == step(old(self)@, *cmd, now),
            texts(r.lines@) == messages(old(self)@, *cmd),
            r.save == saves(old(self)@, *cmd),
    {
        let mut lines: Vec<String> = Vec::new();
        match cmd {
            Command::Start(name) => {
                self.start(name.clone(), now);
                let mut line = String::from_str("Started tracking: ");
                line.append(name.as_str());
                lines.push(line);
                assert(texts(lines@) =~= messages(old(self)@, *cmd));
                Reply { lines, save: true }
            },
            Command::Stop => {
                let outcome = self.stop(now);
                let save = match outcome {
                    StopOutcome::Stopped(name) => {
                        let mut line = String::from_str("Stopped task: ");
                        line.append(name.as_str());
                        lines.push(line);
                        true
                    },
                    StopOutcome::NotRunning => {
                        lines.push(String::from_str("No task is currently running."));
                        false
                    },
                    StopOutcome::NoTasks => {
                        lines.push(String::from_str("No tasks found."));
                        false
                    },
                };
                assert(texts(lines@) =~= messages(old(self)@, *cmd));
                Reply { lines, save }
            },
            Command::Log => Reply { lines: self.history(), save: false },
        }
    }

}

} // verus!
