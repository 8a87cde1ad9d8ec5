use vstd::prelude::*;
use crate::timestamp::Timestamp;

verus! {

/// One tracked piece of work. A task without an end time is running.
pub struct Task {
    pub name: String,
    pub start_time: Timestamp,
    pub end_time: Option<Timestamp>,
}

/// What a task holds, with its name as text.
pub struct TaskView {
    pub name: Seq<char>,
    pub start_time: Timestamp,
    pub end_time: Option<Timestamp>,
}

impl View for Task {
    type V = TaskView;

    open spec fn view(&self) -> TaskView {
        TaskView { name: self.name@, start_time: self.start_time, end_time: self.end_time }
    }
}

impl Task {
    pub fn new(name: String, start_time: Timestamp, end_time: Option<Timestamp>) -> (r: Task)
        ensures
            r@ == (TaskView { name: name@, start_time, end_time }),
    {
        Task { name, start_time, end_time }
    }

    pub fn is_running(&self) -> (r: bool)
        ensures
            r == self.end_time is None,
    {
        self.end_time.is_none()
    }
}

/// The view of a whole log: its tasks, oldest first.
pub open spec fn view_tasks(v: Seq<Task>) -> Seq<TaskView> {
    v.map_values(|t: Task| t@)
}

/// Whether the newest task of `s` is running.
pub open spec fn tail_running(s: Seq<TaskView>) -> bool {
    s.len() > 0 && s.last().end_time is None
}

/// `s` with its newest task ended at `now`, if that task is running; else `s`.
pub open spec fn close_tail(s: Seq<TaskView>, now: Timestamp) -> Seq<TaskView> {
    if tail_running(s) {
        s.update(s.len() - 1, TaskView { end_time: Some(now), ..s.last() })
    } else {
        s
    }
}

/// `s` after a task named `name` starts at `now`: a running newest task is
/// ended at `now` first, then the new task is appended, running.
pub open spec fn start_task(s: Seq<TaskView>, name: Seq<char>, now: Timestamp) -> Seq<TaskView> {
    close_tail(s, now).push(TaskView { name, start_time: now, end_time: None })
}

/// No task but possibly the newest one is running.
pub open spec fn only_tail_may_run(s: Seq<TaskView>) -> bool {
    forall|i: int| 0 <= i < s.len() - 1 ==> (#[trigger] s[i]).end_time is Some
}

/// At most one task of `s` is running.
pub open spec fn at_most_one_running(s: Seq<TaskView>) -> bool {
    forall|i: int, j: int|
        0 <= i < s.len() && 0 <= j < s.len() && (#[trigger] s[i]).end_time is None
            && (#[trigger] s[j]).end_time is None ==> i == j
}

/// What `stop` reports.
pub enum StopOutcome {
    /// The log holds no task.
    NoTasks,
    /// The newest task has already ended.
    NotRunning,
    /// The newest task, of this name, was running and has been ended.
    Stopped(String),
}

/// Whether `r` is what `stop` reports on the log `s`.
pub open spec fn stop_reports(s: Seq<TaskView>, r: StopOutcome) -> bool {
    if s.len() == 0 {
        r is NoTasks
    } else if s.last().end_time is Some {
        r is NotRunning
    } else {
        r matches StopOutcome::Stopped(name) && name@ == s.last().name
    }
}

/// The tasks tracked so far, oldest first.
pub struct TaskLog {
    tasks: Vec<Task>,
}

impl View for TaskLog {
    type V = Seq<TaskView>;

    closed spec fn view(&self) -> Seq<TaskView> {
        view_tasks(self.tasks@)
    }
}

impl TaskLog {
    /// An empty log.
    pub fn new() -> (r: TaskLog)
        ensures
            r@ == Seq::<TaskView>::empty(),
    {
        let r = TaskLog { tasks: Vec::new() };
        assert(r@ =~= Seq::<TaskView>::empty());
        r
    }

    /// A log of the given tasks, in the given order.
    pub fn from_tasks(tasks: Vec<Task>) -> (r: TaskLog)
        ensures
            r@ == view_tasks(tasks@),
    {
        TaskLog { tasks }
    }

    /// The log read back from storage: the stored tasks in their order, or an
    /// empty log where nothing readable was stored.
    pub fn from_loaded(loaded: Option<Vec<Task>>) -> (r: TaskLog)
        ensures
            r@ == (match loaded {
                Some(v) => view_tasks(v@),
                None => Seq::<TaskView>::empty(),
            }),
    {
        match loaded {
            Some(tasks) => TaskLog::from_tasks(tasks),
            None => TaskLog::new(),
        }
    }

    /// The tasks, oldest first.
    pub fn tasks(&self) -> (r: &Vec<Task>)
        ensures
            view_tasks(r@) == self@,
    {
        &self.tasks
    }

    /// The tasks, oldest first, taken out of the log.
    pub fn into_tasks(self) -> (r: Vec<Task>)
        ensures
            view_tasks(r@) == self@,
    {
        self.tasks
    }

    pub fn len(&self) -> (r: usize)
        ensures
            r == self@.len(),
    {
        self.tasks.len()
    }

    pub fn is_empty(&self) -> (r: bool)
        ensures
            r == (self@.len() == 0),
    {
        self.tasks.len() == 0
    }

    /// Ends the newest task at `now` if it is running; reports whether it did.
    fn close_tail(&mut self, now: Timestamp) -> (r: bool)
        ensures
            final(self)@ == close_tail(old(self)@, now),
            r == tail_running(old(self)@),
    {
        let n = self.tasks.len();
        if n > 0 && self.tasks[n - 1].end_time.is_none() {
            let mut last = self.tasks.pop().unwrap();
            last.end_time = Some(now);
            self.tasks.push(last);
            assert(self@ =~= close_tail(old(self)@, now));
            true
        } else {
            false
        }
    }

    /// Starts a task named `name` at `now`, ending the running newest task, if
    /// any, at the same instant.
    pub fn start(&mut self, name: String, now: Timestamp)
        requires
            old(self)@.len() < usize::MAX,
        ensures
            final(self)@ == start_task(old(self)@, name@, now),
    {
        self.close_tail(now);
        let ghost closed = self@;
        self.tasks.push(Task { name, start_time: now, end_time: None });
        assert(self@ =~= closed.push(TaskView { name: name@, start_time: now, end_time: None }));
    }

    /// Ends the newest task at `now` if it is running. An empty log, or one
    /// whose newest task has ended, is left as it is.
    pub fn stop(&mut self, now: Timestamp) -> (r: StopOutcome)
        ensures
            final(self)@ == close_tail(old(self)@, now),
            stop_reports(old(self)@, r),
    {
        let n = self.tasks.len();
        if n == 0 {
            StopOutcome::NoTasks
        } else if self.tasks[n - 1].end_time.is_none() {
            let name = self.tasks[n - 1].name.clone();
            self.close_tail(now);
            StopOutcome::Stopped(name)
        } else {
            StopOutcome::NotRunning
        }
    }
}

} // verus!
