//! A small time tracker: a chronological log of tasks, each with a start
//! time and an optional end time, driven by three commands (start, stop and
//! log). At most one task is running at a time, the newest one.

mod command;
mod laws;
mod report;
mod task;
mod timestamp;

pub use command::{messages, saves, step, stop_message, Command, Reply};
pub use laws::{
    lemma_only_tail_means_one_running, lemma_reachable_at_most_one_running,
    lemma_second_stop_is_idle, lemma_start_closes_running, lemma_step_keeps_only_tail, replay,
};
pub use report::{
    decimal, decimal_string, digit_char, end_column, entry_line, entry_text, history, task_entry,
    texts,
};
pub use task::{
    at_most_one_running, close_tail, only_tail_may_run, start_task, stop_reports, tail_running,
    view_tasks, StopOutcome, Task, TaskLog, TaskView,
};
pub use timestamp::{in_range, utc_text, Timestamp, MAX_SECS, MIN_SECS, NANOS_LIMIT};
