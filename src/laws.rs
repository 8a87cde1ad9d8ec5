use vstd::prelude::*;
use crate::command::{messages, saves, step, Command};
use crate::task::{at_most_one_running, only_tail_may_run, TaskView};
use crate::timestamp::Timestamp;

verus! {

/// The log reached from an empty one by running `events` in order, each
/// command at its instant.
pub open spec fn replay(events: Seq<(Command, Timestamp)>) -> Seq<TaskView>
    decreases events.len(),
{
    if events.len() == 0 {
        Seq::empty()
    } else {
        step(replay(events.drop_last()), events.last().0, events.last().1)
    }
}

/// Where no task but the newest runs, at most one task runs.
pub proof fn lemma_only_tail_means_one_running(s: Seq<TaskView>)
    requires
        only_tail_may_run(s),
    ensures
        at_most_one_running(s),
{
    assert forall|i: int, j: int|
        0 <= i < s.len() && 0 <= j < s.len() && (#[trigger] s[i]).end_time is None
            && (#[trigger] s[j]).end_time is None implies i == j by {
        if i < s.len() - 1 {
            assert(s[i].end_time is Some);
        }
        if j < s.len() - 1 {
            assert(s[j].end_time is Some);
        }
    }
}

/// Every command keeps the rule that no task but the newest runs.
pub proof fn lemma_step_keeps_only_tail(s: Seq<TaskView>, cmd: Command, now: Timestamp)
    requires
        only_tail_may_run(s),
    ensures
        only_tail_may_run(step(s, cmd, now)),
{
    let t = step(s, cmd, now);
    assert forall|i: int| 0 <= i < t.len() - 1 implies (#[trigger] t[i]).end_time is Some by {
        if i < s.len() - 1 {
            assert(t[i] == s[i]);
        }
    }
}

/// In every log that the commands can reach from an empty one, at most one
/// task is running.
pub proof fn lemma_reachable_at_most_one_running(events: Seq<(Command, Timestamp)>)
    ensures
        only_tail_may_run(replay(events)),
        at_most_one_running(replay(events)),
    decreases events.len(),
{
    if events.len() > 0 {
        lemma_reachable_at_most_one_running(events.drop_last());
        lemma_step_keeps_only_tail(replay(events.drop_last()), events.last().0, events.last().1);
    }
    lemma_only_tail_means_one_running(replay(events));
}

/// Stopping twice in a row: the second stop finds nothing running, reports so,
/// leaves the log as the first stop left it and asks for no save.
pub proof fn lemma_second_stop_is_idle(s: Seq<TaskView>, first: Timestamp, second: Timestamp)
    requires
        s.len() > 0,
    ensures
        step(step(s, Command::Stop, first), Command::Stop, second) == step(s, Command::Stop, first),
        messages(step(s, Command::Stop, first), Command::Stop) == seq!["No task is currently running."@],
        !saves(step(s, Command::Stop, first), Command::Stop),
{
    let s1 = step(s, Command::Stop, first);
    assert(s1.len() == s.len());
    assert(s1.last().end_time is Some);
}

/// Starting a task while the newest one runs ends that one at the same
/// instant, keeps the older ones, and appends the new task, running: the log
/// grows by exactly one.
pub proof fn lemma_start_closes_running(s: Seq<TaskView>, name: String, now: Timestamp)
    requires
        s.len() > 0,
        s.last().end_time is None,
    ensures
        step(s, Command::Start(name), now).len() == s.len() + 1,
        step(s, Command::Start(name), now)[s.len() - 1] == (TaskView { end_time: Some(now), ..s.last() }),
        step(s, Command::Start(name), now).last() == (TaskView { name: name@, start_time: now, end_time: None }),
        forall|i: int| 0 <= i < s.len() - 1 ==> #[trigger] step(s, Command::Start(name), now)[i] == s[i],
{
}

} // verus!
