use trackit::{decimal_string, entry_line, Command, StopOutcome, Task, TaskLog, Timestamp};

fn at(secs: i64) -> Timestamp {
    Timestamp::new(secs, 0).unwrap()
}

fn running_count(log: &TaskLog) -> usize {
    log.tasks().iter().filter(|t| t.end_time.is_none()).count()
}

#[test]
fn timestamp_accepts_instants_in_range() {
    let t = Timestamp::new(1431648000, 123).unwrap();
    assert_eq!(t.secs(), 1431648000);
    assert_eq!(t.nanos(), 123);
    assert!(Timestamp::new(trackit::MIN_SECS, 0).is_some());
    assert!(Timestamp::new(trackit::MAX_SECS, 999_999_999).is_some());
}

#[test]
fn timestamp_rejects_instants_out_of_range() {
    assert!(Timestamp::new(trackit::MIN_SECS - 1, 0).is_none());
    assert!(Timestamp::new(trackit::MAX_SECS + 1, 0).is_none());
    assert!(Timestamp::new(0, 2_000_000_000).is_none());
}

#[test]
fn timestamp_leap_second_only_after_second_59() {
    assert!(Timestamp::new(59, 1_500_000_000).is_some());
    assert!(Timestamp::new(58, 1_500_000_000).is_none());
    assert!(Timestamp::new(-1, 1_000_000_000).is_some());
    assert!(Timestamp::new(-2, 1_000_000_000).is_none());
}

#[test]
fn timestamp_formats_as_date_and_time() {
    assert_eq!(at(1431648000).format(), "2015-05-15 00:00:00");
    assert_eq!(Timestamp::new(0, 999_999_999).unwrap().format(), "1970-01-01 00:00:00");
    assert_eq!(at(1700000000).format(), "2023-11-14 22:13:20");
}

#[test]
fn timestamp_formats_ends_of_range() {
    assert_eq!(Timestamp::new(trackit::MIN_SECS, 0).unwrap().format(), "-262143-01-01 00:00:00");
    assert_eq!(
        Timestamp::new(trackit::MAX_SECS, 999_999_999).unwrap().format(),
        "+262142-12-31 23:59:59"
    );
    assert_eq!(Timestamp::new(-1, 0).unwrap().format(), "1969-12-31 23:59:59");
}

#[test]
fn decimal_string_writes_digits() {
    assert_eq!(decimal_string(0), "0");
    assert_eq!(decimal_string(7), "7");
    assert_eq!(decimal_string(10), "10");
    assert_eq!(decimal_string(12345), "12345");
}

#[test]
fn entry_line_with_end_time() {
    let line = entry_line(3, "Write report", "2024-01-02 03:04:05", Some("2024-01-02 04:00:00"));
    assert_eq!(line, "3. Write report | Start: 2024-01-02 03:04:05 | End: 2024-01-02 04:00:00");
}

#[test]
fn entry_line_ongoing() {
    let line = entry_line(12, "Review code", "2024-01-02 03:04:05", None);
    assert_eq!(line, "12. Review code | Start: 2024-01-02 03:04:05 | End: Ongoing");
}

#[test]
fn empty_log_lists_notice_and_saves_nothing() {
    let mut log = TaskLog::new();
    let reply = log.apply(&Command::Log, at(100));
    assert_eq!(reply.lines, vec!["No tracked tasks yet.".to_string()]);
    assert!(!reply.save);
    assert!(log.is_empty());
}

#[test]
fn stop_on_empty_log_reports_no_tasks() {
    let mut log = TaskLog::new();
    let reply = log.apply(&Command::Stop, at(100));
    assert_eq!(reply.lines, vec!["No tasks found.".to_string()]);
    assert!(!reply.save);
    assert!(log.is_empty());
}

#[test]
fn start_appends_running_task() {
    let mut log = TaskLog::new();
    let reply = log.apply(&Command::Start("Write report".to_string()), at(100));
    assert_eq!(reply.lines, vec!["Started tracking: Write report".to_string()]);
    assert!(reply.save);
    assert_eq!(log.len(), 1);
    let t = &log.tasks()[0];
    assert_eq!(t.name, "Write report");
    assert_eq!(t.start_time, at(100));
    assert_eq!(t.end_time, None);
}

#[test]
fn start_closes_running_task() {
    let mut log = TaskLog::new();
    log.apply(&Command::Start("T1".to_string()), at(100));
    log.apply(&Command::Start("T2".to_string()), at(250));
    assert_eq!(log.len(), 2);
    assert_eq!(log.tasks()[0].name, "T1");
    assert_eq!(log.tasks()[0].end_time, Some(at(250)));
    assert_eq!(log.tasks()[1].name, "T2");
    assert_eq!(log.tasks()[1].start_time, at(250));
    assert_eq!(log.tasks()[1].end_time, None);
}

#[test]
fn stop_ends_running_task() {
    let mut log = TaskLog::new();
    log.apply(&Command::Start("Write report".to_string()), at(100));
    let reply = log.apply(&Command::Stop, at(160));
    assert_eq!(reply.lines, vec!["Stopped task: Write report".to_string()]);
    assert!(reply.save);
    assert_eq!(log.tasks()[0].end_time, Some(at(160)));
}

#[test]
fn second_stop_reports_nothing_running() {
    let mut log = TaskLog::new();
    log.apply(&Command::Start("Write report".to_string()), at(100));
    log.apply(&Command::Stop, at(160));
    let reply = log.apply(&Command::Stop, at(200));
    assert_eq!(reply.lines, vec!["No task is currently running.".to_string()]);
    assert!(!reply.save);
    assert_eq!(log.len(), 1);
    assert_eq!(log.tasks()[0].end_time, Some(at(160)));
}

#[test]
fn stop_outcome_names_stopped_task() {
    let mut log = TaskLog::new();
    assert!(matches!(log.stop(at(1)), StopOutcome::NoTasks));
    log.start("A".to_string(), at(2));
    match log.stop(at(3)) {
        StopOutcome::Stopped(name) => assert_eq!(name, "A"),
        _ => panic!("expected the running task to stop"),
    }
    assert!(matches!(log.stop(at(4)), StopOutcome::NotRunning));
}

#[test]
fn at_most_one_task_runs_after_any_commands() {
    let mut log = TaskLog::new();
    let cmds = vec![
        Command::Start("a".to_string()),
        Command::Start("b".to_string()),
        Command::Stop,
        Command::Stop,
        Command::Start("c".to_string()),
        Command::Log,
        Command::Start("d".to_string()),
        Command::Start("e".to_string()),
    ];
    for (i, cmd) in cmds.iter().enumerate() {
        log.apply(cmd, at(1000 + i as i64));
        assert!(running_count(&log) <= 1);
    }
    assert_eq!(log.len(), 5);
    assert_eq!(running_count(&log), 1);
}

#[test]
fn start_stop_start_then_log() {
    let mut log = TaskLog::new();
    log.apply(&Command::Start("Write report".to_string()), at(1700000000));
    log.apply(&Command::Stop, at(1700003600));
    log.apply(&Command::Start("Review code".to_string()), at(1700007200));
    let reply = log.apply(&Command::Log, at(1700010000));
    assert!(!reply.save);
    assert_eq!(
        reply.lines,
        vec![
            "Task History:".to_string(),
            "1. Write report | Start: 2023-11-14 22:13:20 | End: 2023-11-14 23:13:20".to_string(),
            "2. Review code | Start: 2023-11-15 00:13:20 | End: Ongoing".to_string(),
        ]
    );
}

#[test]
fn unreadable_store_lists_notice() {
    let mut log = TaskLog::from_loaded(None);
    let reply = log.apply(&Command::Log, at(5));
    assert_eq!(reply.lines, vec!["No tracked tasks yet.".to_string()]);
}

#[test]
fn loaded_tasks_keep_their_order() {
    let tasks = vec![
        Task::new("first".to_string(), at(10), Some(at(20))),
        Task::new("second".to_string(), at(30), None),
    ];
    let log = TaskLog::from_loaded(Some(tasks));
    assert_eq!(log.len(), 2);
    let back = log.into_tasks();
    assert_eq!(back[0].name, "first");
    assert_eq!(back[0].end_time, Some(at(20)));
    assert_eq!(back[1].name, "second");
    assert!(back[1].is_running());
}
