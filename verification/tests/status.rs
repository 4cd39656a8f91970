use task_core::types::TaskStatus;

#[test]
fn task_status_rejects_invalid_backward_transition() {
    assert!(TaskStatus::can_transition(
        TaskStatus::Queued,
        TaskStatus::Running
    ));
    assert!(!TaskStatus::can_transition(
        TaskStatus::Completed,
        TaskStatus::Running
    ));
}

#[test]
fn task_status_parses_all_known_values() {
    assert_eq!(TaskStatus::parse("queued"), Some(TaskStatus::Queued));
    assert_eq!(TaskStatus::parse("running"), Some(TaskStatus::Running));
    assert_eq!(TaskStatus::parse("blocked"), Some(TaskStatus::Blocked));
    assert_eq!(TaskStatus::parse("completed"), Some(TaskStatus::Completed));
    assert_eq!(TaskStatus::parse("failed"), Some(TaskStatus::Failed));
    assert_eq!(TaskStatus::parse("cancelled"), Some(TaskStatus::Cancelled));
    assert_eq!(TaskStatus::parse("mystery"), None);
}

#[test]
fn task_status_parse_trims_and_folds_case() {
    assert_eq!(TaskStatus::parse("  Queued \n"), Some(TaskStatus::Queued));
    assert_eq!(TaskStatus::parse("RUNNING"), Some(TaskStatus::Running));
    assert_eq!(TaskStatus::parse("\tCanCelled"), Some(TaskStatus::Cancelled));
    assert_eq!(TaskStatus::parse(""), None);
    assert_eq!(TaskStatus::parse("   "), None);
}

#[test]
fn task_status_labels_round_trip_through_parse() {
    for s in [
        TaskStatus::Queued,
        TaskStatus::Running,
        TaskStatus::Blocked,
        TaskStatus::Completed,
        TaskStatus::Failed,
        TaskStatus::Cancelled,
    ] {
        assert_eq!(TaskStatus::parse(s.as_str()), Some(s));
    }
}

#[test]
fn terminal_statuses_admit_no_transitions() {
    let all = [
        TaskStatus::Queued,
        TaskStatus::Running,
        TaskStatus::Blocked,
        TaskStatus::Completed,
        TaskStatus::Failed,
        TaskStatus::Cancelled,
    ];
    for to in all {
        assert!(!TaskStatus::can_transition(TaskStatus::Completed, to));
        assert!(!TaskStatus::can_transition(TaskStatus::Cancelled, to));
    }
    assert!(TaskStatus::Completed.is_terminal());
    assert!(TaskStatus::Failed.is_terminal());
    assert!(TaskStatus::Cancelled.is_terminal());
    assert!(!TaskStatus::Queued.is_terminal());
    assert!(!TaskStatus::Running.is_terminal());
    assert!(!TaskStatus::Blocked.is_terminal());
}

#[test]
fn failed_tasks_may_restart() {
    assert!(TaskStatus::can_transition(
        TaskStatus::Failed,
        TaskStatus::Running
    ));
    assert!(TaskStatus::can_transition(
        TaskStatus::Failed,
        TaskStatus::Failed
    ));
    assert!(!TaskStatus::can_transition(
        TaskStatus::Failed,
        TaskStatus::Completed
    ));
}
