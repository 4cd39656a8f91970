use task_core::store::{StoreError, TaskStore};
use task_core::types::TaskStatus;

#[test]
fn task_store_initializes_schema_and_roundtrips_task_run() {
    let mut store = TaskStore::new();
    let task_id = "task-1";
    store
        .insert_task_run(task_id, "imessage", "sender-a", "sender-a", "draft report")
        .expect("insert task run");

    store
        .update_status(task_id, TaskStatus::Running)
        .expect("mark running");
    store
        .increment_attempt_count(task_id)
        .expect("increment attempts");
    store
        .increment_provider_retry_count(task_id)
        .expect("increment provider retries");
    store
        .set_last_response(task_id, "processing")
        .expect("set last response");
    store
        .append_event(task_id, "started", Some("{\"phase\":\"start\"}"))
        .expect("append event");
    store
        .upsert_artifact_verification(task_id, "report.md", Some("abc123"), true)
        .expect("upsert artifact");

    let row = store.get_task_run(task_id).expect("existing row");
    assert_eq!(row.status, TaskStatus::Running);
    assert_eq!(row.attempt_count, 1);
    assert_eq!(row.provider_retry_count, 1);
    assert_eq!(row.last_response.as_deref(), Some("processing"));

    let events = store.list_events(task_id);
    assert_eq!(events.len(), 1);
    assert_eq!(events[0].event_type, "started");

    let artifacts = store.list_artifacts(task_id);
    assert_eq!(artifacts.len(), 1);
    assert_eq!(artifacts[0].path, "report.md");
    assert!(artifacts[0].verified);
}

#[test]
fn task_store_lists_recoverable_statuses_only() {
    let mut store = TaskStore::new();

    store
        .insert_task_run("queued", "imessage", "sender-1", "sender-1", "req")
        .expect("insert queued");
    store
        .insert_task_run("completed", "imessage", "sender-1", "sender-1", "req")
        .expect("insert completed");
    store
        .update_status("completed", TaskStatus::Completed)
        .expect("complete task");

    let recoverable = store.list_recoverable_tasks();
    let ids: Vec<String> = recoverable.into_iter().map(|r| r.id).collect();
    assert_eq!(ids, vec!["queued".to_string()]);
}

#[test]
fn new_rows_start_queued_with_zeroed_counters() {
    let mut store = TaskStore::new();
    store
        .insert_task_run("t", "ch", "sk", "rt", "do the thing")
        .expect("insert");
    let row = store.get_task_run("t").expect("row");
    assert_eq!(row.status, TaskStatus::Queued);
    assert_eq!(row.attempt_count, 0);
    assert_eq!(row.provider_retry_count, 0);
    assert_eq!(row.last_response, None);
    assert_eq!(row.completed_at, None);
    assert_eq!(row.created_at, row.updated_at);
    assert_eq!(row.channel, "ch");
    assert_eq!(row.sender_key, "sk");
    assert_eq!(row.reply_target, "rt");
    assert_eq!(row.original_request, "do the thing");
}

#[test]
fn duplicate_insert_is_rejected() {
    let mut store = TaskStore::new();
    store
        .insert_task_run("t", "ch", "sk", "rt", "req")
        .expect("first insert");
    assert_eq!(
        store.insert_task_run("t", "ch", "sk", "rt", "req"),
        Err(StoreError::DuplicateId)
    );
}

#[test]
fn missing_rows_surface_not_found() {
    let mut store = TaskStore::new();
    assert_eq!(
        store.update_status("ghost", TaskStatus::Running),
        Err(StoreError::NotFound)
    );
    assert_eq!(
        store.increment_attempt_count("ghost"),
        Err(StoreError::NotFound)
    );
    assert_eq!(
        store.increment_provider_retry_count("ghost"),
        Err(StoreError::NotFound)
    );
    assert_eq!(
        store.set_last_response("ghost", "x"),
        Err(StoreError::NotFound)
    );
    assert_eq!(
        store.append_event("ghost", "started", None),
        Err(StoreError::NotFound)
    );
    assert_eq!(
        store.upsert_artifact_verification("ghost", "p", None, true),
        Err(StoreError::NotFound)
    );
    assert!(store.get_task_run("ghost").is_none());
}

// Reaching a terminal status sets `completed_at`; leaving it clears the
// stamp again.
#[test]
fn completed_at_is_set_exactly_on_terminal_statuses() {
    let mut store = TaskStore::new();
    store
        .insert_task_run("t", "ch", "sk", "rt", "req")
        .expect("insert");
    store.update_status("t", TaskStatus::Running).expect("run");
    assert!(store.get_task_run("t").expect("row").completed_at.is_none());
    store.update_status("t", TaskStatus::Failed).expect("fail");
    assert!(store.get_task_run("t").expect("row").completed_at.is_some());
    store
        .update_status("t", TaskStatus::Running)
        .expect("restart");
    assert!(store.get_task_run("t").expect("row").completed_at.is_none());
    store
        .update_status("t", TaskStatus::Completed)
        .expect("complete");
    assert!(store.get_task_run("t").expect("row").completed_at.is_some());
}

#[test]
fn events_are_kept_in_insertion_order_per_task() {
    let mut store = TaskStore::new();
    store
        .insert_task_run("a", "ch", "sk", "rt", "req")
        .expect("insert a");
    store
        .insert_task_run("b", "ch", "sk", "rt", "req")
        .expect("insert b");
    store.append_event("a", "accepted", None).expect("e1");
    store.append_event("b", "accepted", None).expect("e2");
    store.append_event("a", "started", None).expect("e3");
    store
        .append_event("a", "continue", Some("{\"round\":1}"))
        .expect("e4");

    let events_a = store.list_events("a");
    let types: Vec<&str> = events_a.iter().map(|e| e.event_type.as_str()).collect();
    assert_eq!(types, vec!["accepted", "started", "continue"]);
    assert!(events_a[0].id < events_a[1].id && events_a[1].id < events_a[2].id);
    assert_eq!(events_a[2].payload_json.as_deref(), Some("{\"round\":1}"));

    let events_b = store.list_events("b");
    assert_eq!(events_b.len(), 1);
}

#[test]
fn reverifying_an_artifact_updates_the_existing_row() {
    let mut store = TaskStore::new();
    store
        .insert_task_run("t", "ch", "sk", "rt", "req")
        .expect("insert");
    store
        .upsert_artifact_verification("t", "report.md", None, false)
        .expect("first upsert");
    let first = store.list_artifacts("t");
    assert_eq!(first.len(), 1);
    assert!(!first[0].verified);
    assert!(first[0].verified_at.is_none());

    store
        .upsert_artifact_verification("t", "report.md", Some("abc123"), true)
        .expect("second upsert");
    let second = store.list_artifacts("t");
    assert_eq!(second.len(), 1);
    assert_eq!(second[0].id, first[0].id);
    assert!(second[0].verified);
    assert_eq!(second[0].checksum.as_deref(), Some("abc123"));
    assert!(second[0].verified_at.is_some());

    store
        .upsert_artifact_verification("t", "other.md", None, true)
        .expect("different path");
    assert_eq!(store.list_artifacts("t").len(), 2);
}

#[test]
fn recoverable_list_keeps_creation_order() {
    let mut store = TaskStore::new();
    for id in ["one", "two", "three", "four"] {
        store
            .insert_task_run(id, "ch", "sk", "rt", "req")
            .expect("insert");
    }
    store.update_status("one", TaskStatus::Running).expect("r");
    store.update_status("two", TaskStatus::Cancelled).expect("c");
    store.update_status("three", TaskStatus::Blocked).expect("b");

    let ids: Vec<String> = store
        .list_recoverable_tasks()
        .into_iter()
        .map(|r| r.id)
        .collect();
    assert_eq!(
        ids,
        vec!["one".to_string(), "three".to_string(), "four".to_string()]
    );
}
