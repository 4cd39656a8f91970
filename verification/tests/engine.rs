use task_core::completion::ChatMessage;
use task_core::engine::{
    is_retryable_provider_transport_error, EngineStep, RoundEvent, TaskEngine, TaskEngineConfig,
    TaskRunOutcome,
};
use task_core::types::TaskStatus;

#[test]
fn provider_transport_error_is_classified_retryable() {
    assert!(is_retryable_provider_transport_error(
        "Custom native chat transport error: error sending request for url (https://x)"
    ));
}

#[test]
fn non_transport_errors_are_not_retryable() {
    assert!(!is_retryable_provider_transport_error(
        "model refused the request"
    ));
    assert!(is_retryable_provider_transport_error("Connection reset by peer"));
    assert!(is_retryable_provider_transport_error("request timed out"));
}

/// Drive the engine over a scripted sequence of round events, as the outer
/// loop does.
fn run_scripted(
    engine: &mut TaskEngine,
    history: &mut Vec<ChatMessage>,
    request: &str,
    mut script: Vec<RoundEvent>,
) -> (String, Result<TaskRunOutcome, String>) {
    let task_id = engine
        .create_task("imessage", "sender-a", "sender-a", request)
        .expect("create task");
    let mut st = engine.begin_run(&task_id);
    loop {
        if !engine.round_available(&st) {
            let msg = engine.fail_exhausted(&task_id);
            return (task_id, Err(msg));
        }
        let ev = script.remove(0);
        match engine.advance_run(&task_id, &mut st, ev, history) {
            EngineStep::RunRound => continue,
            EngineStep::Done(outcome) => return (task_id, Ok(outcome)),
            EngineStep::Fail(msg) => return (task_id, Err(msg)),
        }
    }
}

#[test]
fn run_task_continues_on_progress_reply_without_user_followup() {
    let mut engine = TaskEngine::new(TaskEngineConfig {
        max_continuation_rounds: 4,
        provider_retry_limit: 0,
    });
    let mut history = vec![
        ChatMessage::system("system"),
        ChatMessage::user("请继续处理这个任务"),
    ];
    let (task_id, result) = run_scripted(
        &mut engine,
        &mut history,
        "请继续处理这个任务",
        vec![
            RoundEvent::Response("我正在检查当前文件状态。".to_string()),
            RoundEvent::Response("任务已完成。".to_string()),
        ],
    );
    let outcome = result.expect("task should complete");
    assert_eq!(outcome.final_response, "任务已完成。");
    assert_eq!(outcome.task_id, task_id);

    let row = engine.store().get_task_run(&task_id).expect("task exists");
    assert_eq!(row.status.as_str(), "completed");
    assert!(row.attempt_count >= 2);
}

#[test]
fn run_task_retries_transport_error_then_succeeds() {
    let mut engine = TaskEngine::new(TaskEngineConfig {
        max_continuation_rounds: 2,
        provider_retry_limit: 1,
    });
    let mut history = vec![ChatMessage::system("sys"), ChatMessage::user("hi")];
    let (task_id, result) = run_scripted(
        &mut engine,
        &mut history,
        "hi",
        vec![
            RoundEvent::Failure(
                "Custom native chat transport error: error sending request for url (https://x)"
                    .to_string(),
            ),
            RoundEvent::Response("done".to_string()),
        ],
    );
    let outcome = result.expect("task should complete after retry");
    assert_eq!(outcome.final_response, "done");

    let row = engine.store().get_task_run(&task_id).expect("task exists");
    assert!(row.provider_retry_count >= 1);
    assert_eq!(row.status.as_str(), "completed");
}

#[test]
fn non_retryable_provider_error_fails_the_task() {
    let mut engine = TaskEngine::new(TaskEngineConfig {
        max_continuation_rounds: 2,
        provider_retry_limit: 2,
    });
    let mut history = vec![ChatMessage::user("hi")];
    let (task_id, result) = run_scripted(
        &mut engine,
        &mut history,
        "hi",
        vec![RoundEvent::Failure("model refused the request".to_string())],
    );
    assert_eq!(result.unwrap_err(), "model refused the request");
    let row = engine.store().get_task_run(&task_id).expect("task exists");
    assert_eq!(row.status, TaskStatus::Failed);
    let events = engine.store().list_events(&task_id);
    let last = events.last().expect("events");
    assert_eq!(last.event_type, "failed");
    assert!(last
        .payload_json
        .as_deref()
        .expect("payload")
        .contains("provider_error"));
}

#[test]
fn stall_after_three_progress_replies() {
    let mut engine = TaskEngine::new(TaskEngineConfig {
        max_continuation_rounds: 8,
        provider_retry_limit: 0,
    });
    let mut history = vec![ChatMessage::user("继续")];
    let (task_id, result) = run_scripted(
        &mut engine,
        &mut history,
        "继续",
        vec![
            RoundEvent::Response("我正在检查。".to_string()),
            RoundEvent::Response("我正在检查。".to_string()),
            RoundEvent::Response("我正在检查。".to_string()),
        ],
    );
    assert_eq!(
        result.unwrap_err(),
        "Task stalled in repeated progress-only replies"
    );
    let row = engine.store().get_task_run(&task_id).expect("task exists");
    assert_eq!(row.status, TaskStatus::Failed);
    let events = engine.store().list_events(&task_id);
    let last = events.last().expect("events");
    assert_eq!(last.event_type, "failed");
    assert_eq!(
        last.payload_json.as_deref(),
        Some("{\"reason\":\"stalled_loop\"}")
    );
    assert_eq!(row.attempt_count, 3);
}

#[test]
fn exhaustion_after_max_continuation_rounds() {
    let mut engine = TaskEngine::new(TaskEngineConfig {
        max_continuation_rounds: 1,
        provider_retry_limit: 0,
    });
    let mut history = vec![ChatMessage::user("go")];
    let (task_id, result) = run_scripted(
        &mut engine,
        &mut history,
        "go",
        vec![RoundEvent::Response(
            "[Guardrail Notice] blocked for now".to_string(),
        )],
    );
    assert_eq!(
        result.unwrap_err(),
        "Task exceeded max continuation rounds (1)"
    );
    let row = engine.store().get_task_run(&task_id).expect("task exists");
    assert_eq!(row.status, TaskStatus::Failed);
    let events = engine.store().list_events(&task_id);
    let last = events.last().expect("events");
    assert_eq!(last.event_type, "failed");
    assert_eq!(
        last.payload_json.as_deref(),
        Some("{\"reason\":\"max_continuation_rounds_exhausted\"}")
    );
}

#[test]
fn zero_round_budget_exhausts_before_any_round() {
    let mut engine = TaskEngine::new(TaskEngineConfig {
        max_continuation_rounds: 0,
        provider_retry_limit: 0,
    });
    let mut history = vec![ChatMessage::user("go")];
    let (task_id, result) = run_scripted(&mut engine, &mut history, "go", vec![]);
    assert_eq!(
        result.unwrap_err(),
        "Task exceeded max continuation rounds (0)"
    );
    let row = engine.store().get_task_run(&task_id).expect("task exists");
    assert_eq!(row.status, TaskStatus::Failed);
    assert_eq!(row.attempt_count, 0);
}

// The event log mirrors the engine's decision sequence: acceptance, start,
// then one decision event per round, with the round number in the payload.
#[test]
fn event_log_mirrors_decision_sequence() {
    let mut engine = TaskEngine::new(TaskEngineConfig {
        max_continuation_rounds: 4,
        provider_retry_limit: 0,
    });
    let mut history = vec![ChatMessage::user("请继续处理这个任务")];
    let (task_id, result) = run_scripted(
        &mut engine,
        &mut history,
        "请继续处理这个任务",
        vec![
            RoundEvent::Response("我正在检查当前文件状态。".to_string()),
            RoundEvent::Response("任务已完成。".to_string()),
        ],
    );
    result.expect("completes");
    let events = engine.store().list_events(&task_id);
    let types: Vec<&str> = events.iter().map(|e| e.event_type.as_str()).collect();
    assert_eq!(types, vec!["accepted", "started", "continue", "completed"]);
    assert_eq!(
        events[2].payload_json.as_deref(),
        Some("{\"reason\":\"in_progress_update\",\"round\":1}")
    );
    assert_eq!(events[3].payload_json.as_deref(), Some("{\"round\":2}"));
}

// The retry event carries the attempt number and the escaped error text.
#[test]
fn provider_retry_event_payload_escapes_the_error() {
    let mut engine = TaskEngine::new(TaskEngineConfig {
        max_continuation_rounds: 2,
        provider_retry_limit: 1,
    });
    let mut history = vec![ChatMessage::user("hi")];
    let (task_id, result) = run_scripted(
        &mut engine,
        &mut history,
        "hi",
        vec![
            RoundEvent::Failure("transport error: \"reset\"\nretrying".to_string()),
            RoundEvent::Response("done".to_string()),
        ],
    );
    result.expect("completes after retry");
    let events = engine.store().list_events(&task_id);
    let retry = events
        .iter()
        .find(|e| e.event_type == "provider_retry")
        .expect("retry event");
    assert_eq!(
        retry.payload_json.as_deref(),
        Some("{\"attempt\":1,\"error\":\"transport error: \\\"reset\\\"\\nretrying\"}")
    );
}

// A verified write observed in the history is recorded once, as the
// sentinel artifact and a `tool_write_verified` event.
#[test]
fn post_write_read_evidence_records_the_sentinel_artifact() {
    let mut engine = TaskEngine::new(TaskEngineConfig {
        max_continuation_rounds: 4,
        provider_retry_limit: 0,
    });
    let mut history = vec![
        ChatMessage::user("写个报告"),
        ChatMessage::assistant(
            "<tool_call>\n{\"name\":\"file_write\",\"arguments\":{\"path\":\"report.md\",\"content\":\"abc\"}}\n</tool_call>",
        ),
        ChatMessage::user(
            "[Tool results]\n<tool_result name=\"file_write\">\nWritten 3 bytes to report.md\n</tool_result>",
        ),
        ChatMessage::assistant(
            "<tool_call>\n{\"name\":\"file_read\",\"arguments\":{\"path\":\"report.md\"}}\n</tool_call>",
        ),
        ChatMessage::user(
            "[Tool results]\n<tool_result name=\"file_read\">\nabc\n</tool_result>",
        ),
    ];
    let (task_id, result) = run_scripted(
        &mut engine,
        &mut history,
        "写个报告",
        vec![RoundEvent::Response("报告已保存到 report.md。".to_string())],
    );
    let outcome = result.expect("completes");
    assert!(outcome.write_verified);
    let artifacts = engine.store().list_artifacts(&task_id);
    assert_eq!(artifacts.len(), 1);
    assert_eq!(artifacts[0].path, "__history_verified__");
    assert!(artifacts[0].verified);
    let events = engine.store().list_events(&task_id);
    assert!(events.iter().any(|e| e.event_type == "tool_write_verified"));
}

#[test]
fn fresh_task_ids_have_uuid_shape() {
    let mut engine = TaskEngine::default_for_workspace();
    let a = engine
        .create_task("ch", "sk", "rt", "one")
        .expect("create a");
    let b = engine
        .create_task("ch", "sk", "rt", "two")
        .expect("create b");
    assert_eq!(a.chars().count(), 36);
    assert_eq!(b.chars().count(), 36);
    assert_ne!(a, b);
    let row = engine.store().get_task_run(&a).expect("row");
    assert_eq!(row.status, TaskStatus::Queued);
}
