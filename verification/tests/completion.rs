use task_core::completion::{evaluate_completion, ChatMessage, CompletionDecision};

#[test]
fn completion_evaluator_blocks_write_claim_without_evidence() {
    let history = vec![
        ChatMessage::assistant(
            "<tool_call>\n{\"name\":\"file_write\",\"arguments\":{\"path\":\"a.md\",\"content\":\"x\"}}\n</tool_call>",
        ),
        ChatMessage::user(
            "[Tool results]\n<tool_result name=\"file_write\">\nAction blocked: denied\n</tool_result>",
        ),
    ];

    let eval = evaluate_completion("好的，我已经保存到 a.md。", &history);
    assert_eq!(
        eval.decision,
        CompletionDecision::Continue {
            reason: "write_claim_without_post_write_verification".to_string()
        }
    );
    assert!(!eval.saw_successful_write);
    assert!(!eval.saw_post_write_read_after_success);
}

#[test]
fn completion_evaluator_accepts_write_claim_after_post_write_read_verification() {
    let history = vec![
        ChatMessage::assistant(
            "<tool_call>\n{\"name\":\"file_write\",\"arguments\":{\"path\":\"report.md\",\"content\":\"abc\"}}\n</tool_call>",
        ),
        ChatMessage::user(
            "[Tool results]\n<tool_result name=\"file_write\">\nWritten 3 bytes to report.md\n</tool_result>",
        ),
        ChatMessage::assistant(
            "<tool_call>\n{\"name\":\"file_read\",\"arguments\":{\"path\":\"report.md\"}}\n</tool_call>",
        ),
        ChatMessage::user(
            "[Tool results]\n<tool_result name=\"file_read\">\nabc\n</tool_result>",
        ),
    ];

    let eval = evaluate_completion("报告已保存到 report.md。", &history);
    assert_eq!(eval.decision, CompletionDecision::Complete);
    assert!(eval.saw_successful_write);
    assert!(eval.saw_post_write_read_after_success);
}

#[test]
fn completion_evaluator_detects_in_progress_update() {
    let history = vec![ChatMessage::user("帮我继续实现")];
    let eval = evaluate_completion("我正在检查当前文件状态。", &history);
    assert_eq!(
        eval.decision,
        CompletionDecision::Continue {
            reason: "in_progress_update".to_string()
        }
    );
}

#[test]
fn guardrail_notice_always_continues() {
    let eval = evaluate_completion("[Guardrail Notice] something was blocked. done.", &[]);
    assert_eq!(
        eval.decision,
        CompletionDecision::Continue {
            reason: "guardrail_notice".to_string()
        }
    );
}

// Shell tool calls are matched with their results through the pending
// queue: a write-like shell command followed by a successful result, then a
// read-like one, verifies the write claim. This exercises the JSON
// envelope parsing end to end: if the envelope body were not parsed, no
// shell kind would be enqueued and the claim would be blocked.
#[test]
fn shell_write_then_read_results_verify_write_claim() {
    let history = vec![
        ChatMessage::assistant(
            "<tool_call>\n{\"name\":\"shell\",\"arguments\":{\"command\":\"echo hi > notes.txt\"}}\n</tool_call>",
        ),
        ChatMessage::user("<tool_result name=\"shell\">\nok\n</tool_result>"),
        ChatMessage::assistant(
            "<tool_call>\n{\"name\":\"shell\",\"arguments\":{\"command\":\"cat notes.txt\"}}\n</tool_call>",
        ),
        ChatMessage::user("<tool_result name=\"shell\">\nhi\n</tool_result>"),
    ];
    let eval = evaluate_completion("The notes have been saved to notes.txt.", &history);
    assert!(eval.saw_successful_write);
    assert!(eval.saw_post_write_read_after_success);
    assert_eq!(eval.decision, CompletionDecision::Complete);
}

#[test]
fn failing_tool_result_bodies_are_not_evidence() {
    let history = vec![
        ChatMessage::assistant(
            "<tool_call>\n{\"name\":\"file_write\",\"arguments\":{\"path\":\"a.md\"}}\n</tool_call>",
        ),
        ChatMessage::user("<tool_result name=\"file_write\">\npermission denied\n</tool_result>"),
        ChatMessage::assistant(
            "<tool_call>\n{\"name\":\"file_read\",\"arguments\":{\"path\":\"a.md\"}}\n</tool_call>",
        ),
        ChatMessage::user("<tool_result name=\"file_read\">\nabc\n</tool_result>"),
    ];
    let eval = evaluate_completion("ok", &history);
    assert!(!eval.saw_successful_write);
    // A read can never count before a successful write.
    assert!(!eval.saw_post_write_read_after_success);
}

// A successful read that comes before any successful write yields no
// post-write verification.
#[test]
fn read_before_write_is_not_post_write_verification() {
    let history = vec![
        ChatMessage::user("<tool_result name=\"file_read\">\nabc\n</tool_result>"),
        ChatMessage::user("<tool_result name=\"file_write\">\nWritten 3 bytes\n</tool_result>"),
    ];
    let eval = evaluate_completion("ok", &history);
    assert!(eval.saw_successful_write);
    assert!(!eval.saw_post_write_read_after_success);
}

// The evaluator is deterministic: the same reply and history give the same
// verdict, call after call.
#[test]
fn evaluator_is_deterministic() {
    let history = vec![
        ChatMessage::user("帮我继续实现"),
        ChatMessage::assistant("先看看。"),
    ];
    let a = evaluate_completion("我正在检查当前文件状态。", &history);
    let b = evaluate_completion("我正在检查当前文件状态。", &history);
    assert_eq!(a, b);
}

// Extending the history can add evidence but never remove it.
#[test]
fn evidence_is_monotone_under_history_extension() {
    let mut history = vec![
        ChatMessage::user("<tool_result name=\"file_write\">\nWritten 3 bytes\n</tool_result>"),
    ];
    let before = evaluate_completion("ok", &history);
    assert!(before.saw_successful_write);
    history.push(ChatMessage::user(
        "<tool_result name=\"file_read\">\nabc\n</tool_result>",
    ));
    let after = evaluate_completion("ok", &history);
    assert!(after.saw_successful_write);
    assert!(after.saw_post_write_read_after_success);
}

#[test]
fn completion_markers_veto_progress_markers() {
    let eval = evaluate_completion("我正在检查，已完成大部分。", &[]);
    assert_eq!(eval.decision, CompletionDecision::Complete);
}

#[test]
fn malformed_envelopes_are_skipped() {
    let history = vec![
        ChatMessage::assistant("<tool_call>\nnot json at all\n</tool_call>"),
        ChatMessage::user("<tool_result name=\"shell\">\nok\n</tool_result>"),
    ];
    // The queue stays empty, so the shell result defaults to the
    // unclassified kind and yields no write evidence.
    let eval = evaluate_completion("ok", &history);
    assert!(!eval.saw_successful_write);
    assert!(!eval.saw_post_write_read_after_success);
}
