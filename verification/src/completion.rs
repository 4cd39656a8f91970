//! The completion evaluator: given the latest assistant reply and the full
//! chat history, decide whether the task is genuinely complete or must
//! continue, and report the write/read evidence found in the transcript.

use vstd::prelude::*;
use vstd::string::*;

use crate::phrases::{in_progress_update, is_in_progress_update, is_write_claim, write_claim};
use crate::scan::{
    apply_results, assistant_kinds, collect_assistant_kinds, lemma_apply_results_monotone,
    lemma_apply_results_read_implies_write, results_from, apply_user_results, Evidence,
    ShellKind,
};
use crate::text::{contains_seq, str_contains, str_eq};

verus! {

/// One chat message: a role (`system`, `user`, `assistant`, others are
/// ignored) and its text content.
#[derive(Debug, PartialEq, Eq)]
pub struct ChatMessage {
    pub role: String,
    pub content: String,
}

impl ChatMessage {
    pub fn new(role: &str, content: &str) -> (m: ChatMessage)
        ensures
            m.role@ == role@,
            m.content@ == content@,
    {
        ChatMessage { role: String::from_str(role), content: String::from_str(content) }
    }

    pub fn system(content: &str) -> (m: ChatMessage)
        ensures
            m.role@ == "system"@,
            m.content@ == content@,
    {
        ChatMessage::new("system", content)
    }

    pub fn user(content: &str) -> (m: ChatMessage)
        ensures
            m.role@ == "user"@,
            m.content@ == content@,
    {
        ChatMessage::new("user", content)
    }

    pub fn assistant(content: &str) -> (m: ChatMessage)
        ensures
            m.role@ == "assistant"@,
            m.content@ == content@,
    {
        ChatMessage::new("assistant", content)
    }
}

impl Clone for ChatMessage {
    fn clone(&self) -> (other: Self)
        ensures
            other == *self,
    {
        ChatMessage { role: self.role.clone(), content: self.content.clone() }
    }
}

/// The evaluator's verdict on one reply.
#[derive(Clone, Debug, PartialEq, Eq)]
pub enum CompletionDecision {
    Complete,
    Continue { reason: String },
}

/// The verdict together with the transcript evidence that produced it.
#[derive(Clone, Debug, PartialEq, Eq)]
pub struct CompletionEvaluation {
    pub decision: CompletionDecision,
    pub saw_successful_write: bool,
    pub saw_post_write_read_after_success: bool,
}

/// A decision as the reason it carries: `None` for `Complete`.
pub open spec fn decision_view(d: CompletionDecision) -> Option<Seq<char>> {
    match d {
        CompletionDecision::Complete => None,
        CompletionDecision::Continue { reason } => Some(reason@),
    }
}

/// One message's effect on the evidence: an assistant message enqueues its
/// pending shell kinds; a user message folds its tool results in; any other
/// role is ignored.
pub open spec fn step_message(st: Evidence, m: ChatMessage) -> Evidence {
    if m.role@ == "assistant"@ {
        Evidence {
            queue: st.queue + assistant_kinds(m.content@),
            saw_write: st.saw_write,
            saw_read: st.saw_read,
        }
    } else if m.role@ == "user"@ {
        apply_results(st, results_from(m.content@, 0))
    } else {
        st
    }
}

/// The evidence after walking the whole history in order.
pub open spec fn scan_history(h: Seq<ChatMessage>) -> Evidence
    decreases h.len(),
{
    if h.len() == 0 {
        Evidence::initial()
    } else {
        step_message(scan_history(h.drop_last()), h.last())
    }
}

/// The decision rules, in order: a guardrail notice always continues; a
/// write claim without post-write read verification continues; a
/// progress-only update continues; anything else is complete. The value is
/// the continuation reason, `None` meaning `Complete`.
pub open spec fn spec_decision(response: Seq<char>, h: Seq<ChatMessage>) -> Option<Seq<char>> {
    if contains_seq(response, "[Guardrail Notice]"@) {
        Some("guardrail_notice"@)
    } else if is_write_claim(response) && !scan_history(h).saw_read {
        Some("write_claim_without_post_write_verification"@)
    } else if is_in_progress_update(response) {
        Some("in_progress_update"@)
    } else {
        None
    }
}

/// Decide whether the reply completes the task, from the reply text and the
/// ordered chat history alone.
pub fn evaluate_completion(response_text: &str, history: &[ChatMessage]) -> (r:
    CompletionEvaluation)
    ensures
        r.saw_successful_write == scan_history(history@).saw_write,
        r.saw_post_write_read_after_success == scan_history(history@).saw_read,
        decision_view(r.decision) == spec_decision(response_text@, history@),
{
    let n = history.len();
    let mut queue: Vec<ShellKind> = Vec::new();
    let mut saw_write = false;
    let mut saw_read = false;
    let mut i: usize = 0;
    while i < n
        invariant
            0 <= i <= n,
            n == history@.len(),
            (Evidence { queue: queue@, saw_write: saw_write, saw_read: saw_read })
                == scan_history(history@.take(i as int)),
        decreases n - i,
    {
        let m = vstd::slice::slice_index_get(history, i);
        let ghost st = Evidence { queue: queue@, saw_write: saw_write, saw_read: saw_read };
        if str_eq(m.role.as_str(), "assistant") {
            collect_assistant_kinds(m.content.as_str(), &mut queue);
        } else if str_eq(m.role.as_str(), "user") {
            apply_user_results(m.content.as_str(), &mut queue, &mut saw_write, &mut saw_read);
        }
        proof {
            assert(history@.take(i + 1).drop_last() =~= history@.take(i as int));
            assert(history@.take(i + 1).last() == history@[i as int]);
            assert((Evidence { queue: queue@, saw_write: saw_write, saw_read: saw_read })
                == step_message(st, history@[i as int]));
        }
        i += 1;
    }
    proof {
        assert(history@.take(n as int) =~= history@);
    }
    let decision = if str_contains(response_text, "[Guardrail Notice]") {
        CompletionDecision::Continue { reason: String::from_str("guardrail_notice") }
    } else if write_claim(response_text) && !saw_read {
        CompletionDecision::Continue {
            reason: String::from_str("write_claim_without_post_write_verification"),
        }
    } else if in_progress_update(response_text) {
        CompletionDecision::Continue { reason: String::from_str("in_progress_update") }
    } else {
        CompletionDecision::Complete
    };
    CompletionEvaluation {
        decision,
        saw_successful_write: saw_write,
        saw_post_write_read_after_success: saw_read,
    }
}

/// Post-write read evidence cannot exist without an earlier successful
/// write: whenever the scan reports `saw_read`, it also reports
/// `saw_write`.
pub proof fn lemma_read_evidence_needs_write(h: Seq<ChatMessage>)
    ensures
        scan_history(h).saw_read ==> scan_history(h).saw_write,
    decreases h.len(),
{
    if h.len() > 0 {
        lemma_read_evidence_needs_write(h.drop_last());
        let st = scan_history(h.drop_last());
        let m = h.last();
        if m.role@ == "user"@ {
            lemma_apply_results_read_implies_write(st, results_from(m.content@, 0));
        }
    }
}

/// Extending the history can only add write/read evidence, never remove
/// it.
pub proof fn lemma_evidence_monotone(h: Seq<ChatMessage>, ext: Seq<ChatMessage>)
    ensures
        scan_history(h).saw_write ==> scan_history(h + ext).saw_write,
        scan_history(h).saw_read ==> scan_history(h + ext).saw_read,
    decreases ext.len(),
{
    if ext.len() == 0 {
        assert(h + ext =~= h);
    } else {
        lemma_evidence_monotone(h, ext.drop_last());
        assert((h + ext).drop_last() =~= h + ext.drop_last());
        assert((h + ext).last() == ext.last());
        let st = scan_history(h + ext.drop_last());
        let m = ext.last();
        if m.role@ == "user"@ {
            lemma_apply_results_monotone(st, results_from(m.content@, 0));
        }
    }
}

/// The evaluator is deterministic: any two evaluations of the same reply
/// against the same history agree, flag for flag and decision for
/// decision.
pub proof fn lemma_evaluator_deterministic(
    response: Seq<char>,
    h: Seq<ChatMessage>,
    e1: CompletionEvaluation,
    e2: CompletionEvaluation,
)
    requires
        e1.saw_successful_write == scan_history(h).saw_write,
        e1.saw_post_write_read_after_success == scan_history(h).saw_read,
        decision_view(e1.decision) == spec_decision(response, h),
        e2.saw_successful_write == scan_history(h).saw_write,
        e2.saw_post_write_read_after_success == scan_history(h).saw_read,
        decision_view(e2.decision) == spec_decision(response, h),
    ensures
        e1.saw_successful_write == e2.saw_successful_write,
        e1.saw_post_write_read_after_success == e2.saw_post_write_read_after_success,
        decision_view(e1.decision) == decision_view(e2.decision),
{
}

} // verus!
