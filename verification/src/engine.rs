//! The task engine: the bounded continuation loop's decision core. The
//! caller owns the round trip to the model; the engine owns everything
//! decidable from the reply or the error alone — retry classification,
//! completion evaluation, stall and exhaustion detection, the nudge, and
//! every store mutation and event record on the way.

use vstd::prelude::*;
use vstd::string::*;

use crate::completion::{
    evaluate_completion, scan_history, spec_decision, ChatMessage, CompletionDecision,
};
use crate::host::fresh_task_id;
use crate::jsontext::{
    dec_digits, json_obj_attempt_error, json_obj_reason, json_obj_reason_error,
    json_obj_reason_round, json_obj_round, payload_attempt_error, payload_reason,
    payload_reason_error, payload_reason_round, payload_round, usize_to_string,
};
use crate::phrases::{is_retryable_transport, retryable_transport};
use crate::store::{StoreError, TaskStore};
use crate::types::{TaskEventRecord, TaskRunRecord, TaskStatus};

verus! {

/// Bounds for the continuation loop.
#[derive(Clone, Copy, Debug, PartialEq, Eq, Structural)]
pub struct TaskEngineConfig {
    pub max_continuation_rounds: usize,
    pub provider_retry_limit: usize,
}

impl Default for TaskEngineConfig {
    fn default() -> (c: Self)
        ensures
            c.max_continuation_rounds == 4,
            c.provider_retry_limit == 2,
    {
        TaskEngineConfig { max_continuation_rounds: 4, provider_retry_limit: 2 }
    }
}

/// What a finished run hands back.
#[derive(Clone, Debug)]
pub struct TaskRunOutcome {
    pub task_id: String,
    pub final_response: String,
    pub write_verified: bool,
}

/// What one round of the outer loop produced: the reply text, or the
/// rendered error.
#[derive(Clone, Debug)]
pub enum RoundEvent {
    Response(String),
    Failure(String),
}

/// What the caller should do next: run another round, or stop with the
/// outcome or the error message.
#[derive(Clone, Debug)]
pub enum EngineStep {
    RunRound,
    Done(TaskRunOutcome),
    Fail(String),
}

/// The loop bookkeeping carried between rounds.
#[derive(Clone, Copy, Debug, PartialEq, Eq, Structural)]
pub struct RunState {
    pub round: usize,
    pub round_attempt: usize,
    pub write_verified: bool,
    pub consecutive_progress_only: usize,
}

/// `+1` saturating at the counter's top, as the store bumps counters.
pub open spec fn sat_inc(n: u32) -> int {
    if n < u32::MAX {
        n + 1
    } else {
        n as int
    }
}

/// The event record carries the given task id, type, and payload.
pub open spec fn event_is(
    e: TaskEventRecord,
    id: Seq<char>,
    etype: Seq<char>,
    payload: Option<Seq<char>>,
) -> bool {
    &&& e.task_id@ == id
    &&& e.event_type@ == etype
    &&& (match payload {
        Option::None => e.payload_json is None,
        Option::Some(p) => e.payload_json is Some && e.payload_json->0@ == p,
    })
}

/// The row's identifying fields are untouched.
pub open spec fn row_identity_kept(prev: TaskRunRecord, row: TaskRunRecord) -> bool {
    &&& row.id == prev.id
    &&& row.channel == prev.channel
    &&& row.sender_key == prev.sender_key
    &&& row.reply_target == prev.reply_target
    &&& row.original_request == prev.original_request
    &&& row.created_at == prev.created_at
}

/// Only the row at `k` may differ.
pub open spec fn rows_updated_at(
    rows0: Seq<TaskRunRecord>,
    rows1: Seq<TaskRunRecord>,
    k: int,
) -> bool {
    &&& rows1.len() == rows0.len()
    &&& forall|j: int| 0 <= j < rows0.len() && j != k ==> rows1[j] == rows0[j]
}

/// The row records a fresh reply: attempt bumped, reply stored, retry
/// count kept, and the given status written with `completed_at` exactly on
/// terminal statuses.
pub open spec fn response_row_written(
    prev: TaskRunRecord,
    row: TaskRunRecord,
    text: Seq<char>,
    status: TaskStatus,
) -> bool {
    &&& row_identity_kept(prev, row)
    &&& row.attempt_count == sat_inc(prev.attempt_count)
    &&& row.provider_retry_count == prev.provider_retry_count
    &&& row.last_response is Some
    &&& row.last_response->0@ == text
    &&& row.status == status
    &&& (row.completed_at is Some <==> status.spec_is_terminal())
}

/// Exactly one event, with the given type and payload, joins the log.
pub open spec fn events_appended1(
    evs0: Seq<TaskEventRecord>,
    evs1: Seq<TaskEventRecord>,
    id: Seq<char>,
    etype: Seq<char>,
    payload: Option<Seq<char>>,
) -> bool {
    &&& evs1.len() == evs0.len() + 1
    &&& evs1 == evs0.push(evs1.last())
    &&& event_is(evs1.last(), id, etype, payload)
}

/// Exactly two events join the log, in the given order.
pub open spec fn events_appended2(
    evs0: Seq<TaskEventRecord>,
    evs1: Seq<TaskEventRecord>,
    id: Seq<char>,
    etype1: Seq<char>,
    payload1: Option<Seq<char>>,
    etype2: Seq<char>,
    payload2: Option<Seq<char>>,
) -> bool {
    &&& evs1.len() == evs0.len() + 2
    &&& evs1 == evs0.push(evs1[evs1.len() - 2]).push(evs1.last())
    &&& event_is(evs1[evs1.len() - 2], id, etype1, payload1)
    &&& event_is(evs1.last(), id, etype2, payload2)
}

/// The error text a stalled run surfaces.
pub open spec fn stall_message() -> Seq<char> {
    "Task stalled in repeated progress-only replies"@
}

/// The error text an exhausted run surfaces.
pub open spec fn exhausted_message(n: nat) -> Seq<char> {
    "Task exceeded max continuation rounds ("@ + dec_digits(n) + ")"@
}

/// The user-role message the engine appends after a non-complete reply.
pub open spec fn nudge_message() -> Seq<char> {
    "[Task Engine]\n任务尚未完成。请继续执行必要的工具操作并在有可验证结果后再给最终答复。不要仅汇报进行中状态。"@
}

/// A rendered provider error that the engine retries.
pub fn is_retryable_provider_transport_error(err: &str) -> (r: bool)
    ensures
        r == is_retryable_transport(err@),
{
    retryable_transport(err)
}

/// The engine: the store plus the loop bounds.
pub struct TaskEngine {
    store: TaskStore,
    cfg: TaskEngineConfig,
}

impl TaskEngine {
    pub closed spec fn store_view(self) -> TaskStore {
        self.store
    }

    pub closed spec fn config(self) -> TaskEngineConfig {
        self.cfg
    }

    pub open spec fn wf(self) -> bool {
        self.store_view().wf()
    }

    /// The store knows the task and has id room for this step's events and
    /// artifacts.
    pub open spec fn ready(self, id: Seq<char>, events_needed: int, artifacts_needed: int) -> bool {
        &&& self.store_view().has_task(id)
        &&& self.store_view().event_id_bound() + events_needed <= i64::MAX
        &&& self.store_view().artifact_id_bound() + artifacts_needed <= i64::MAX
    }

    pub fn new(cfg: TaskEngineConfig) -> (e: TaskEngine)
        ensures
            e.wf(),
            e.config() == cfg,
            e.store_view().task_rows() == Seq::<TaskRunRecord>::empty(),
            e.store_view().event_rows().len() == 0,
            e.store_view().artifact_rows().len() == 0,
            e.store_view().event_id_space_left(),
            e.store_view().artifact_id_space_left(),
    {
        TaskEngine { store: TaskStore::new(), cfg }
    }

    /// An engine over a fresh store with the default bounds.
    pub fn default_for_workspace() -> (e: TaskEngine)
        ensures
            e.wf(),
            e.config().max_continuation_rounds == 4,
            e.config().provider_retry_limit == 2,
            e.store_view().task_rows() == Seq::<TaskRunRecord>::empty(),
            e.store_view().event_rows().len() == 0,
            e.store_view().artifact_rows().len() == 0,
            e.store_view().event_id_space_left(),
            e.store_view().artifact_id_space_left(),
    {
        TaskEngine::new(TaskEngineConfig::default())
    }

    /// The engine's configured bounds.
    pub fn configuration(&self) -> (c: TaskEngineConfig)
        ensures
            c == self.config(),
    {
        self.cfg
    }

    /// Read access to the store for callers and recovery queries.
    pub fn store(&self) -> (s: &TaskStore)
        ensures
            *s == self.store_view(),
    {
        &self.store
    }

    /// Create a task: a fresh opaque id, a `Queued` row, and a best-effort
    /// `accepted` event. Fails only if the fresh id collides with an
    /// existing row.
    pub fn create_task(
        &mut self,
        channel: &str,
        sender_key: &str,
        reply_target: &str,
        original_request: &str,
    ) -> (r: Result<String, StoreError>)
        requires
            old(self).wf(),
        ensures
            final(self).wf(),
            final(self).config() == old(self).config(),
            match r {
                Result::Err(e) => e == StoreError::DuplicateId && *final(self) == *old(self),
                Result::Ok(id) => {
                    &&& !old(self).store_view().has_task(id@)
                    &&& final(self).store_view().task_rows().len() == old(self).store_view().task_rows().len() + 1
                    &&& final(self).store_view().task_rows().drop_last() == old(self).store_view().task_rows()
                    &&& final(self).store_view().task_rows().last().id@ == id@
                    &&& final(self).store_view().task_rows().last().channel@ == channel@
                    &&& final(self).store_view().task_rows().last().sender_key@ == sender_key@
                    &&& final(self).store_view().task_rows().last().reply_target@ == reply_target@
                    &&& final(self).store_view().task_rows().last().original_request@
                        == original_request@
                    &&& final(self).store_view().task_rows().last().status == TaskStatus::Queued
                    &&& final(self).store_view().task_rows().last().attempt_count == 0
                    &&& final(self).store_view().task_rows().last().provider_retry_count == 0
                    &&& final(self).store_view().task_rows().last().completed_at is None
                    &&& old(self).store_view().event_id_space_left() ==> events_appended1(
                        old(self).store_view().events_for(id@),
                        final(self).store_view().events_for(id@),
                        id@,
                        "accepted"@,
                        None,
                    )
                    &&& final(self).store_view().artifact_rows() == old(self).store_view().artifact_rows()
                },
            },
    {
        let id = fresh_task_id();
        match self.store.insert_task_run(&id, channel, sender_key, reply_target, original_request) {
            Err(e) => {
                return Err(e);
            },
            Ok(()) => {},
        }
        proof {
            let rows = self.store_view().task_rows();
            self.store_view().lemma_task_index_agrees(id@, rows.len() - 1);
        }
        let _ = self.store.append_event(id.as_str(), "accepted", None);
        Ok(id)
    }

    /// Move the task into `Running` and record `started`, as the start of
    /// a fresh run; missing rows are tolerated best-effort.
    pub fn begin_run(&mut self, task_id: &str) -> (st: RunState)
        requires
            old(self).wf(),
        ensures
            final(self).wf(),
            final(self).config() == old(self).config(),
            st == (RunState {
                round: 0,
                round_attempt: 0,
                write_verified: false,
                consecutive_progress_only: 0,
            }),
            !old(self).store_view().has_task(task_id@) ==> *final(self) == *old(self),
            old(self).ready(task_id@, 1, 0) ==> {
                let k = old(self).store_view().task_index(task_id@);
                let rows0 = old(self).store_view().task_rows();
                let rows1 = final(self).store_view().task_rows();
                &&& rows_updated_at(rows0, rows1, k)
                &&& row_identity_kept(rows0[k], rows1[k])
                &&& rows1[k].status == TaskStatus::Running
                &&& rows1[k].completed_at is None
                &&& rows1[k].attempt_count == rows0[k].attempt_count
                &&& rows1[k].provider_retry_count == rows0[k].provider_retry_count
                &&& rows1[k].last_response == rows0[k].last_response
                &&& events_appended1(
                    old(self).store_view().events_for(task_id@),
                    final(self).store_view().events_for(task_id@),
                    task_id@,
                    "started"@,
                    None,
                )
                &&& final(self).store_view().artifact_rows() == old(self).store_view().artifact_rows()
            },
    {
        let _ = self.store.update_status(task_id, TaskStatus::Running);
        proof {
            if old(self).store_view().has_task(task_id@) {
                let k = old(self).store_view().task_index(task_id@);
                self.store_view().lemma_task_index_agrees(task_id@, k);
            }
        }
        let _ = self.store.append_event(task_id, "started", None);
        RunState { round: 0, round_attempt: 0, write_verified: false, consecutive_progress_only: 0 }
    }

    /// Whether another round fits under the configured bound.
    pub fn round_available(&self, st: &RunState) -> (b: bool)
        ensures
            b == (st.round < self.config().max_continuation_rounds),
    {
        st.round < self.cfg.max_continuation_rounds
    }

    /// Mark the task `Failed` and append a `failed` event with the given
    /// payload, best-effort.
    fn mark_failed(&mut self, task_id: &str, payload: &str)
        requires
            old(self).wf(),
        ensures
            final(self).wf(),
            final(self).config() == old(self).config(),
            !old(self).store_view().has_task(task_id@) ==> *final(self) == *old(self),
            old(self).ready(task_id@, 1, 0) ==> {
                let k = old(self).store_view().task_index(task_id@);
                let rows0 = old(self).store_view().task_rows();
                let rows1 = final(self).store_view().task_rows();
                &&& rows_updated_at(rows0, rows1, k)
                &&& row_identity_kept(rows0[k], rows1[k])
                &&& rows1[k].status == TaskStatus::Failed
                &&& rows1[k].completed_at is Some
                &&& rows1[k].attempt_count == rows0[k].attempt_count
                &&& rows1[k].provider_retry_count == rows0[k].provider_retry_count
                &&& rows1[k].last_response == rows0[k].last_response
                &&& events_appended1(
                    old(self).store_view().events_for(task_id@),
                    final(self).store_view().events_for(task_id@),
                    task_id@,
                    "failed"@,
                    Some(payload@),
                )
                &&& final(self).store_view().artifact_rows() == old(self).store_view().artifact_rows()
            },
    {
        let _ = self.store.update_status(task_id, TaskStatus::Failed);
        proof {
            if old(self).store_view().has_task(task_id@) {
                let k = old(self).store_view().task_index(task_id@);
                self.store_view().lemma_task_index_agrees(task_id@, k);
            }
        }
        let _ = self.store.append_event(task_id, "failed", Some(payload));
    }

    /// Fail the task for running out of continuation rounds, returning the
    /// error message the caller surfaces.
    pub fn fail_exhausted(&mut self, task_id: &str) -> (msg: String)
        requires
            old(self).wf(),
        ensures
            final(self).wf(),
            final(self).config() == old(self).config(),
            msg@ == exhausted_message(old(self).config().max_continuation_rounds as nat),
            !old(self).store_view().has_task(task_id@) ==> *final(self) == *old(self),
            old(self).ready(task_id@, 1, 0) ==> {
                let k = old(self).store_view().task_index(task_id@);
                let rows0 = old(self).store_view().task_rows();
                let rows1 = final(self).store_view().task_rows();
                &&& rows_updated_at(rows0, rows1, k)
                &&& row_identity_kept(rows0[k], rows1[k])
                &&& rows1[k].status == TaskStatus::Failed
                &&& rows1[k].completed_at is Some
                &&& rows1[k].attempt_count == rows0[k].attempt_count
                &&& rows1[k].provider_retry_count == rows0[k].provider_retry_count
                &&& rows1[k].last_response == rows0[k].last_response
                &&& events_appended1(
                    old(self).store_view().events_for(task_id@),
                    final(self).store_view().events_for(task_id@),
                    task_id@,
                    "failed"@,
                    Some(json_obj_reason("max_continuation_rounds_exhausted"@)),
                )
                &&& final(self).store_view().artifact_rows() == old(self).store_view().artifact_rows()
            },
    {
        let payload = payload_reason("max_continuation_rounds_exhausted");
        self.mark_failed(task_id, payload.as_str());
        let mut msg = String::from_str("Task exceeded max continuation rounds (");
        let num = usize_to_string(self.cfg.max_continuation_rounds);
        msg.append(num.as_str());
        msg.append(")");
        msg
    }

    /// Fold one round's event into the run: classify and retry transport
    /// failures, record the attempt and the reply, evaluate completion,
    /// record first-time write verification, and branch into completion,
    /// continuation with a nudge, stall, or exhaustion.
    pub fn advance_run(
        &mut self,
        task_id: &str,
        st: &mut RunState,
        ev: RoundEvent,
        history: &mut Vec<ChatMessage>,
    ) -> (step: EngineStep)
        requires
            old(self).wf(),
            old(st).round < old(self).config().max_continuation_rounds,
            old(st).consecutive_progress_only < 3,
            old(st).round_attempt <= old(self).config().provider_retry_limit,
        ensures
            final(self).wf(),
            final(self).config() == old(self).config(),
            match ev {
                RoundEvent::Failure(msg) => {
                    if is_retryable_transport(msg@) && old(st).round_attempt < old(self).config().provider_retry_limit {
                        &&& step is RunRound
                        &&& *final(st) == (RunState {
                            round_attempt: (old(st).round_attempt + 1) as usize,
                            ..*old(st)
                        })
                        &&& final(history)@ == old(history)@
                        &&& !old(self).store_view().has_task(task_id@) ==> *final(self) == *old(self)
                        &&& old(self).ready(task_id@, 1, 0) ==> {
                            let k = old(self).store_view().task_index(task_id@);
                            let rows0 = old(self).store_view().task_rows();
                            let rows1 = final(self).store_view().task_rows();
                            &&& rows_updated_at(rows0, rows1, k)
                            &&& row_identity_kept(rows0[k], rows1[k])
                            &&& rows1[k].provider_retry_count == sat_inc(
                                rows0[k].provider_retry_count,
                            )
                            &&& rows1[k].attempt_count == rows0[k].attempt_count
                            &&& rows1[k].status == rows0[k].status
                            &&& rows1[k].last_response == rows0[k].last_response
                            &&& events_appended1(
                                old(self).store_view().events_for(task_id@),
                                final(self).store_view().events_for(task_id@),
                                task_id@,
                                "provider_retry"@,
                                Some(
                                    json_obj_attempt_error(
                                        (old(st).round_attempt + 1) as nat,
                                        msg@,
                                    ),
                                ),
                            )
                            &&& final(self).store_view().artifact_rows() == old(self).store_view().artifact_rows()
                        }
                    } else {
                        &&& step matches EngineStep::Fail(m) && m@ == msg@
                        &&& *final(st) == *old(st)
                        &&& final(history)@ == old(history)@
                        &&& !old(self).store_view().has_task(task_id@) ==> *final(self) == *old(self)
                        &&& old(self).ready(task_id@, 1, 0) ==> {
                            let k = old(self).store_view().task_index(task_id@);
                            let rows0 = old(self).store_view().task_rows();
                            let rows1 = final(self).store_view().task_rows();
                            &&& rows_updated_at(rows0, rows1, k)
                            &&& rows1[k].status == TaskStatus::Failed
                            &&& rows1[k].completed_at is Some
                            &&& events_appended1(
                                old(self).store_view().events_for(task_id@),
                                final(self).store_view().events_for(task_id@),
                                task_id@,
                                "failed"@,
                                Some(json_obj_reason_error("provider_error"@, msg@)),
                            )
                        }
                    }
                },
                RoundEvent::Response(text) => {
                    let ev_read = scan_history(old(history)@).saw_read;
                    let first_verify = ev_read && !old(st).write_verified;
                    let wv = old(st).write_verified || ev_read;
                    let dec = spec_decision(text@, old(history)@);
                    match dec {
                        Option::None => {
                            &&& step matches EngineStep::Done(outcome) && outcome.task_id@
                                == task_id@ && outcome.final_response@ == text@
                                && outcome.write_verified == wv
                            &&& *final(st) == (RunState {
                                round_attempt: 0,
                                write_verified: wv,
                                ..*old(st)
                            })
                            &&& final(history)@ == old(history)@
                            &&& old(self).ready(task_id@, 3, 1) ==> {
                                let k = old(self).store_view().task_index(task_id@);
                                let rows0 = old(self).store_view().task_rows();
                                let rows1 = final(self).store_view().task_rows();
                                &&& rows_updated_at(rows0, rows1, k)
                                &&& response_row_written(
                                    rows0[k],
                                    rows1[k],
                                    text@,
                                    TaskStatus::Completed,
                                )
                                &&& (if first_verify {
                                    events_appended2(
                                        old(self).store_view().events_for(task_id@),
                                        final(self).store_view().events_for(task_id@),
                                        task_id@,
                                        "tool_write_verified"@,
                                        None,
                                        "completed"@,
                                        Some(json_obj_round((old(st).round + 1) as nat)),
                                    )
                                } else {
                                    events_appended1(
                                        old(self).store_view().events_for(task_id@),
                                        final(self).store_view().events_for(task_id@),
                                        task_id@,
                                        "completed"@,
                                        Some(json_obj_round((old(st).round + 1) as nat)),
                                    )
                                })
                                &&& (first_verify ==> final(self).store_view().has_artifact(
                                    task_id@,
                                    "__history_verified__"@,
                                ))
                                &&& (!first_verify ==> final(self).store_view().artifact_rows()
                                    == old(self).store_view().artifact_rows())
                            }
                        },
                        Option::Some(reason) => {
                            let stalled = old(st).consecutive_progress_only + 1 >= 3;
                            let exhausted = !stalled && old(st).round + 1 >= old(self).config().max_continuation_rounds;
                            &&& (stalled ==> {
                                &&& step matches EngineStep::Fail(m) && m@ == stall_message()
                                &&& final(history)@ == old(history)@
                                &&& *final(st) == (RunState {
                                    round_attempt: 0,
                                    write_verified: wv,
                                    consecutive_progress_only: (old(st).consecutive_progress_only
                                        + 1) as usize,
                                    ..*old(st)
                                })
                            })
                            &&& (exhausted ==> {
                                &&& step matches EngineStep::Fail(m) && m@ == exhausted_message(
                                    old(self).config().max_continuation_rounds as nat,
                                )
                                &&& final(history)@ == old(history)@.push(final(history)@.last())
                                    && final(history)@.last().role@ == "user"@ && final(history)@.last().content@ == nudge_message()
                                &&& *final(st) == (RunState {
                                    round: (old(st).round + 1) as usize,
                                    round_attempt: 0,
                                    write_verified: wv,
                                    consecutive_progress_only: (old(st).consecutive_progress_only
                                        + 1) as usize,
                                })
                            })
                            &&& (!stalled && !exhausted ==> {
                                &&& step is RunRound
                                &&& final(history)@ == old(history)@.push(final(history)@.last())
                                    && final(history)@.last().role@ == "user"@ && final(history)@.last().content@ == nudge_message()
                                &&& *final(st) == (RunState {
                                    round: (old(st).round + 1) as usize,
                                    round_attempt: 0,
                                    write_verified: wv,
                                    consecutive_progress_only: (old(st).consecutive_progress_only
                                        + 1) as usize,
                                })
                            })
                            &&& old(self).ready(task_id@, 4, 1) ==> {
                                let k = old(self).store_view().task_index(task_id@);
                                let rows0 = old(self).store_view().task_rows();
                                let rows1 = final(self).store_view().task_rows();
                                &&& rows_updated_at(rows0, rows1, k)
                                &&& response_row_written(
                                    rows0[k],
                                    rows1[k],
                                    text@,
                                    if stalled || exhausted {
                                        TaskStatus::Failed
                                    } else {
                                        rows0[k].status
                                    },
                                )
                                &&& (!stalled && !exhausted && !first_verify ==> events_appended1(
                                    old(self).store_view().events_for(task_id@),
                                    final(self).store_view().events_for(task_id@),
                                    task_id@,
                                    "continue"@,
                                    Some(
                                        json_obj_reason_round(
                                            reason,
                                            (old(st).round + 1) as nat,
                                        ),
                                    ),
                                ))
                                &&& (stalled && !first_verify ==> events_appended2(
                                    old(self).store_view().events_for(task_id@),
                                    final(self).store_view().events_for(task_id@),
                                    task_id@,
                                    "continue"@,
                                    Some(
                                        json_obj_reason_round(
                                            reason,
                                            (old(st).round + 1) as nat,
                                        ),
                                    ),
                                    "failed"@,
                                    Some(json_obj_reason("stalled_loop"@)),
                                ))
                                &&& (exhausted && !first_verify ==> events_appended2(
                                    old(self).store_view().events_for(task_id@),
                                    final(self).store_view().events_for(task_id@),
                                    task_id@,
                                    "continue"@,
                                    Some(
                                        json_obj_reason_round(
                                            reason,
                                            (old(st).round + 1) as nat,
                                        ),
                                    ),
                                    "failed"@,
                                    Some(json_obj_reason("max_continuation_rounds_exhausted"@)),
                                ))
                                &&& (first_verify ==> final(self).store_view().has_artifact(
                                    task_id@,
                                    "__history_verified__"@,
                                ))
                                &&& (!first_verify ==> final(self).store_view().artifact_rows()
                                    == old(self).store_view().artifact_rows())
                            }
                        },
                    }
                },
            },
    {
        match ev {
            RoundEvent::Failure(msg) => {
                if retryable_transport(msg.as_str()) && st.round_attempt
                    < self.cfg.provider_retry_limit {
                    let _ = self.store.increment_provider_retry_count(task_id);
                    proof {
                        if old(self).store_view().has_task(task_id@) {
                            let k = old(self).store_view().task_index(task_id@);
                            self.store_view().lemma_task_index_agrees(task_id@, k);
                        }
                    }
                    let payload = payload_attempt_error(st.round_attempt + 1, msg.as_str());
                    let _ = self.store.append_event(
                        task_id,
                        "provider_retry",
                        Some(payload.as_str()),
                    );
                    st.round_attempt = st.round_attempt + 1;
                    EngineStep::RunRound
                } else {
                    let payload = payload_reason_error("provider_error", msg.as_str());
                    self.mark_failed(task_id, payload.as_str());
                    EngineStep::Fail(msg)
                }
            },
            RoundEvent::Response(text) => {
                st.round_attempt = 0;
                let _ = self.store.increment_attempt_count(task_id);
                proof {
                    if old(self).store_view().has_task(task_id@) {
                        let k = old(self).store_view().task_index(task_id@);
                        self.store_view().lemma_task_index_agrees(task_id@, k);
                    }
                }
                let _ = self.store.set_last_response(task_id, text.as_str());
                proof {
                    if old(self).store_view().has_task(task_id@) {
                        let k = old(self).store_view().task_index(task_id@);
                        self.store_view().lemma_task_index_agrees(task_id@, k);
                    }
                }
                let eval = evaluate_completion(text.as_str(), history.as_slice());
                if eval.saw_post_write_read_after_success && !st.write_verified {
                    st.write_verified = true;
                    let _ = self.store.upsert_artifact_verification(
                        task_id,
                        "__history_verified__",
                        None,
                        true,
                    );
                    proof {
                        if old(self).store_view().has_task(task_id@) {
                            let k = old(self).store_view().task_index(task_id@);
                            self.store_view().lemma_task_index_agrees(task_id@, k);
                        }
                    }
                    let _ = self.store.append_event(task_id, "tool_write_verified", None);
                    proof {
                        if old(self).store_view().has_task(task_id@) {
                            let k = old(self).store_view().task_index(task_id@);
                            self.store_view().lemma_task_index_agrees(task_id@, k);
                        }
                    }
                }
                match eval.decision {
                    CompletionDecision::Complete => {
                        let _ = self.store.update_status(task_id, TaskStatus::Completed);
                        proof {
                            if old(self).store_view().has_task(task_id@) {
                                let k = old(self).store_view().task_index(task_id@);
                                self.store_view().lemma_task_index_agrees(task_id@, k);
                            }
                        }
                        let payload = payload_round(st.round + 1);
                        let _ = self.store.append_event(
                            task_id,
                            "completed",
                            Some(payload.as_str()),
                        );
                        EngineStep::Done(
                            TaskRunOutcome {
                                task_id: String::from_str(task_id),
                                final_response: text,
                                write_verified: st.write_verified,
                            },
                        )
                    },
                    CompletionDecision::Continue { reason } => {
                        let payload = payload_reason_round(reason.as_str(), st.round + 1);
                        let _ = self.store.append_event(
                            task_id,
                            "continue",
                            Some(payload.as_str()),
                        );
                        proof {
                            if old(self).store_view().has_task(task_id@) {
                                let k = old(self).store_view().task_index(task_id@);
                                self.store_view().lemma_task_index_agrees(task_id@, k);
                            }
                        }
                        st.consecutive_progress_only = st.consecutive_progress_only + 1;
                        if st.consecutive_progress_only >= 3 {
                            let payload2 = payload_reason("stalled_loop");
                            self.mark_failed(task_id, payload2.as_str());
                            EngineStep::Fail(
                                String::from_str("Task stalled in repeated progress-only replies"),
                            )
                        } else {
                            history.push(
                                ChatMessage::user(
                                    "[Task Engine]\n任务尚未完成。请继续执行必要的工具操作并在有可验证结果后再给最终答复。不要仅汇报进行中状态。",
                                ),
                            );
                            st.round = st.round + 1;
                            if st.round >= self.cfg.max_continuation_rounds {
                                let m = self.fail_exhausted(task_id);
                                EngineStep::Fail(m)
                            } else {
                                EngineStep::RunRound
                            }
                        }
                    },
                }
            },
        }
    }
}

/// The engine's status writes all follow the transition table: a created
/// task starts in `Queued`; a run moves it `Queued → Running`; a round
/// moves it `Running → Running` while continuing and `Running →
/// {Completed, Failed}` when it ends; a failed task may be restarted
/// `Failed → Running`.
pub proof fn lemma_engine_transitions_legal()
    ensures
        TaskStatus::spec_can_transition(TaskStatus::Queued, TaskStatus::Running),
        TaskStatus::spec_can_transition(TaskStatus::Running, TaskStatus::Running),
        TaskStatus::spec_can_transition(TaskStatus::Running, TaskStatus::Completed),
        TaskStatus::spec_can_transition(TaskStatus::Running, TaskStatus::Failed),
        TaskStatus::spec_can_transition(TaskStatus::Failed, TaskStatus::Running),
{
}

} // verus!
