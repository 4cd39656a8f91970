//! The task store: three append/update tables for task runs, lifecycle
//! events and artifact verifications, modelled in memory with the same
//! semantics the persistent schema provides — unique run ids, ascending
//! append-only event ids, a unique `(task_id, path)` key for artifacts, and
//! `completed_at` set exactly on terminal statuses.

use vstd::prelude::*;
use vstd::string::*;

use crate::host::now_rfc3339;
use crate::text::str_eq;
use crate::types::{TaskArtifactRecord, TaskEventRecord, TaskRunRecord, TaskStatus};

verus! {

/// The events among `rows` that belong to the task `id`, in order.
pub open spec fn events_matching(rows: Seq<TaskEventRecord>, id: Seq<char>) -> Seq<
    TaskEventRecord,
>
    decreases rows.len(),
{
    if rows.len() == 0 {
        Seq::empty()
    } else {
        let prefix = events_matching(rows.drop_last(), id);
        if rows.last().task_id@ == id {
            prefix.push(rows.last())
        } else {
            prefix
        }
    }
}

/// The artifact rows among `rows` that belong to the task `id`, in order.
pub open spec fn artifacts_matching(rows: Seq<TaskArtifactRecord>, id: Seq<char>) -> Seq<
    TaskArtifactRecord,
>
    decreases rows.len(),
{
    if rows.len() == 0 {
        Seq::empty()
    } else {
        let prefix = artifacts_matching(rows.drop_last(), id);
        if rows.last().task_id@ == id {
            prefix.push(rows.last())
        } else {
            prefix
        }
    }
}

/// The runs among `rows` whose status is recoverable, in order.
pub open spec fn recoverable_rows(rows: Seq<TaskRunRecord>) -> Seq<TaskRunRecord>
    decreases rows.len(),
{
    if rows.len() == 0 {
        Seq::empty()
    } else {
        let prefix = recoverable_rows(rows.drop_last());
        if TaskStore::recoverable(rows.last().status) {
            prefix.push(rows.last())
        } else {
            prefix
        }
    }
}

/// Why a store operation failed.
#[derive(Clone, Copy, Debug, PartialEq, Eq, Structural)]
pub enum StoreError {
    /// No task run row carries the given id.
    NotFound,
    /// An insert collided with an existing task id.
    DuplicateId,
    /// The id counter of a table is used up.
    IdSpaceExhausted,
}

/// The store: task runs in creation order, events and artifacts with
/// ascending ids.
pub struct TaskStore {
    runs: Vec<TaskRunRecord>,
    events: Vec<TaskEventRecord>,
    artifacts: Vec<TaskArtifactRecord>,
    next_event_id: i64,
    next_artifact_id: i64,
}

impl TaskStore {
    pub closed spec fn task_rows(self) -> Seq<TaskRunRecord> {
        self.runs@
    }

    pub closed spec fn event_rows(self) -> Seq<TaskEventRecord> {
        self.events@
    }

    pub closed spec fn artifact_rows(self) -> Seq<TaskArtifactRecord> {
        self.artifacts@
    }

    pub closed spec fn event_id_bound(self) -> int {
        self.next_event_id as int
    }

    pub closed spec fn artifact_id_bound(self) -> int {
        self.next_artifact_id as int
    }

    pub open spec fn event_id_space_left(self) -> bool {
        self.event_id_bound() < i64::MAX
    }

    pub open spec fn artifact_id_space_left(self) -> bool {
        self.artifact_id_bound() < i64::MAX
    }

    pub open spec fn has_task(self, id: Seq<char>) -> bool {
        exists|k: int| 0 <= k < self.task_rows().len() && self.task_rows()[k].id@ == id
    }

    pub open spec fn task_index(self, id: Seq<char>) -> int {
        choose|k: int| 0 <= k < self.task_rows().len() && self.task_rows()[k].id@ == id
    }

    pub open spec fn task_row(self, id: Seq<char>) -> TaskRunRecord {
        self.task_rows()[self.task_index(id)]
    }

    pub open spec fn events_for(self, id: Seq<char>) -> Seq<TaskEventRecord> {
        events_matching(self.event_rows(), id)
    }

    pub open spec fn artifacts_for(self, id: Seq<char>) -> Seq<TaskArtifactRecord> {
        artifacts_matching(self.artifact_rows(), id)
    }

    pub open spec fn has_artifact(self, id: Seq<char>, path: Seq<char>) -> bool {
        exists|k: int|
            0 <= k < self.artifact_rows().len() && self.artifact_rows()[k].task_id@ == id
                && self.artifact_rows()[k].path@ == path
    }

    pub open spec fn artifact_index(self, id: Seq<char>, path: Seq<char>) -> int {
        choose|k: int|
            0 <= k < self.artifact_rows().len() && self.artifact_rows()[k].task_id@ == id
                && self.artifact_rows()[k].path@ == path
    }

    /// A task eligible for crash recovery: neither terminal nor cancelled.
    pub open spec fn recoverable(s: TaskStatus) -> bool {
        s == TaskStatus::Queued || s == TaskStatus::Running || s == TaskStatus::Blocked
    }

    /// Well-formedness: unique run ids; `completed_at` set exactly on
    /// terminal statuses; event and artifact ids ascending and below their
    /// next-id counters; a unique `(task_id, path)` key for artifacts.
    pub open spec fn wf(self) -> bool {
        &&& forall|i: int, j: int|
            #![trigger self.task_rows()[i], self.task_rows()[j]]
            0 <= i < j < self.task_rows().len() ==> self.task_rows()[i].id@
                != self.task_rows()[j].id@
        &&& forall|i: int|
            0 <= i < self.task_rows().len() ==> ((#[trigger] self.task_rows()[i]).completed_at
                is Some <==> self.task_rows()[i].status.spec_is_terminal())
        &&& forall|i: int, j: int|
            #![trigger self.event_rows()[i], self.event_rows()[j]]
            0 <= i < j < self.event_rows().len() ==> self.event_rows()[i].id
                < self.event_rows()[j].id
        &&& forall|i: int|
            0 <= i < self.event_rows().len() ==> (#[trigger] self.event_rows()[i]).id
                < self.event_id_bound()
        &&& self.event_id_bound() >= 1
        &&& forall|i: int, j: int|
            #![trigger self.artifact_rows()[i], self.artifact_rows()[j]]
            0 <= i < j < self.artifact_rows().len() ==> self.artifact_rows()[i].id
                < self.artifact_rows()[j].id
        &&& forall|i: int|
            0 <= i < self.artifact_rows().len() ==> (#[trigger] self.artifact_rows()[i]).id
                < self.artifact_id_bound()
        &&& self.artifact_id_bound() >= 1
        &&& forall|i: int, j: int|
            #![trigger self.artifact_rows()[i], self.artifact_rows()[j]]
            0 <= i < j < self.artifact_rows().len() ==> !(self.artifact_rows()[i].task_id@
                == self.artifact_rows()[j].task_id@ && self.artifact_rows()[i].path@
                == self.artifact_rows()[j].path@)
    }

    /// In a well-formed store, a run carries a completion stamp exactly
    /// when its status is terminal.
    pub proof fn lemma_completed_at_iff_terminal(self, i: int)
        requires
            self.wf(),
            0 <= i < self.task_rows().len(),
        ensures
            self.task_rows()[i].completed_at is Some <==> self.task_rows()[
                i
            ].status.spec_is_terminal(),
    {
    }

    /// A fresh, empty store.
    pub fn new() -> (s: TaskStore)
        ensures
            s.wf(),
            s.task_rows() == Seq::<TaskRunRecord>::empty(),
            s.event_rows() == Seq::<TaskEventRecord>::empty(),
            s.artifact_rows() == Seq::<TaskArtifactRecord>::empty(),
            s.event_id_space_left(),
            s.artifact_id_space_left(),
    {
        TaskStore {
            runs: Vec::new(),
            events: Vec::new(),
            artifacts: Vec::new(),
            next_event_id: 1,
            next_artifact_id: 1,
        }
    }

    /// The index of the run row with this id, if any.
    fn find_task(&self, id: &str) -> (r: Option<usize>)
        ensures
            match r {
                Some(k) => k < self.task_rows().len() && self.task_rows()[k as int].id@ == id@,
                None => !self.has_task(id@),
            },
    {
        let n = self.runs.len();
        let mut k: usize = 0;
        while k < n
            invariant
                0 <= k <= n,
                n == self.task_rows().len(),
                forall|j: int| 0 <= j < k ==> self.task_rows()[j].id@ != id@,
            decreases n - k,
        {
            if str_eq(self.runs[k].id.as_str(), id) {
                return Some(k);
            }
            k += 1;
        }
        None
    }

    /// With unique ids, any row holding the id is the row `task_index`
    /// denotes.
    pub proof fn lemma_task_index_agrees(self, id: Seq<char>, k: int)
        requires
            self.wf(),
            0 <= k < self.task_rows().len(),
            self.task_rows()[k].id@ == id,
        ensures
            self.has_task(id),
            self.task_index(id) == k,
    {
        assert(self.has_task(id));
        let k2 = self.task_index(id);
        if k2 != k {
            if k2 < k {
                assert(self.task_rows()[k2].id@ != self.task_rows()[k].id@);
            } else {
                assert(self.task_rows()[k].id@ != self.task_rows()[k2].id@);
            }
        }
    }

    /// Create a run row in status `Queued` with zeroed counters and equal
    /// creation and update stamps.
    pub fn insert_task_run(
        &mut self,
        id: &str,
        channel: &str,
        sender_key: &str,
        reply_target: &str,
        original_request: &str,
    ) -> (r: Result<(), StoreError>)
        requires
            old(self).wf(),
        ensures
            final(self).wf(),
            old(self).has_task(id@) ==> r == Result::<(), StoreError>::Err(
                StoreError::DuplicateId,
            ) && *final(self) == *old(self),
            !old(self).has_task(id@) ==> r is Ok && {
                &&& final(self).task_rows().len() == old(self).task_rows().len() + 1
                &&& final(self).task_rows().drop_last() == old(self).task_rows()
                &&& final(self).task_rows().last().id@ == id@
                &&& final(self).task_rows().last().channel@ == channel@
                &&& final(self).task_rows().last().sender_key@ == sender_key@
                &&& final(self).task_rows().last().reply_target@ == reply_target@
                &&& final(self).task_rows().last().original_request@ == original_request@
                &&& final(self).task_rows().last().status == TaskStatus::Queued
                &&& final(self).task_rows().last().last_response is None
                &&& final(self).task_rows().last().attempt_count == 0
                &&& final(self).task_rows().last().provider_retry_count == 0
                &&& final(self).task_rows().last().completed_at is None
                &&& final(self).task_rows().last().created_at@
                    == final(self).task_rows().last().updated_at@
                &&& final(self).event_rows() == old(self).event_rows()
                &&& final(self).artifact_rows() == old(self).artifact_rows()
                &&& final(self).event_id_bound() == old(self).event_id_bound()
                &&& final(self).artifact_id_bound() == old(self).artifact_id_bound()
            },
    {
        if let Some(_k) = self.find_task(id) {
            proof {
                assert(self.has_task(id@));
            }
            return Err(StoreError::DuplicateId);
        }
        let now = now_rfc3339();
        let created = now.clone();
        let row = TaskRunRecord {
            id: String::from_str(id),
            channel: String::from_str(channel),
            sender_key: String::from_str(sender_key),
            reply_target: String::from_str(reply_target),
            status: TaskStatus::Queued,
            original_request: String::from_str(original_request),
            last_response: None,
            attempt_count: 0,
            provider_retry_count: 0,
            created_at: created,
            updated_at: now,
            completed_at: None,
        };
        self.runs.push(row);
        proof {
            assert(final(self).task_rows().drop_last() =~= old(self).task_rows());
        }
        Ok(())
    }

    /// Replace the row at `k` with `row`, in place.
    fn replace_run(&mut self, k: usize, row: TaskRunRecord)
        requires
            k < old(self).task_rows().len(),
        ensures
            final(self).task_rows() == old(self).task_rows().update(k as int, row),
            final(self).event_rows() == old(self).event_rows(),
            final(self).artifact_rows() == old(self).artifact_rows(),
            final(self).event_id_bound() == old(self).event_id_bound(),
            final(self).artifact_id_bound() == old(self).artifact_id_bound(),
    {
        let _prev = self.runs.remove(k);
        self.runs.insert(k, row);
        proof {
            assert(final(self).task_rows() =~= old(self).task_rows().update(k as int, row));
        }
    }

    /// Write a new status; a terminal status also sets `completed_at`, a
    /// non-terminal one clears it. `updated_at` is refreshed.
    pub fn update_status(&mut self, id: &str, status: TaskStatus) -> (r: Result<(), StoreError>)
        requires
            old(self).wf(),
        ensures
            final(self).wf(),
            !old(self).has_task(id@) ==> r == Result::<(), StoreError>::Err(StoreError::NotFound)
                && *final(self) == *old(self),
            old(self).has_task(id@) ==> r is Ok && {
                let k = old(self).task_index(id@);
                let row = final(self).task_rows()[k];
                let prev = old(self).task_rows()[k];
                &&& final(self).task_rows().len() == old(self).task_rows().len()
                &&& forall|j: int|
                    0 <= j < old(self).task_rows().len() && j != k
                        ==> final(self).task_rows()[j] == old(self).task_rows()[j]
                &&& row.status == status
                &&& (row.completed_at is Some <==> status.spec_is_terminal())
                &&& row.id == prev.id
                &&& row.channel == prev.channel
                &&& row.sender_key == prev.sender_key
                &&& row.reply_target == prev.reply_target
                &&& row.original_request == prev.original_request
                &&& row.last_response == prev.last_response
                &&& row.attempt_count == prev.attempt_count
                &&& row.provider_retry_count == prev.provider_retry_count
                &&& row.created_at == prev.created_at
                &&& final(self).event_rows() == old(self).event_rows()
                &&& final(self).artifact_rows() == old(self).artifact_rows()
                &&& final(self).event_id_bound() == old(self).event_id_bound()
                &&& final(self).artifact_id_bound() == old(self).artifact_id_bound()
            },
    {
        let k = match self.find_task(id) {
            None => { return Err(StoreError::NotFound); },
            Some(k) => k,
        };
        proof {
            self.lemma_task_index_agrees(id@, k as int);
        }
        let now = now_rfc3339();
        let mut row = self.runs.remove(k);
        row.status = status;
        row.completed_at = if status.is_terminal() { Some(now.clone()) } else { None };
        row.updated_at = now;
        self.runs.insert(k, row);
        proof {
            assert(final(self).task_rows() =~= old(self).task_rows().update(
                k as int,
                final(self).task_rows()[k as int],
            ));
        }
        Ok(())
    }

    /// Atomic `+1` on `attempt_count` (saturating at the counter's top),
    /// refreshing `updated_at`.
    pub fn increment_attempt_count(&mut self, id: &str) -> (r: Result<(), StoreError>)
        requires
            old(self).wf(),
        ensures
            final(self).wf(),
            !old(self).has_task(id@) ==> r == Result::<(), StoreError>::Err(StoreError::NotFound)
                && *final(self) == *old(self),
            old(self).has_task(id@) ==> r is Ok && {
                let k = old(self).task_index(id@);
                let row = final(self).task_rows()[k];
                let prev = old(self).task_rows()[k];
                &&& final(self).task_rows().len() == old(self).task_rows().len()
                &&& forall|j: int|
                    0 <= j < old(self).task_rows().len() && j != k
                        ==> final(self).task_rows()[j] == old(self).task_rows()[j]
                &&& row.attempt_count == (if prev.attempt_count < u32::MAX {
                    prev.attempt_count + 1
                } else {
                    prev.attempt_count as int
                })
                &&& row.provider_retry_count == prev.provider_retry_count
                &&& row.status == prev.status
                &&& row.id == prev.id
                &&& row.channel == prev.channel
                &&& row.sender_key == prev.sender_key
                &&& row.reply_target == prev.reply_target
                &&& row.original_request == prev.original_request
                &&& row.last_response == prev.last_response
                &&& row.created_at == prev.created_at
                &&& row.completed_at == prev.completed_at
                &&& final(self).event_rows() == old(self).event_rows()
                &&& final(self).artifact_rows() == old(self).artifact_rows()
                &&& final(self).event_id_bound() == old(self).event_id_bound()
                &&& final(self).artifact_id_bound() == old(self).artifact_id_bound()
            },
    {
        let k = match self.find_task(id) {
            None => { return Err(StoreError::NotFound); },
            Some(k) => k,
        };
        proof {
            self.lemma_task_index_agrees(id@, k as int);
        }
        let now = now_rfc3339();
        let mut row = self.runs.remove(k);
        if row.attempt_count < u32::MAX {
            row.attempt_count = row.attempt_count + 1;
        }
        row.updated_at = now;
        self.runs.insert(k, row);
        proof {
            assert(final(self).task_rows() =~= old(self).task_rows().update(
                k as int,
                final(self).task_rows()[k as int],
            ));
        }
        Ok(())
    }

    /// Atomic `+1` on `provider_retry_count` (saturating at the counter's
    /// top), refreshing `updated_at`.
    pub fn increment_provider_retry_count(&mut self, id: &str) -> (r: Result<(), StoreError>)
        requires
            old(self).wf(),
        ensures
            final(self).wf(),
            !old(self).has_task(id@) ==> r == Result::<(), StoreError>::Err(StoreError::NotFound)
                && *final(self) == *old(self),
            old(self).has_task(id@) ==> r is Ok && {
                let k = old(self).task_index(id@);
                let row = final(self).task_rows()[k];
                let prev = old(self).task_rows()[k];
                &&& final(self).task_rows().len() == old(self).task_rows().len()
                &&& forall|j: int|
                    0 <= j < old(self).task_rows().len() && j != k
                        ==> final(self).task_rows()[j] == old(self).task_rows()[j]
                &&& row.provider_retry_count == (if prev.provider_retry_count < u32::MAX {
                    prev.provider_retry_count + 1
                } else {
                    prev.provider_retry_count as int
                })
                &&& row.attempt_count == prev.attempt_count
                &&& row.status == prev.status
                &&& row.id == prev.id
                &&& row.channel == prev.channel
                &&& row.sender_key == prev.sender_key
                &&& row.reply_target == prev.reply_target
                &&& row.original_request == prev.original_request
                &&& row.last_response == prev.last_response
                &&& row.created_at == prev.created_at
                &&& row.completed_at == prev.completed_at
                &&& final(self).event_rows() == old(self).event_rows()
                &&& final(self).artifact_rows() == old(self).artifact_rows()
                &&& final(self).event_id_bound() == old(self).event_id_bound()
                &&& final(self).artifact_id_bound() == old(self).artifact_id_bound()
            },
    {
        let k = match self.find_task(id) {
            None => { return Err(StoreError::NotFound); },
            Some(k) => k,
        };
        proof {
            self.lemma_task_index_agrees(id@, k as int);
        }
        let now = now_rfc3339();
        let mut row = self.runs.remove(k);
        if row.provider_retry_count < u32::MAX {
            row.provider_retry_count = row.provider_retry_count + 1;
        }
        row.updated_at = now;
        self.runs.insert(k, row);
        proof {
            assert(final(self).task_rows() =~= old(self).task_rows().update(
                k as int,
                final(self).task_rows()[k as int],
            ));
        }
        Ok(())
    }

    /// Overwrite the most recent assistant reply, refreshing `updated_at`.
    pub fn set_last_response(&mut self, id: &str, last_response: &str) -> (r: Result<
        (),
        StoreError,
    >)
        requires
            old(self).wf(),
        ensures
            final(self).wf(),
            !old(self).has_task(id@) ==> r == Result::<(), StoreError>::Err(StoreError::NotFound)
                && *final(self) == *old(self),
            old(self).has_task(id@) ==> r is Ok && {
                let k = old(self).task_index(id@);
                let row = final(self).task_rows()[k];
                let prev = old(self).task_rows()[k];
                &&& final(self).task_rows().len() == old(self).task_rows().len()
                &&& forall|j: int|
                    0 <= j < old(self).task_rows().len() && j != k
                        ==> final(self).task_rows()[j] == old(self).task_rows()[j]
                &&& row.last_response is Some
                &&& row.last_response->0@ == last_response@
                &&& row.attempt_count == prev.attempt_count
                &&& row.provider_retry_count == prev.provider_retry_count
                &&& row.status == prev.status
                &&& row.id == prev.id
                &&& row.channel == prev.channel
                &&& row.sender_key == prev.sender_key
                &&& row.reply_target == prev.reply_target
                &&& row.original_request == prev.original_request
                &&& row.created_at == prev.created_at
                &&& row.completed_at == prev.completed_at
                &&& final(self).event_rows() == old(self).event_rows()
                &&& final(self).artifact_rows() == old(self).artifact_rows()
                &&& final(self).event_id_bound() == old(self).event_id_bound()
                &&& final(self).artifact_id_bound() == old(self).artifact_id_bound()
            },
    {
        let k = match self.find_task(id) {
            None => { return Err(StoreError::NotFound); },
            Some(k) => k,
        };
        proof {
            self.lemma_task_index_agrees(id@, k as int);
        }
        let now = now_rfc3339();
        let mut row = self.runs.remove(k);
        row.last_response = Some(String::from_str(last_response));
        row.updated_at = now;
        self.runs.insert(k, row);
        proof {
            assert(final(self).task_rows() =~= old(self).task_rows().update(
                k as int,
                final(self).task_rows()[k as int],
            ));
        }
        Ok(())
    }

    /// The run row with this id, if any.
    pub fn get_task_run(&self, id: &str) -> (r: Option<TaskRunRecord>)
        requires
            self.wf(),
        ensures
            match r {
                None => !self.has_task(id@),
                Some(rec) => self.has_task(id@) && rec == self.task_row(id@),
            },
    {
        match self.find_task(id) {
            None => None,
            Some(k) => {
                proof {
                    self.lemma_task_index_agrees(id@, k as int);
                }
                Some(self.runs[k].clone())
            },
        }
    }

    /// All tasks in `{Queued, Running, Blocked}`, in creation order: the
    /// crash-recovery query.
    pub fn list_recoverable_tasks(&self) -> (r: Vec<TaskRunRecord>)
        ensures
            r@ == recoverable_rows(self.task_rows()),
    {
        let n = self.runs.len();
        let mut out: Vec<TaskRunRecord> = Vec::new();
        let mut k: usize = 0;
        proof {
            assert(self.task_rows().take(0) =~= Seq::<TaskRunRecord>::empty());
        }
        while k < n
            invariant
                0 <= k <= n,
                n == self.task_rows().len(),
                out@ == recoverable_rows(self.task_rows().take(k as int)),
            decreases n - k,
        {
            let row = &self.runs[k];
            let keep = match row.status {
                TaskStatus::Queued | TaskStatus::Running | TaskStatus::Blocked => true,
                _ => false,
            };
            if keep {
                out.push(row.clone());
            }
            proof {
                assert(self.task_rows().take(k + 1).drop_last() =~= self.task_rows().take(
                    k as int,
                ));
                assert(self.task_rows().take(k + 1).last() == self.task_rows()[k as int]);
            }
            k += 1;
        }
        proof {
            assert(self.task_rows().take(n as int) =~= self.task_rows());
        }
        out
    }

    /// Append one event with the next ascending id.
    pub fn append_event(&mut self, task_id: &str, event_type: &str, payload: Option<&str>) -> (r:
        Result<(), StoreError>)
        requires
            old(self).wf(),
        ensures
            final(self).wf(),
            !old(self).has_task(task_id@) ==> r == Result::<(), StoreError>::Err(
                StoreError::NotFound,
            ) && *final(self) == *old(self),
            old(self).has_task(task_id@) && !old(self).event_id_space_left() ==> r
                == Result::<(), StoreError>::Err(StoreError::IdSpaceExhausted) && *final(self)
                == *old(self),
            old(self).has_task(task_id@) && old(self).event_id_space_left() ==> r is Ok && {
                let e = final(self).event_rows().last();
                &&& final(self).event_rows().len() == old(self).event_rows().len() + 1
                &&& final(self).event_rows().drop_last() == old(self).event_rows()
                &&& e.task_id@ == task_id@
                &&& e.event_type@ == event_type@
                &&& (match payload {
                    Option::None => e.payload_json is None,
                    Option::Some(p) => e.payload_json is Some && e.payload_json->0@ == p@,
                })
                &&& final(self).events_for(task_id@) == old(self).events_for(task_id@).push(e)
                &&& forall|other: Seq<char>|
                    other != task_id@ ==> #[trigger] final(self).events_for(other) == old(self).events_for(other)
                &&& final(self).task_rows() == old(self).task_rows()
                &&& final(self).artifact_rows() == old(self).artifact_rows()
                &&& final(self).event_id_bound() == old(self).event_id_bound() + 1
                &&& final(self).artifact_id_bound() == old(self).artifact_id_bound()
            },
    {
        if self.find_task(task_id).is_none() {
            return Err(StoreError::NotFound);
        }
        if self.next_event_id == i64::MAX {
            return Err(StoreError::IdSpaceExhausted);
        }
        let now = now_rfc3339();
        let payload_json = match payload {
            Some(p) => Some(String::from_str(p)),
            None => None,
        };
        let e = TaskEventRecord {
            id: self.next_event_id,
            task_id: String::from_str(task_id),
            event_type: String::from_str(event_type),
            payload_json,
            created_at: now,
        };
        self.next_event_id = self.next_event_id + 1;
        self.events.push(e);
        proof {
            assert(final(self).event_rows().drop_last() =~= old(self).event_rows());
            assert(final(self).events_for(task_id@) =~= old(self).events_for(task_id@).push(
                final(self).event_rows().last(),
            ));
            assert forall|other: Seq<char>| other != task_id@ implies #[trigger] final(self).events_for(other) == old(self).events_for(other) by {
                assert(final(self).events_for(other) =~= old(self).events_for(other));
            }
        }
        Ok(())
    }

    /// All events of one task, in insertion (id) order.
    pub fn list_events(&self, task_id: &str) -> (r: Vec<TaskEventRecord>)
        ensures
            r@ == self.events_for(task_id@),
    {
        let n = self.events.len();
        let mut out: Vec<TaskEventRecord> = Vec::new();
        let mut k: usize = 0;
        proof {
            assert(self.event_rows().take(0) =~= Seq::<TaskEventRecord>::empty());
        }
        while k < n
            invariant
                0 <= k <= n,
                n == self.event_rows().len(),
                out@ == events_matching(self.event_rows().take(k as int), task_id@),
            decreases n - k,
        {
            let row = &self.events[k];
            if str_eq(row.task_id.as_str(), task_id) {
                out.push(row.clone());
            }
            proof {
                assert(self.event_rows().take(k + 1).drop_last() =~= self.event_rows().take(
                    k as int,
                ));
                assert(self.event_rows().take(k + 1).last() == self.event_rows()[k as int]);
            }
            k += 1;
        }
        proof {
            assert(self.event_rows().take(n as int) =~= self.event_rows());
        }
        out
    }

    /// Insert or update the `(task_id, path)` verification row: an update
    /// keeps the row's id and place; `verified_at` is set exactly when
    /// `verified` holds.
    pub fn upsert_artifact_verification(
        &mut self,
        task_id: &str,
        path: &str,
        checksum: Option<&str>,
        verified: bool,
    ) -> (r: Result<(), StoreError>)
        requires
            old(self).wf(),
        ensures
            final(self).wf(),
            !old(self).has_task(task_id@) ==> r == Result::<(), StoreError>::Err(
                StoreError::NotFound,
            ) && *final(self) == *old(self),
            old(self).has_task(task_id@) && old(self).has_artifact(task_id@, path@) ==> r is Ok
                && {
                let k = old(self).artifact_index(task_id@, path@);
                let row = final(self).artifact_rows()[k];
                let prev = old(self).artifact_rows()[k];
                &&& final(self).artifact_rows().len() == old(self).artifact_rows().len()
                &&& forall|j: int|
                    0 <= j < old(self).artifact_rows().len() && j != k
                        ==> final(self).artifact_rows()[j] == old(self).artifact_rows()[j]
                &&& row.id == prev.id
                &&& row.task_id == prev.task_id
                &&& row.path == prev.path
                &&& row.verified == verified
                &&& (row.verified_at is Some <==> verified)
                &&& (match checksum {
                    Option::None => row.checksum is None,
                    Option::Some(c) => row.checksum is Some && row.checksum->0@ == c@,
                })
                &&& final(self).task_rows() == old(self).task_rows()
                &&& final(self).event_rows() == old(self).event_rows()
                &&& final(self).event_id_bound() == old(self).event_id_bound()
                &&& final(self).artifact_id_bound() == old(self).artifact_id_bound()
            },
            old(self).has_task(task_id@) && !old(self).has_artifact(task_id@, path@) && !old(self).artifact_id_space_left() ==> r == Result::<(), StoreError>::Err(
                StoreError::IdSpaceExhausted,
            ) && *final(self) == *old(self),
            old(self).has_task(task_id@) && !old(self).has_artifact(task_id@, path@) && old(self).artifact_id_space_left() ==> r is Ok && {
                let row = final(self).artifact_rows().last();
                &&& final(self).artifact_rows().len() == old(self).artifact_rows().len() + 1
                &&& final(self).artifact_rows().drop_last() == old(self).artifact_rows()
                &&& row.task_id@ == task_id@
                &&& row.path@ == path@
                &&& row.verified == verified
                &&& (row.verified_at is Some <==> verified)
                &&& (match checksum {
                    Option::None => row.checksum is None,
                    Option::Some(c) => row.checksum is Some && row.checksum->0@ == c@,
                })
                &&& final(self).task_rows() == old(self).task_rows()
                &&& final(self).event_rows() == old(self).event_rows()
                &&& final(self).event_id_bound() == old(self).event_id_bound()
                &&& final(self).artifact_id_bound() == old(self).artifact_id_bound() + 1
            },
    {
        if self.find_task(task_id).is_none() {
            return Err(StoreError::NotFound);
        }
        let verified_at = if verified { Some(now_rfc3339()) } else { None };
        let checksum_owned = match checksum {
            Some(c) => Some(String::from_str(c)),
            None => None,
        };
        let n = self.artifacts.len();
        let mut k: usize = 0;
        while k < n
            invariant
                0 <= k <= n,
                n == self.artifact_rows().len(),
                old(self).wf(),
                old(self).has_task(task_id@),
                *self == *old(self),
                (verified_at is Some <==> verified),
                (match checksum {
                    Option::None => checksum_owned is None,
                    Option::Some(c) => checksum_owned is Some && checksum_owned->0@ == c@,
                }),
                forall|j: int|
                    0 <= j < k ==> !(self.artifact_rows()[j].task_id@ == task_id@
                        && self.artifact_rows()[j].path@ == path@),
            decreases n - k,
        {
            if str_eq(self.artifacts[k].task_id.as_str(), task_id) && str_eq(
                self.artifacts[k].path.as_str(),
                path,
            ) {
                proof {
                    assert(self.has_artifact(task_id@, path@));
                    let k2 = self.artifact_index(task_id@, path@);
                    if k2 != k {
                        if k2 < k {
                            assert(!(self.artifact_rows()[k2].task_id@
                                == self.artifact_rows()[k as int].task_id@
                                && self.artifact_rows()[k2].path@
                                == self.artifact_rows()[k as int].path@));
                        } else {
                            assert(!(self.artifact_rows()[k as int].task_id@
                                == self.artifact_rows()[k2].task_id@
                                && self.artifact_rows()[k as int].path@
                                == self.artifact_rows()[k2].path@));
                        }
                    }
                    assert(k2 == k as int);
                }
                let mut row = self.artifacts.remove(k);
                row.verified = verified;
                row.checksum = checksum_owned;
                row.verified_at = verified_at;
                self.artifacts.insert(k, row);
                proof {
                    assert(final(self).artifact_rows() =~= old(self).artifact_rows().update(
                        k as int,
                        final(self).artifact_rows()[k as int],
                    ));
                }
                return Ok(());
            }
            k += 1;
        }
        if self.next_artifact_id == i64::MAX {
            return Err(StoreError::IdSpaceExhausted);
        }
        let row = TaskArtifactRecord {
            id: self.next_artifact_id,
            task_id: String::from_str(task_id),
            path: String::from_str(path),
            verified,
            checksum: checksum_owned,
            verified_at,
        };
        self.next_artifact_id = self.next_artifact_id + 1;
        self.artifacts.push(row);
        proof {
            assert(final(self).artifact_rows().drop_last() =~= old(self).artifact_rows());
        }
        Ok(())
    }

    /// All artifact rows of one task, in id order.
    pub fn list_artifacts(&self, task_id: &str) -> (r: Vec<TaskArtifactRecord>)
        ensures
            r@ == self.artifacts_for(task_id@),
    {
        let n = self.artifacts.len();
        let mut out: Vec<TaskArtifactRecord> = Vec::new();
        let mut k: usize = 0;
        proof {
            assert(self.artifact_rows().take(0) =~= Seq::<TaskArtifactRecord>::empty());
        }
        while k < n
            invariant
                0 <= k <= n,
                n == self.artifact_rows().len(),
                out@ == artifacts_matching(self.artifact_rows().take(k as int), task_id@),
            decreases n - k,
        {
            let row = &self.artifacts[k];
            if str_eq(row.task_id.as_str(), task_id) {
                out.push(row.clone());
            }
            proof {
                assert(self.artifact_rows().take(k + 1).drop_last() =~= self.artifact_rows().take(
                    k as int,
                ));
                assert(self.artifact_rows().take(k + 1).last() == self.artifact_rows()[k as int]);
            }
            k += 1;
        }
        proof {
            assert(self.artifact_rows().take(n as int) =~= self.artifact_rows());
        }
        out
    }
}

} // verus!
