//! Task lifecycle statuses, the legality table for transitions between them,
//! and the records that the store keeps for runs, events and artifacts.

use vstd::prelude::*;

use crate::text::{
    lead_spaces, lemma_lead_spaces_unique, lemma_trail_spaces_unique, lower_char, lower_seq,
    space_char, to_lower_char, trim_seq,
};

verus! {

/// Lifecycle state of a task run.
#[derive(Clone, Copy, Debug, PartialEq, Eq, Structural)]
pub enum TaskStatus {
    Queued,
    Running,
    Blocked,
    Completed,
    Failed,
    Cancelled,
}

impl TaskStatus {
    /// The lowercase label under which this status is persisted.
    pub open spec fn label(self) -> Seq<char> {
        match self {
            TaskStatus::Queued => "queued"@,
            TaskStatus::Running => "running"@,
            TaskStatus::Blocked => "blocked"@,
            TaskStatus::Completed => "completed"@,
            TaskStatus::Failed => "failed"@,
            TaskStatus::Cancelled => "cancelled"@,
        }
    }

    pub fn as_str(self) -> (s: &'static str)
        ensures
            s@ == self.label(),
    {
        match self {
            TaskStatus::Queued => "queued",
            TaskStatus::Running => "running",
            TaskStatus::Blocked => "blocked",
            TaskStatus::Completed => "completed",
            TaskStatus::Failed => "failed",
            TaskStatus::Cancelled => "cancelled",
        }
    }

    /// What `parse` accepts: the six labels, after trimming whitespace and
    /// folding ASCII case.
    pub open spec fn spec_parse(s: Seq<char>) -> Option<TaskStatus> {
        let t = lower_seq(trim_seq(s));
        if t == "queued"@ {
            Some(TaskStatus::Queued)
        } else if t == "running"@ {
            Some(TaskStatus::Running)
        } else if t == "blocked"@ {
            Some(TaskStatus::Blocked)
        } else if t == "completed"@ {
            Some(TaskStatus::Completed)
        } else if t == "failed"@ {
            Some(TaskStatus::Failed)
        } else if t == "cancelled"@ {
            Some(TaskStatus::Cancelled)
        } else {
            None
        }
    }

    pub fn parse(raw: &str) -> (r: Option<TaskStatus>)
        ensures
            r == TaskStatus::spec_parse(raw@),
    {
        let n = raw.unicode_len();
        let mut a: usize = 0;
        while a < n && space_char(raw.get_char(a))
            invariant
                0 <= a <= n,
                n == raw@.len(),
                forall|k: int| 0 <= k < a ==> crate::text::is_space_char(raw@[k]),
            decreases n - a,
        {
            a += 1;
        }
        let mut b: usize = n;
        while b > a && space_char(raw.get_char(b - 1))
            invariant
                a <= b <= n,
                n == raw@.len(),
                a < n ==> !crate::text::is_space_char(raw@[a as int]),
                a < n ==> a < b,
                forall|k: int| b <= k < n ==> crate::text::is_space_char(raw@[k]),
            decreases b,
        {
            b -= 1;
        }
        proof {
            lemma_lead_spaces_unique(raw@, a as int);
            if a == n {
                assert(trim_seq(raw@) =~= raw@.subrange(a as int, b as int));
            } else {
                lemma_trail_spaces_unique(raw@, b as int);
                assert(trim_seq(raw@) == raw@.subrange(a as int, b as int));
            }
        }
        if region_eq_lower(raw, a, b, "queued") {
            Some(TaskStatus::Queued)
        } else if region_eq_lower(raw, a, b, "running") {
            Some(TaskStatus::Running)
        } else if region_eq_lower(raw, a, b, "blocked") {
            Some(TaskStatus::Blocked)
        } else if region_eq_lower(raw, a, b, "completed") {
            Some(TaskStatus::Completed)
        } else if region_eq_lower(raw, a, b, "failed") {
            Some(TaskStatus::Failed)
        } else if region_eq_lower(raw, a, b, "cancelled") {
            Some(TaskStatus::Cancelled)
        } else {
            None
        }
    }

    /// Transition table: which status changes the engine may perform.
    pub open spec fn spec_can_transition(from: TaskStatus, to: TaskStatus) -> bool {
        match from {
            TaskStatus::Queued => to == TaskStatus::Running || to == TaskStatus::Cancelled,
            TaskStatus::Running => to == TaskStatus::Running || to == TaskStatus::Blocked
                || to == TaskStatus::Completed || to == TaskStatus::Failed
                || to == TaskStatus::Cancelled,
            TaskStatus::Blocked => to == TaskStatus::Running || to == TaskStatus::Failed
                || to == TaskStatus::Cancelled,
            TaskStatus::Failed => to == TaskStatus::Running || to == TaskStatus::Failed,
            TaskStatus::Completed => false,
            TaskStatus::Cancelled => false,
        }
    }

    pub fn can_transition(from: TaskStatus, to: TaskStatus) -> (legal: bool)
        ensures
            legal == TaskStatus::spec_can_transition(from, to),
    {
        match from {
            TaskStatus::Queued => to == TaskStatus::Running || to == TaskStatus::Cancelled,
            TaskStatus::Running => to == TaskStatus::Running || to == TaskStatus::Blocked
                || to == TaskStatus::Completed || to == TaskStatus::Failed
                || to == TaskStatus::Cancelled,
            TaskStatus::Blocked => to == TaskStatus::Running || to == TaskStatus::Failed
                || to == TaskStatus::Cancelled,
            TaskStatus::Failed => to == TaskStatus::Running || to == TaskStatus::Failed,
            TaskStatus::Completed => false,
            TaskStatus::Cancelled => false,
        }
    }

    /// Terminal statuses admit no outgoing transitions and carry a
    /// completion timestamp.
    pub open spec fn spec_is_terminal(self) -> bool {
        self == TaskStatus::Completed || self == TaskStatus::Failed
            || self == TaskStatus::Cancelled
    }

    pub fn is_terminal(self) -> (terminal: bool)
        ensures
            terminal == self.spec_is_terminal(),
    {
        match self {
            TaskStatus::Completed | TaskStatus::Failed | TaskStatus::Cancelled => true,
            _ => false,
        }
    }
}

/// Terminal statuses admit no outgoing transition at all: the table and the
/// terminality predicate agree.
pub proof fn lemma_terminal_statuses_have_no_exit(from: TaskStatus, to: TaskStatus)
    ensures
        from.spec_is_terminal() && from != TaskStatus::Failed
            ==> !TaskStatus::spec_can_transition(from, to),
{
}

/// Does the case-folded region `[a, b)` of `s` spell exactly `label`?
fn region_eq_lower(s: &str, a: usize, b: usize, label: &str) -> (eq: bool)
    requires
        a <= b,
        b <= s@.len(),
    ensures
        eq == (lower_seq(s@.subrange(a as int, b as int)) == label@),
{
    let s_len = s.unicode_len();
    let m = label.unicode_len();
    if b - a != m {
        proof {
            assert(lower_seq(s@.subrange(a as int, b as int)).len() == b - a);
        }
        return false;
    }
    let mut j: usize = 0;
    while j < m
        invariant
            0 <= j <= m,
            a <= b <= s_len,
            b - a == m,
            s_len == s@.len(),
            m == label@.len(),
            forall|k: int| 0 <= k < j ==> lower_char(s@[a + k]) == label@[k],
        decreases m - j,
    {
        if to_lower_char(s.get_char(a + j)) != label.get_char(j) {
            proof {
                let region = lower_seq(s@.subrange(a as int, b as int));
                assert(region[j as int] == lower_char(s@[a + j]));
            }
            return false;
        }
        j += 1;
    }
    proof {
        assert(lower_seq(s@.subrange(a as int, b as int)) =~= label@);
    }
    true
}

/// Durable record of one task run.
#[derive(Debug, PartialEq, Eq)]
pub struct TaskRunRecord {
    pub id: String,
    pub channel: String,
    pub sender_key: String,
    pub reply_target: String,
    pub status: TaskStatus,
    pub original_request: String,
    pub last_response: Option<String>,
    pub attempt_count: u32,
    pub provider_retry_count: u32,
    pub created_at: String,
    pub updated_at: String,
    pub completed_at: Option<String>,
}

impl Clone for TaskRunRecord {
    fn clone(&self) -> (other: Self)
        ensures
            other == *self,
    {
        TaskRunRecord {
            id: self.id.clone(),
            channel: self.channel.clone(),
            sender_key: self.sender_key.clone(),
            reply_target: self.reply_target.clone(),
            status: self.status,
            original_request: self.original_request.clone(),
            last_response: clone_opt_string(&self.last_response),
            attempt_count: self.attempt_count,
            provider_retry_count: self.provider_retry_count,
            created_at: self.created_at.clone(),
            updated_at: self.updated_at.clone(),
            completed_at: clone_opt_string(&self.completed_at),
        }
    }
}

/// One append-only lifecycle event of a task.
#[derive(Debug, PartialEq, Eq)]
pub struct TaskEventRecord {
    pub id: i64,
    pub task_id: String,
    pub event_type: String,
    pub payload_json: Option<String>,
    pub created_at: String,
}

impl Clone for TaskEventRecord {
    fn clone(&self) -> (other: Self)
        ensures
            other == *self,
    {
        TaskEventRecord {
            id: self.id,
            task_id: self.task_id.clone(),
            event_type: self.event_type.clone(),
            payload_json: clone_opt_string(&self.payload_json),
            created_at: self.created_at.clone(),
        }
    }
}

/// Verification state of one artifact a task produced, unique per
/// `(task_id, path)`.
#[derive(Debug, PartialEq, Eq)]
pub struct TaskArtifactRecord {
    pub id: i64,
    pub task_id: String,
    pub path: String,
    pub verified: bool,
    pub checksum: Option<String>,
    pub verified_at: Option<String>,
}

impl Clone for TaskArtifactRecord {
    fn clone(&self) -> (other: Self)
        ensures
            other == *self,
    {
        TaskArtifactRecord {
            id: self.id,
            task_id: self.task_id.clone(),
            path: self.path.clone(),
            verified: self.verified,
            checksum: clone_opt_string(&self.checksum),
            verified_at: clone_opt_string(&self.verified_at),
        }
    }
}

fn clone_opt_string(s: &Option<String>) -> (other: Option<String>)
    ensures
        other == *s,
{
    match s {
        Some(inner) => Some(inner.clone()),
        None => None,
    }
}

} // verus!
