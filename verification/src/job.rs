//! Jobs: their states, payloads, recurrence settings and retry backoff.
use vstd::prelude::*;

use std::collections::HashMap;

use vstd::arithmetic::power2::{pow2, lemma_pow2_unfold, lemma_pow2_strictly_increases, lemma2_to64, lemma2_to64_rest};

use crate::text::str_eq;

verus! {

/// Where a job stands in its lifecycle.
#[derive(Debug, Clone, Copy, PartialEq, Eq, Structural)]
pub enum JobState {
    Scheduled,
    Leased,
    Running,
    Completed,
    Failed,
    Expired,
    Cancelled,
    DeadLetter,
}

impl JobState {
    /// The name under which a state is stored and reported.
    pub open spec fn name(self) -> Seq<char> {
        match self {
            JobState::Scheduled => "SCHEDULED"@,
            JobState::Leased => "LEASED"@,
            JobState::Running => "RUNNING"@,
            JobState::Completed => "COMPLETED"@,
            JobState::Failed => "FAILED"@,
            JobState::Expired => "EXPIRED"@,
            JobState::Cancelled => "CANCELLED"@,
            JobState::DeadLetter => "DEAD_LETTER"@,
        }
    }

    /// The state whose name is `s`, if any.
    pub open spec fn parse(s: Seq<char>) -> Option<JobState> {
        if s == "SCHEDULED"@ {
            Some(JobState::Scheduled)
        } else if s == "LEASED"@ {
            Some(JobState::Leased)
        } else if s == "RUNNING"@ {
            Some(JobState::Running)
        } else if s == "COMPLETED"@ {
            Some(JobState::Completed)
        } else if s == "FAILED"@ {
            Some(JobState::Failed)
        } else if s == "EXPIRED"@ {
            Some(JobState::Expired)
        } else if s == "CANCELLED"@ {
            Some(JobState::Cancelled)
        } else if s == "DEAD_LETTER"@ {
            Some(JobState::DeadLetter)
        } else {
            None
        }
    }

    /// Terminal states: no further transition follows them.
    pub open spec fn terminal(self) -> bool {
        match self {
            JobState::Completed | JobState::Failed | JobState::Expired | JobState::DeadLetter
            | JobState::Cancelled => true,
            _ => false,
        }
    }

    pub fn as_str(&self) -> (r: &'static str)
        ensures
            r@ == self.name(),
    {
        match self {
            JobState::Scheduled => "SCHEDULED",
            JobState::Leased => "LEASED",
            JobState::Running => "RUNNING",
            JobState::Completed => "COMPLETED",
            JobState::Failed => "FAILED",
            JobState::Expired => "EXPIRED",
            JobState::Cancelled => "CANCELLED",
            JobState::DeadLetter => "DEAD_LETTER",
        }
    }

    pub fn from_str(s: &str) -> (r: Option<JobState>)
        ensures
            r == JobState::parse(s@),
    {
        if str_eq(s, "SCHEDULED") {
            Some(JobState::Scheduled)
        } else if str_eq(s, "LEASED") {
            Some(JobState::Leased)
        } else if str_eq(s, "RUNNING") {
            Some(JobState::Running)
        } else if str_eq(s, "COMPLETED") {
            Some(JobState::Completed)
        } else if str_eq(s, "FAILED") {
            Some(JobState::Failed)
        } else if str_eq(s, "EXPIRED") {
            Some(JobState::Expired)
        } else if str_eq(s, "CANCELLED") {
            Some(JobState::Cancelled)
        } else if str_eq(s, "DEAD_LETTER") {
            Some(JobState::DeadLetter)
        } else {
            None
        }
    }

    pub fn is_terminal(&self) -> (r: bool)
        ensures
            r == self.terminal(),
    {
        match self {
            JobState::Completed | JobState::Failed | JobState::Expired | JobState::DeadLetter
            | JobState::Cancelled => true,
            _ => false,
        }
    }
}

/// A state's name parses back to that state.
pub proof fn lemma_job_state_round_trip(s: JobState)
    ensures
        JobState::parse(s.name()) == Some(s),
{
    reveal_strlit("SCHEDULED");
    reveal_strlit("LEASED");
    reveal_strlit("RUNNING");
    reveal_strlit("COMPLETED");
    reveal_strlit("FAILED");
    reveal_strlit("EXPIRED");
    reveal_strlit("CANCELLED");
    reveal_strlit("DEAD_LETTER");
    match s {
        JobState::Scheduled => {},
        JobState::Leased => {
            assert("LEASED"@ != "SCHEDULED"@) by { assert("LEASED"@.len() != "SCHEDULED"@.len() || "LEASED"@[0] != "SCHEDULED"@[0]); }
        },
        JobState::Running => {
            assert("RUNNING"@ != "SCHEDULED"@) by { assert("RUNNING"@.len() != "SCHEDULED"@.len() || "RUNNING"@[0] != "SCHEDULED"@[0]); }
            assert("RUNNING"@ != "LEASED"@) by { assert("RUNNING"@.len() != "LEASED"@.len() || "RUNNING"@[0] != "LEASED"@[0]); }
        },
        JobState::Completed => {
            assert("COMPLETED"@ != "SCHEDULED"@) by { assert("COMPLETED"@.len() != "SCHEDULED"@.len() || "COMPLETED"@[0] != "SCHEDULED"@[0]); }
            assert("COMPLETED"@ != "LEASED"@) by { assert("COMPLETED"@.len() != "LEASED"@.len() || "COMPLETED"@[0] != "LEASED"@[0]); }
            assert("COMPLETED"@ != "RUNNING"@) by { assert("COMPLETED"@.len() != "RUNNING"@.len() || "COMPLETED"@[0] != "RUNNING"@[0]); }
        },
        JobState::Failed => {
            assert("FAILED"@ != "SCHEDULED"@) by { assert("FAILED"@.len() != "SCHEDULED"@.len() || "FAILED"@[0] != "SCHEDULED"@[0]); }
            assert("FAILED"@ != "LEASED"@) by { assert("FAILED"@.len() != "LEASED"@.len() || "FAILED"@[0] != "LEASED"@[0]); }
            assert("FAILED"@ != "RUNNING"@) by { assert("FAILED"@.len() != "RUNNING"@.len() || "FAILED"@[0] != "RUNNING"@[0]); }
            assert("FAILED"@ != "COMPLETED"@) by { assert("FAILED"@.len() != "COMPLETED"@.len() || "FAILED"@[0] != "COMPLETED"@[0]); }
        },
        JobState::Expired => {
            assert("EXPIRED"@ != "SCHEDULED"@) by { assert("EXPIRED"@.len() != "SCHEDULED"@.len() || "EXPIRED"@[0] != "SCHEDULED"@[0]); }
            assert("EXPIRED"@ != "LEASED"@) by { assert("EXPIRED"@.len() != "LEASED"@.len() || "EXPIRED"@[0] != "LEASED"@[0]); }
            assert("EXPIRED"@[0] != "RUNNING"@[0]);
            assert("EXPIRED"@ != "COMPLETED"@) by { assert("EXPIRED"@.len() != "COMPLETED"@.len() || "EXPIRED"@[0] != "COMPLETED"@[0]); }
            assert("EXPIRED"@ != "FAILED"@) by { assert("EXPIRED"@.len() != "FAILED"@.len() || "EXPIRED"@[0] != "FAILED"@[0]); }
        },
        JobState::Cancelled => {
            assert("CANCELLED"@ != "SCHEDULED"@) by { assert("CANCELLED"@.len() != "SCHEDULED"@.len() || "CANCELLED"@[0] != "SCHEDULED"@[0]); }
            assert("CANCELLED"@ != "LEASED"@) by { assert("CANCELLED"@.len() != "LEASED"@.len() || "CANCELLED"@[0] != "LEASED"@[0]); }
            assert("CANCELLED"@ != "RUNNING"@) by { assert("CANCELLED"@.len() != "RUNNING"@.len() || "CANCELLED"@[0] != "RUNNING"@[0]); }
            assert("CANCELLED"@ != "COMPLETED"@) by { assert("CANCELLED"@[1] != "COMPLETED"@[1]); }
            assert("CANCELLED"@ != "FAILED"@) by { assert("CANCELLED"@.len() != "FAILED"@.len() || "CANCELLED"@[0] != "FAILED"@[0]); }
            assert("CANCELLED"@ != "EXPIRED"@) by { assert("CANCELLED"@.len() != "EXPIRED"@.len() || "CANCELLED"@[0] != "EXPIRED"@[0]); }
        },
        JobState::DeadLetter => {
            assert("DEAD_LETTER"@ != "SCHEDULED"@) by { assert("DEAD_LETTER"@.len() != "SCHEDULED"@.len() || "DEAD_LETTER"@[0] != "SCHEDULED"@[0]); }
            assert("DEAD_LETTER"@ != "LEASED"@) by { assert("DEAD_LETTER"@.len() != "LEASED"@.len() || "DEAD_LETTER"@[0] != "LEASED"@[0]); }
            assert("DEAD_LETTER"@ != "RUNNING"@) by { assert("DEAD_LETTER"@.len() != "RUNNING"@.len() || "DEAD_LETTER"@[0] != "RUNNING"@[0]); }
            assert("DEAD_LETTER"@ != "COMPLETED"@) by { assert("DEAD_LETTER"@.len() != "COMPLETED"@.len() || "DEAD_LETTER"@[0] != "COMPLETED"@[0]); }
            assert("DEAD_LETTER"@ != "FAILED"@) by { assert("DEAD_LETTER"@.len() != "FAILED"@.len() || "DEAD_LETTER"@[0] != "FAILED"@[0]); }
            assert("DEAD_LETTER"@ != "EXPIRED"@) by { assert("DEAD_LETTER"@.len() != "EXPIRED"@.len() || "DEAD_LETTER"@[0] != "EXPIRED"@[0]); }
            assert("DEAD_LETTER"@ != "CANCELLED"@) by { assert("DEAD_LETTER"@.len() != "CANCELLED"@.len() || "DEAD_LETTER"@[0] != "CANCELLED"@[0]); }
        },
    }
}


/// What a job runs: an outbound HTTP request or a script from the safe directory.
#[derive(Debug, Clone)]
pub enum JobPayload {
    Http {
        method: String,
        url: String,
        headers: HashMap<String, String>,
        body: Option<String>,
        timeout_sec: u64,
    },
    Script { path: String, args: Vec<String>, timeout_sec: u64 },
}

/// The timeout a payload gets when its request names none.
pub fn default_timeout() -> (r: u64)
    ensures
        r == 30,
{
    30
}

impl JobPayload {
    /// The timeout of either kind of payload.
    pub open spec fn spec_timeout(self) -> u64 {
        match self {
            JobPayload::Http { timeout_sec, .. } => timeout_sec,
            JobPayload::Script { timeout_sec, .. } => timeout_sec,
        }
    }

    pub fn timeout_sec(&self) -> (r: u64)
        ensures
            r == self.spec_timeout(),
    {
        match self {
            JobPayload::Http { timeout_sec, .. } => *timeout_sec,
            JobPayload::Script { timeout_sec, .. } => *timeout_sec,
        }
    }
}

/// What happens to the next instance of a recurring job while earlier ones are still pending.
#[derive(Debug, Clone, Copy, PartialEq, Eq, Structural)]
pub enum ConcurrencyPolicy {
    Skip,
    Allow,
    QueueOnce,
}

impl ConcurrencyPolicy {
    pub open spec fn name(self) -> Seq<char> {
        match self {
            ConcurrencyPolicy::Skip => "skip"@,
            ConcurrencyPolicy::Allow => "allow"@,
            ConcurrencyPolicy::QueueOnce => "queue_once"@,
        }
    }

    pub open spec fn parse(s: Seq<char>) -> Option<ConcurrencyPolicy> {
        if s == "skip"@ {
            Some(ConcurrencyPolicy::Skip)
        } else if s == "allow"@ {
            Some(ConcurrencyPolicy::Allow)
        } else if s == "queue_once"@ {
            Some(ConcurrencyPolicy::QueueOnce)
        } else {
            None
        }
    }

    pub fn as_str(&self) -> (r: &'static str)
        ensures
            r@ == self.name(),
    {
        match self {
            ConcurrencyPolicy::Skip => "skip",
            ConcurrencyPolicy::Allow => "allow",
            ConcurrencyPolicy::QueueOnce => "queue_once",
        }
    }

    pub fn from_str(s: &str) -> (r: Option<ConcurrencyPolicy>)
        ensures
            r == ConcurrencyPolicy::parse(s@),
    {
        if str_eq(s, "skip") {
            Some(ConcurrencyPolicy::Skip)
        } else if str_eq(s, "allow") {
            Some(ConcurrencyPolicy::Allow)
        } else if str_eq(s, "queue_once") {
            Some(ConcurrencyPolicy::QueueOnce)
        } else {
            None
        }
    }
}

impl Default for ConcurrencyPolicy {
    fn default() -> (r: ConcurrencyPolicy)
        ensures
            r == ConcurrencyPolicy::QueueOnce,
    {
        ConcurrencyPolicy::QueueOnce
    }
}

/// A policy's name parses back to that policy.
pub proof fn lemma_concurrency_policy_round_trip(p: ConcurrencyPolicy)
    ensures
        ConcurrencyPolicy::parse(p.name()) == Some(p),
{
    reveal_strlit("skip");
    reveal_strlit("allow");
    reveal_strlit("queue_once");
    assert("allow"@ != "skip"@) by { assert("allow"@[0] != "skip"@[0]); }
    assert("queue_once"@ != "skip"@) by { assert("queue_once"@[0] != "skip"@[0]); }
    assert("queue_once"@ != "allow"@) by { assert("queue_once"@[0] != "allow"@[0]); }
}

/// How a recurring job repeats. Instants are microseconds since the epoch.
#[derive(Debug, Clone)]
pub struct RecurrenceConfig {
    pub cron_expr: String,
    pub end_at: Option<i64>,
    pub max_occurrences: Option<i32>,
    pub concurrency_policy: ConcurrencyPolicy,
}

/// A request to create a job. Instants are microseconds since the epoch.
#[derive(Debug, Clone)]
pub struct CreateJobRequest {
    pub idempotency_key: String,
    pub payload: JobPayload,
    pub scheduled_at: i64,
    pub expires_at: Option<i64>,
    pub max_retries: i32,
    pub retry_delay_sec: i32,
    pub webhook_url: Option<String>,
    pub recurrence: Option<RecurrenceConfig>,
}

/// The retry limit a request gets when it names none.
pub fn default_max_retries() -> (r: i32)
    ensures
        r == 3,
{
    3
}

/// The base retry delay, in seconds, a request gets when it names none.
pub fn default_retry_delay() -> (r: i32)
    ensures
        r == 60,
{
    60
}

/// A request to change the cron expression of a recurring template.
#[derive(Debug, Clone)]
pub struct PatchJobRequest {
    pub cron_expr: String,
}

/// A stored job. Identifiers are 128-bit UUID values; instants are microseconds since the epoch.
#[derive(Debug, Clone)]
pub struct Job {
    pub id: u128,
    pub idempotency_key: String,
    pub client_id: Option<u128>,
    pub payload: JobPayload,
    pub state: JobState,
    pub scheduled_at: i64,
    pub leased_until: Option<i64>,
    pub expires_at: Option<i64>,
    pub attempt_count: i32,
    pub max_retries: i32,
    pub retry_delay_sec: i32,
    pub created_at: i64,
    pub updated_at: i64,
    pub webhook_url: Option<String>,
    pub webhook_success: Option<bool>,
    pub webhook_attempts: i32,
    pub is_recurring: bool,
    pub cron_expr: Option<String>,
    pub next_instance_at: Option<i64>,
    pub max_occurrences: Option<i32>,
    pub occurrences_completed: i32,
    pub recurrence_end_at: Option<i64>,
    pub parent_job_id: Option<u128>,
    pub concurrency_policy: ConcurrencyPolicy,
    pub is_template: bool,
}

/// A job as the store returns it, before its state and policy names are read.
/// The payload has already been decoded from its stored JSON.
#[derive(Debug)]
pub struct JobRow {
    pub id: u128,
    pub idempotency_key: String,
    pub client_id: Option<u128>,
    pub payload: JobPayload,
    pub state: String,
    pub scheduled_at: i64,
    pub leased_until: Option<i64>,
    pub expires_at: Option<i64>,
    pub attempt_count: i32,
    pub max_retries: i32,
    pub retry_delay_sec: i32,
    pub created_at: i64,
    pub updated_at: i64,
    pub webhook_url: Option<String>,
    pub webhook_success: Option<bool>,
    pub webhook_attempts: i32,
    pub is_recurring: bool,
    pub cron_expr: Option<String>,
    pub next_instance_at: Option<i64>,
    pub max_occurrences: Option<i32>,
    pub occurrences_completed: i32,
    pub recurrence_end_at: Option<i64>,
    pub parent_job_id: Option<u128>,
    pub concurrency_policy: String,
    pub is_template: bool,
}

/// Why a stored row cannot be read as a job.
#[derive(Debug)]
pub enum RowError {
    /// The row names a state that does not exist; the name is kept.
    UnknownState(String),
}

/// The job a row stands for, given the state its name parsed to.
pub open spec fn job_of_row(row: JobRow, state: JobState) -> Job {
    Job {
        id: row.id,
        idempotency_key: row.idempotency_key,
        client_id: row.client_id,
        payload: row.payload,
        state: state,
        scheduled_at: row.scheduled_at,
        leased_until: row.leased_until,
        expires_at: row.expires_at,
        attempt_count: row.attempt_count,
        max_retries: row.max_retries,
        retry_delay_sec: row.retry_delay_sec,
        created_at: row.created_at,
        updated_at: row.updated_at,
        webhook_url: row.webhook_url,
        webhook_success: row.webhook_success,
        webhook_attempts: row.webhook_attempts,
        is_recurring: row.is_recurring,
        cron_expr: row.cron_expr,
        next_instance_at: row.next_instance_at,
        max_occurrences: row.max_occurrences,
        occurrences_completed: row.occurrences_completed,
        recurrence_end_at: row.recurrence_end_at,
        parent_job_id: row.parent_job_id,
        concurrency_policy: match ConcurrencyPolicy::parse(row.concurrency_policy@) {
            Some(p) => p,
            None => ConcurrencyPolicy::QueueOnce,
        },
        is_template: row.is_template,
    }
}

impl Job {
    /// Reads a stored row: an unknown state name is an error, an unknown
    /// policy name reads as `QueueOnce`.
    pub fn from_row(row: JobRow) -> (r: Result<Job, RowError>)
        ensures
            match JobState::parse(row.state@) {
                Some(state) => r == Ok::<Job, RowError>(job_of_row(row, state)),
                None => r matches Err(RowError::UnknownState(name)) && name@ == row.state@,
            },
    {
        let ghost row0 = row;
        let state = match JobState::from_str(row.state.as_str()) {
            Some(s) => s,
            None => {
                return Err(RowError::UnknownState(row.state));
            },
        };
        let concurrency_policy = match ConcurrencyPolicy::from_str(row.concurrency_policy.as_str()) {
            Some(p) => p,
            None => ConcurrencyPolicy::QueueOnce,
        };
        let job = Job {
            id: row.id,
            idempotency_key: row.idempotency_key,
            client_id: row.client_id,
            payload: row.payload,
            state,
            scheduled_at: row.scheduled_at,
            leased_until: row.leased_until,
            expires_at: row.expires_at,
            attempt_count: row.attempt_count,
            max_retries: row.max_retries,
            retry_delay_sec: row.retry_delay_sec,
            created_at: row.created_at,
            updated_at: row.updated_at,
            webhook_url: row.webhook_url,
            webhook_success: row.webhook_success,
            webhook_attempts: row.webhook_attempts,
            is_recurring: row.is_recurring,
            cron_expr: row.cron_expr,
            next_instance_at: row.next_instance_at,
            max_occurrences: row.max_occurrences,
            occurrences_completed: row.occurrences_completed,
            recurrence_end_at: row.recurrence_end_at,
            parent_job_id: row.parent_job_id,
            concurrency_policy,
            is_template: row.is_template,
        };
        Ok(job)
    }
}

/// What the API reports of a job.
#[derive(Debug, Clone)]
pub struct JobResponse {
    pub id: u128,
    pub idempotency_key: String,
    pub state: JobState,
    pub payload: JobPayload,
    pub scheduled_at: i64,
    pub expires_at: Option<i64>,
    pub attempt_count: i32,
    pub max_retries: i32,
    pub retry_delay_sec: i32,
    pub webhook_url: Option<String>,
    pub is_recurring: bool,
    pub cron_expr: Option<String>,
    pub next_instance_at: Option<i64>,
    pub max_occurrences: Option<i32>,
    pub occurrences_completed: i32,
    pub recurrence_end_at: Option<i64>,
    pub parent_job_id: Option<u128>,
    pub concurrency_policy: ConcurrencyPolicy,
    pub is_template: bool,
    pub created_at: i64,
    pub updated_at: i64,
}

/// The response that reports `job`: its public fields, unchanged.
pub open spec fn response_of(job: Job) -> JobResponse {
    JobResponse {
        id: job.id,
        idempotency_key: job.idempotency_key,
        state: job.state,
        payload: job.payload,
        scheduled_at: job.scheduled_at,
        expires_at: job.expires_at,
        attempt_count: job.attempt_count,
        max_retries: job.max_retries,
        retry_delay_sec: job.retry_delay_sec,
        webhook_url: job.webhook_url,
        is_recurring: job.is_recurring,
        cron_expr: job.cron_expr,
        next_instance_at: job.next_instance_at,
        max_occurrences: job.max_occurrences,
        occurrences_completed: job.occurrences_completed,
        recurrence_end_at: job.recurrence_end_at,
        parent_job_id: job.parent_job_id,
        concurrency_policy: job.concurrency_policy,
        is_template: job.is_template,
        created_at: job.created_at,
        updated_at: job.updated_at,
    }
}

/// A job's response reports each of its public fields as stored: its due
/// time as `scheduled_at`, its creation time as `created_at`, and so on.
pub proof fn lemma_response_reports_stored_fields(job: Job)
    ensures
        response_of(job).id == job.id,
        response_of(job).idempotency_key == job.idempotency_key,
        response_of(job).state == job.state,
        response_of(job).payload == job.payload,
        response_of(job).scheduled_at == job.scheduled_at,
        response_of(job).expires_at == job.expires_at,
        response_of(job).attempt_count == job.attempt_count,
        response_of(job).max_retries == job.max_retries,
        response_of(job).retry_delay_sec == job.retry_delay_sec,
        response_of(job).webhook_url == job.webhook_url,
        response_of(job).is_recurring == job.is_recurring,
        response_of(job).cron_expr == job.cron_expr,
        response_of(job).next_instance_at == job.next_instance_at,
        response_of(job).max_occurrences == job.max_occurrences,
        response_of(job).occurrences_completed == job.occurrences_completed,
        response_of(job).recurrence_end_at == job.recurrence_end_at,
        response_of(job).parent_job_id == job.parent_job_id,
        response_of(job).concurrency_policy == job.concurrency_policy,
        response_of(job).is_template == job.is_template,
        response_of(job).created_at == job.created_at,
        response_of(job).updated_at == job.updated_at,
{
}

impl From<Job> for JobResponse {
    fn from(job: Job) -> (r: JobResponse)
        ensures
            r == response_of(job),
            r.id == job.id,
            r.idempotency_key == job.idempotency_key,
            r.state == job.state,
            r.payload == job.payload,
            r.scheduled_at == job.scheduled_at,
            r.expires_at == job.expires_at,
            r.attempt_count == job.attempt_count,
            r.max_retries == job.max_retries,
            r.retry_delay_sec == job.retry_delay_sec,
            r.webhook_url == job.webhook_url,
            r.is_recurring == job.is_recurring,
            r.cron_expr == job.cron_expr,
            r.next_instance_at == job.next_instance_at,
            r.max_occurrences == job.max_occurrences,
            r.occurrences_completed == job.occurrences_completed,
            r.recurrence_end_at == job.recurrence_end_at,
            r.parent_job_id == job.parent_job_id,
            r.concurrency_policy == job.concurrency_policy,
            r.is_template == job.is_template,
            r.created_at == job.created_at,
            r.updated_at == job.updated_at,
    {
        JobResponse {
            id: job.id,
            idempotency_key: job.idempotency_key,
            state: job.state,
            payload: job.payload,
            scheduled_at: job.scheduled_at,
            expires_at: job.expires_at,
            attempt_count: job.attempt_count,
            max_retries: job.max_retries,
            retry_delay_sec: job.retry_delay_sec,
            webhook_url: job.webhook_url,
            is_recurring: job.is_recurring,
            cron_expr: job.cron_expr,
            next_instance_at: job.next_instance_at,
            max_occurrences: job.max_occurrences,
            occurrences_completed: job.occurrences_completed,
            recurrence_end_at: job.recurrence_end_at,
            parent_job_id: job.parent_job_id,
            concurrency_policy: job.concurrency_policy,
            is_template: job.is_template,
            created_at: job.created_at,
            updated_at: job.updated_at,
        }
    }
}

impl vstd::std_specs::convert::FromSpecImpl<Job> for JobResponse {
    open spec fn obeys_from_spec() -> bool {
        true
    }

    open spec fn from_spec(job: Job) -> JobResponse {
        response_of(job)
    }
}

/// The exponent of the backoff after `attempt_count` attempts: one less than
/// the count, and never below zero.
pub open spec fn retry_exponent(attempt_count: int) -> nat {
    if attempt_count <= 1 {
        0
    } else {
        (attempt_count - 1) as nat
    }
}

/// Two to the power `e`, held at `i64::MAX` once it no longer fits.
pub open spec fn saturating_pow2(e: nat) -> int {
    if e >= 63 {
        i64::MAX as int
    } else {
        pow2(e) as int
    }
}

/// The uncapped backoff: the base delay doubled once per attempt after the first.
pub open spec fn raw_retry_delay(retry_delay_sec: int, attempt_count: int) -> int {
    retry_delay_sec * saturating_pow2(retry_exponent(attempt_count))
}

/// `x`, held within the range of an `i64`.
pub open spec fn clamp_i64(x: int) -> int {
    if x > i64::MAX {
        i64::MAX as int
    } else if x < i64::MIN {
        i64::MIN as int
    } else {
        x
    }
}

/// The backoff, held within an `i64` and capped at `max_backoff_secs`.
pub open spec fn retry_delay(retry_delay_sec: int, attempt_count: int, max_backoff_secs: int) -> int {
    let raw = clamp_i64(raw_retry_delay(retry_delay_sec, attempt_count));
    if raw <= max_backoff_secs {
        raw
    } else {
        max_backoff_secs
    }
}

/// Two to the power `e`, held at `i64::MAX` once it no longer fits.
fn saturating_pow2_i64(e: u32) -> (r: i64)
    ensures
        r == saturating_pow2(e as nat),
{
    if e >= 63 {
        return i64::MAX;
    }
    proof {
        lemma2_to64();
        lemma2_to64_rest();
    }
    let mut p: i64 = 1;
    let mut i: u32 = 0;
    while i < e
        invariant
            e < 63,
            i <= e,
            p == pow2(i as nat),
            pow2(62) == 0x4000000000000000,
        decreases e - i,
    {
        proof {
            lemma_pow2_unfold((i + 1) as nat);
            if i < 62 {
                lemma_pow2_strictly_increases(i as nat, 62);
            }
        }
        p = p * 2;
        i = i + 1;
    }
    p
}

/// The delay, in seconds, before retry number `attempt_count`: the base delay
/// doubled for each attempt after the first, capped at `max_backoff_secs`.
/// The doubling and the product with the base delay saturate at the bounds of an `i64`.
pub fn compute_retry_delay(retry_delay_sec: i32, attempt_count: i32, max_backoff_secs: i64) -> (r: i64)
    ensures
        r == retry_delay(retry_delay_sec as int, attempt_count as int, max_backoff_secs as int),
{
    let exp: u32 = if attempt_count <= 1 {
        0
    } else {
        (attempt_count - 1) as u32
    };
    let factor = saturating_pow2_i64(exp);
    let base = retry_delay_sec as i64;
    proof {
        if exp < 63 {
            vstd::arithmetic::power2::lemma_pow2_pos(exp as nat);
        }
        assert(factor >= 1);
        assert(base > 0 ==> base * factor > 0) by (nonlinear_arith)
            requires
                factor >= 1,
        ;
        assert(base < 0 ==> base * factor < 0) by (nonlinear_arith)
            requires
                factor >= 1,
        ;
        assert(base == 0 ==> base * factor == 0) by (nonlinear_arith);
    }
    let delay = match base.checked_mul(factor) {
        Some(d) => d,
        None => {
            if base > 0 {
                i64::MAX
            } else {
                i64::MIN
            }
        },
    };
    assert(factor == saturating_pow2(retry_exponent(attempt_count as int)));
    assert(delay == clamp_i64(base * factor));
    if delay <= max_backoff_secs {
        delay
    } else {
        max_backoff_secs
    }
}


impl JobPayload {
    /// Whether two payloads describe the same work: same kind, same text and
    /// numbers, and the same header mapping.
    pub open spec fn same_as(self, other: JobPayload) -> bool {
        match (self, other) {
            (
                JobPayload::Http { method: m1, url: u1, headers: h1, body: b1, timeout_sec: t1 },
                JobPayload::Http { method: m2, url: u2, headers: h2, body: b2, timeout_sec: t2 },
            ) => m1 == m2 && u1 == u2 && h1@ == h2@ && b1 == b2 && t1 == t2,
            (
                JobPayload::Script { path: p1, args: a1, timeout_sec: t1 },
                JobPayload::Script { path: p2, args: a2, timeout_sec: t2 },
            ) => p1 == p2 && a1@ == a2@ && t1 == t2,
            _ => false,
        }
    }

    /// A copy of the payload.
    pub fn duplicate(&self) -> (r: JobPayload)
        ensures
            r.same_as(*self),
    {
        match self {
            JobPayload::Http { method, url, headers, body, timeout_sec } => {
                let body = match body {
                    Some(b) => Some(b.clone()),
                    None => None,
                };
                JobPayload::Http {
                    method: method.clone(),
                    url: url.clone(),
                    headers: headers.clone(),
                    body,
                    timeout_sec: *timeout_sec,
                }
            },
            JobPayload::Script { path, args, timeout_sec } => {
                let copied = args.clone();
                assert(copied@ =~= args@);
                JobPayload::Script { path: path.clone(), args: copied, timeout_sec: *timeout_sec }
            },
        }
    }
}

/// The columns of a job about to be stored; its state is always `SCHEDULED`.
#[derive(Debug)]
pub struct NewJob {
    pub idempotency_key: String,
    pub client_id: u128,
    pub payload: JobPayload,
    pub scheduled_at: i64,
    pub expires_at: Option<i64>,
    pub max_retries: i32,
    pub retry_delay_sec: i32,
    pub webhook_url: Option<String>,
    pub is_recurring: bool,
    pub cron_expr: Option<String>,
    pub next_instance_at: Option<i64>,
    pub max_occurrences: Option<i32>,
    pub recurrence_end_at: Option<i64>,
    pub parent_job_id: Option<u128>,
    pub concurrency_policy: ConcurrencyPolicy,
    pub is_template: bool,
}

impl NewJob {
    /// The request's own fields, as every stored job takes them.
    pub open spec fn takes_request(self, client_id: u128, req: CreateJobRequest) -> bool {
        &&& self.idempotency_key == req.idempotency_key
        &&& self.client_id == client_id
        &&& self.payload == req.payload
        &&& self.expires_at == req.expires_at
        &&& self.max_retries == req.max_retries
        &&& self.retry_delay_sec == req.retry_delay_sec
        &&& self.webhook_url == req.webhook_url
    }

    /// A one-off job: neither recurring nor a template, queued at its
    /// requested time with the default policy.
    pub fn one_off(client_id: u128, req: CreateJobRequest) -> (r: NewJob)
        ensures
            r.takes_request(client_id, req),
            r.scheduled_at == req.scheduled_at,
            !r.is_recurring && !r.is_template,
            r.cron_expr is None && r.next_instance_at is None,
            r.max_occurrences is None && r.recurrence_end_at is None,
            r.parent_job_id is None,
            r.concurrency_policy == ConcurrencyPolicy::QueueOnce,
    {
        NewJob {
            idempotency_key: req.idempotency_key,
            client_id,
            payload: req.payload,
            scheduled_at: req.scheduled_at,
            expires_at: req.expires_at,
            max_retries: req.max_retries,
            retry_delay_sec: req.retry_delay_sec,
            webhook_url: req.webhook_url,
            is_recurring: false,
            cron_expr: None,
            next_instance_at: None,
            max_occurrences: None,
            recurrence_end_at: None,
            parent_job_id: None,
            concurrency_policy: ConcurrencyPolicy::QueueOnce,
            is_template: false,
        }
    }

    /// The template of a recurring job: it carries the recurrence and the
    /// first fire time, and stays at the requested time itself.
    pub fn recurring_template(client_id: u128, req: CreateJobRequest, recurrence: RecurrenceConfig, first_fire: i64) -> (r: NewJob)
        ensures
            r.takes_request(client_id, req),
            r.scheduled_at == req.scheduled_at,
            r.is_recurring && r.is_template,
            r.cron_expr == Some(recurrence.cron_expr),
            r.next_instance_at == Some(first_fire),
            r.max_occurrences == recurrence.max_occurrences,
            r.recurrence_end_at == recurrence.end_at,
            r.parent_job_id is None,
            r.concurrency_policy == recurrence.concurrency_policy,
    {
        NewJob {
            idempotency_key: req.idempotency_key,
            client_id,
            payload: req.payload,
            scheduled_at: req.scheduled_at,
            expires_at: req.expires_at,
            max_retries: req.max_retries,
            retry_delay_sec: req.retry_delay_sec,
            webhook_url: req.webhook_url,
            is_recurring: true,
            cron_expr: Some(recurrence.cron_expr),
            next_instance_at: Some(first_fire),
            max_occurrences: recurrence.max_occurrences,
            recurrence_end_at: recurrence.end_at,
            parent_job_id: None,
            concurrency_policy: recurrence.concurrency_policy,
            is_template: true,
        }
    }

    /// An instance of a recurring template, due at `scheduled_at`: it copies
    /// the template's work, expiry, retry and webhook settings, points back at
    /// the template, and recurs no further. A template without a client gives
    /// the nil client.
    pub fn instance(template: &Job, scheduled_at: i64, idempotency_key: String) -> (r: NewJob)
        ensures
            r.idempotency_key == idempotency_key,
            r.client_id == (match template.client_id {
                Some(c) => c,
                None => 0,
            }),
            r.payload.same_as(template.payload),
            r.scheduled_at == scheduled_at,
            r.expires_at == template.expires_at,
            r.max_retries == template.max_retries,
            r.retry_delay_sec == template.retry_delay_sec,
            r.webhook_url == template.webhook_url,
            !r.is_recurring && !r.is_template,
            r.cron_expr is None && r.next_instance_at is None,
            r.max_occurrences is None && r.recurrence_end_at is None,
            r.parent_job_id == Some(template.id),
            r.concurrency_policy == template.concurrency_policy,
    {
        let client_id = match template.client_id {
            Some(c) => c,
            None => 0,
        };
        let webhook_url = match &template.webhook_url {
            Some(u) => Some(u.clone()),
            None => None,
        };
        NewJob {
            idempotency_key,
            client_id,
            payload: template.payload.duplicate(),
            scheduled_at,
            expires_at: template.expires_at,
            max_retries: template.max_retries,
            retry_delay_sec: template.retry_delay_sec,
            webhook_url,
            is_recurring: false,
            cron_expr: None,
            next_instance_at: None,
            max_occurrences: None,
            recurrence_end_at: None,
            parent_job_id: Some(template.id),
            concurrency_policy: template.concurrency_policy,
            is_template: false,
        }
    }
}


/// Before the cap, the delay of retry `n` is the base delay times `2^(n-1)`;
/// once that product passes the cap the delay is the cap. Counts below one
/// back off as the first retry does.
pub proof fn lemma_backoff_is_capped_doubling(base: int, n: int, cap: int)
    requires
        1 <= n <= 63,
        0 <= base * pow2((n - 1) as nat) <= i64::MAX,
    ensures
        retry_delay(base, n, cap) == (if base * pow2((n - 1) as nat) <= cap {
            base * pow2((n - 1) as nat)
        } else {
            cap
        }),
        forall|m: int| m <= 1 ==> #[trigger] retry_delay(base, m, cap) == retry_delay(base, 1, cap),
{
    assert(pow2(0) == 1) by {
        lemma2_to64();
    }
}

/// Each further retry waits twice as long as the one before, as long as the
/// doubled delay stays within the cap.
pub proof fn lemma_backoff_doubles_below_cap(base: int, n: int, cap: int)
    requires
        1 <= n <= 62,
        base >= 0,
        base * pow2(n as nat) <= cap,
        cap <= i64::MAX,
    ensures
        retry_delay(base, n + 1, cap) == 2 * retry_delay(base, n, cap),
{
    let e = (n - 1) as nat;
    lemma_pow2_unfold(n as nat);
    assert(pow2(n as nat) == 2 * pow2(e));
    vstd::arithmetic::power2::lemma_pow2_pos(e);
    assert(base * pow2(n as nat) == 2 * (base * pow2(e))) by (nonlinear_arith)
        requires
            pow2(n as nat) == 2 * pow2(e),
    ;
    assert(0 <= base * pow2(e)) by (nonlinear_arith)
        requires
            base >= 0,
            pow2(e) > 0,
    ;
    assert(((n + 1) - 1) as nat == n as nat);
}

/// Backoff never shrinks as attempts accumulate (for a non-negative base
/// delay), and never exceeds the cap.
pub proof fn lemma_backoff_grows_and_is_capped(base: int, a1: int, a2: int, cap: int)
    requires
        base >= 0,
        a1 <= a2,
    ensures
        retry_delay(base, a1, cap) <= retry_delay(base, a2, cap),
        retry_delay(base, a2, cap) <= cap,
{
    let e1 = retry_exponent(a1);
    let e2 = retry_exponent(a2);
    assert(e1 <= e2);
    let p1 = saturating_pow2(e1);
    let p2 = saturating_pow2(e2);
    lemma2_to64();
    lemma2_to64_rest();
    if e1 < 63 {
        if e1 < 62 {
            lemma_pow2_strictly_increases(e1, 62);
        }
        assert(pow2(62) == 0x4000000000000000);
    }
    if e2 < 63 && e1 < e2 {
        lemma_pow2_strictly_increases(e1, e2);
    }
    assert(p1 <= p2);
    assert(base * p1 <= base * p2) by (nonlinear_arith)
        requires
            base >= 0,
            p1 <= p2,
    ;
    assert(clamp_i64(base * p1) <= clamp_i64(base * p2));
}

} // verus!
