//! What a run of a job produced, and what becomes of the job afterwards.
use vstd::prelude::*;
use vstd::utf8::{encode_utf8, decode_utf8, is_char_boundary};

use crate::job::{Job, JobState, retry_delay, compute_retry_delay};
use crate::text::{decimal, u64_to_decimal};
use crate::time::{valid_timestamp, MICROS_PER_SEC};

verus! {

broadcast use vstd::string::group_string_axioms;

/// How much of a run's output is kept, in bytes.
pub const MAX_CAPTURE_BYTES: usize = 65536;

/// The result of running a job's payload once.
#[derive(Debug, Clone)]
pub struct ExecutionResult {
    pub success: bool,
    pub output: String,
    pub status_code: Option<u16>,
}

/// Whether `s` can be cut after its first `MAX_CAPTURE_BYTES` bytes: it is no
/// longer than that, or a character starts right there.
pub open spec fn truncatable(s: Seq<char>) -> bool {
    encode_utf8(s).len() <= MAX_CAPTURE_BYTES || is_char_boundary(encode_utf8(s), MAX_CAPTURE_BYTES as int)
}

/// `s` itself when short enough, else its first `MAX_CAPTURE_BYTES` bytes and a marker.
pub open spec fn truncated(s: Seq<char>) -> Seq<char> {
    if encode_utf8(s).len() <= MAX_CAPTURE_BYTES {
        s
    } else {
        decode_utf8(encode_utf8(s).subrange(0, MAX_CAPTURE_BYTES as int)) + "...(truncated)"@
    }
}

/// Keeps at most `MAX_CAPTURE_BYTES` bytes of a run's output.
pub fn truncate(s: &str) -> (r: String)
    requires
        truncatable(s@),
    ensures
        r@ == truncated(s@),
{
    if s.as_bytes().len() <= MAX_CAPTURE_BYTES {
        let r = s.to_string();
        assert(r@ == s@);
        r
    } else {
        let (head, _) = s.split_at(MAX_CAPTURE_BYTES);
        proof {
            vstd::utf8::encode_utf8_decode_utf8(head@);
        }
        let mut r = head.to_string();
        assert(head@ == decode_utf8(encode_utf8(s@).subrange(0, MAX_CAPTURE_BYTES as int)));
        r.append("...(truncated)");
        r
    }
}

/// The output reported when a run exceeds its timeout.
pub open spec fn timeout_message(timeout_sec: nat) -> Seq<char> {
    "execution timed out after "@ + decimal(timeout_sec) + "s"@
}

impl ExecutionResult {
    /// The failed result of a run stopped after `timeout_sec` seconds.
    pub fn timed_out(timeout_sec: u64) -> (r: ExecutionResult)
        ensures
            !r.success,
            r.output@ == timeout_message(timeout_sec as nat),
            r.status_code is None,
    {
        let mut output = "execution timed out after ".to_string();
        let n = u64_to_decimal(timeout_sec);
        output.append(n.as_str());
        output.append("s");
        ExecutionResult { success: false, output, status_code: None }
    }

    /// The result of an HTTP request that got a response: success exactly for
    /// a 2xx status, with the body kept as output.
    pub fn from_http_response(status: u16, body: &str) -> (r: ExecutionResult)
        requires
            truncatable(body@),
        ensures
            r.success == (200 <= status < 300),
            r.output@ == truncated(body@),
            r.status_code == Some(status),
    {
        let output = truncate(body);
        ExecutionResult { success: 200 <= status && status < 300, output, status_code: Some(status) }
    }

    /// The result of a script that ran to its end: standard output, then the
    /// standard error after a marker line when there is any.
    pub fn from_script_output(exit_success: bool, exit_code: Option<i32>, stdout: &str, stderr: &str) -> (r: ExecutionResult)
        requires
            truncatable(stdout@),
            truncatable(stderr@),
        ensures
            r.success == exit_success,
            r.output@ == (if truncated(stderr@).len() == 0 {
                truncated(stdout@)
            } else {
                truncated(stdout@) + "\nstderr: "@ + truncated(stderr@)
            }),
            r.status_code == (match exit_code {
                Some(c) => Some(c as u16),
                None => None,
            }),
    {
        let out = truncate(stdout);
        let err = truncate(stderr);
        let output = if err.as_str().is_empty() {
            out
        } else {
            let mut combined = out;
            combined.append("\nstderr: ");
            combined.append(err.as_str());
            combined
        };
        let status_code = match exit_code {
            Some(c) => Some(c as u16),
            None => None,
        };
        ExecutionResult { success: exit_success, output, status_code }
    }
}

#[verifier::external_type_specification]
#[verifier::external_body]
pub struct ExMethod(reqwest::Method);

/// The text with every character mapped to upper case, as `str::to_uppercase`
/// maps it (full Unicode case mapping).
pub uninterp spec fn upper_cased(text: Seq<char>) -> Seq<char>;

/// Upper-cases the text by `str::to_uppercase`. Claimed: the result is `upper_cased(s)`.
#[verifier::external_body]
fn to_upper(s: &str) -> (r: String)
    ensures
        r@ == upper_cased(s@),
{
    s.to_uppercase()
}

/// Whether the HTTP method parser (`FromStr` for `reqwest::Method`) accepts the text.
pub uninterp spec fn method_parses(text: Seq<char>) -> bool;

/// Parses an HTTP method by `FromStr` for `reqwest::Method`. Claimed: a
/// method comes back exactly when the parser accepts the text; which method
/// it is, is left unsaid.
#[verifier::external_body]
fn parse_method(text: &str) -> (r: Option<reqwest::Method>)
    ensures
        r is Some <==> method_parses(text@),
{
    match text.parse::<reqwest::Method>() {
        Ok(m) => Some(m),
        Err(_) => None,
    }
}

/// The method of an HTTP job: its text upper-cased, parsed. When the parser
/// refuses it, the run fails at once with the parser's message (whose text is
/// always `invalid HTTP method`) and no status.
pub fn request_method(method: &str) -> (r: Result<(String, reqwest::Method), ExecutionResult>)
    ensures
        method_parses(upper_cased(method@)) ==> (r matches Ok((text, _)) && text@ == upper_cased(method@)),
        !method_parses(upper_cased(method@)) ==> (r matches Err(e) && !e.success && e.status_code is None
            && e.output@ == "invalid HTTP method: invalid HTTP method"@),
{
    let upper = to_upper(method);
    match parse_method(upper.as_str()) {
        Some(m) => Ok((upper, m)),
        None => Err(ExecutionResult {
            success: false,
            output: "invalid HTTP method: invalid HTTP method".to_string(),
            status_code: None,
        }),
    }
}

/// What becomes of a job after one run.
#[derive(Debug, Clone, PartialEq, Eq, Structural)]
pub enum RunOutcome {
    /// The run succeeded: the job completes, and when it is an instance of a
    /// recurring template the template's next instance is considered, starting
    /// after this instance's scheduled time.
    Completed { parent_job_id: Option<u128>, scheduled_at: i64 },
    /// The run failed after the job's expiry: the job expires.
    Expired,
    /// The run failed and no retry is left: the job goes to the dead letter state.
    DeadLetter,
    /// The run failed: the job is scheduled again at `retry_at` with `attempt_count` attempts.
    Retry { retry_at: i64, attempt_count: i32 },
}

impl RunOutcome {
    /// The state the job is left in.
    pub open spec fn next_state(self) -> JobState {
        match self {
            RunOutcome::Completed { .. } => JobState::Completed,
            RunOutcome::Expired => JobState::Expired,
            RunOutcome::DeadLetter => JobState::DeadLetter,
            RunOutcome::Retry { .. } => JobState::Scheduled,
        }
    }
}

/// Whether `job` has expired at `now`.
pub open spec fn expired_at(job: Job, now: int) -> bool {
    match job.expires_at {
        Some(e) => now >= e,
        None => false,
    }
}

/// The retry of a failed run can be dated: the backoff fits in a signed
/// duration of milliseconds, and the retry instant is representable.
pub open spec fn retry_computable(job: Job, now: int, max_backoff_secs: int) -> bool {
    let next = job.attempt_count + 1;
    let delay = retry_delay(job.retry_delay_sec as int, next, max_backoff_secs);
    &&& -(i64::MAX / 1000) <= delay <= i64::MAX / 1000
    &&& valid_timestamp(now + delay * MICROS_PER_SEC)
}

/// What becomes of `job` after a run that succeeded or not, at `now`.
pub open spec fn run_outcome(job: Job, success: bool, now: int, max_backoff_secs: int) -> RunOutcome {
    if success {
        RunOutcome::Completed { parent_job_id: job.parent_job_id, scheduled_at: job.scheduled_at }
    } else if expired_at(job, now) {
        RunOutcome::Expired
    } else if job.attempt_count + 1 > job.max_retries {
        RunOutcome::DeadLetter
    } else {
        let next = job.attempt_count + 1;
        RunOutcome::Retry {
            retry_at: (now + retry_delay(job.retry_delay_sec as int, next, max_backoff_secs) * MICROS_PER_SEC) as i64,
            attempt_count: next as i32,
        }
    }
}

/// Decides what becomes of `job` after a run: completion on success; on
/// failure expiry once `expires_at` has passed, the dead letter state once the
/// retries are used up, else a retry after the capped exponential backoff.
pub fn decide_run_outcome(job: &Job, success: bool, now: i64, max_backoff_secs: i64) -> (r: RunOutcome)
    requires
        !success && !expired_at(*job, now as int) ==> job.attempt_count < i32::MAX,
        !success && !expired_at(*job, now as int) && job.attempt_count + 1 <= job.max_retries
            ==> retry_computable(*job, now as int, max_backoff_secs as int),
    ensures
        r == run_outcome(*job, success, now as int, max_backoff_secs as int),
        success ==> r == (RunOutcome::Completed { parent_job_id: job.parent_job_id, scheduled_at: job.scheduled_at }),
        !success && expired_at(*job, now as int) ==> r is Expired,
        !success && (job.expires_at matches Some(e) && now >= e) ==> r is Expired,
        (job.expires_at is None || (job.expires_at matches Some(e) && now < e)) ==> !(r is Expired),
        !success && !expired_at(*job, now as int) ==> (r is DeadLetter <==> job.attempt_count >= job.max_retries),
        !success && !expired_at(*job, now as int) && job.attempt_count < job.max_retries ==> (r matches RunOutcome::Retry {
            retry_at,
            attempt_count,
        } && attempt_count == job.attempt_count + 1 && retry_at == now + retry_delay(
            job.retry_delay_sec as int,
            job.attempt_count + 1,
            max_backoff_secs as int,
        ) * MICROS_PER_SEC),
{
    if success {
        return RunOutcome::Completed { parent_job_id: job.parent_job_id, scheduled_at: job.scheduled_at };
    }
    match job.expires_at {
        Some(e) => {
            if now >= e {
                return RunOutcome::Expired;
            }
        },
        None => {},
    }
    let next_attempt = job.attempt_count + 1;
    if next_attempt > job.max_retries {
        return RunOutcome::DeadLetter;
    }
    let delay = compute_retry_delay(job.retry_delay_sec, next_attempt, max_backoff_secs);
    let retry_at = ((now as i128) + (delay as i128) * (MICROS_PER_SEC as i128)) as i64;
    RunOutcome::Retry { retry_at, attempt_count: next_attempt }
}

/// A failed run that has not expired keeps every retry the job allows: it is
/// dead-lettered only once `max_retries` attempts have been made, and
/// otherwise scheduled again as the next attempt, later than `now` by the
/// backoff for that attempt.
pub proof fn lemma_failed_run_uses_every_retry(job: Job, now: int, max_backoff_secs: int)
    requires
        !expired_at(job, now),
    ensures
        (run_outcome(job, false, now, max_backoff_secs) is DeadLetter) <==> job.attempt_count >= job.max_retries,
        job.attempt_count < job.max_retries ==> (run_outcome(job, false, now, max_backoff_secs) matches RunOutcome::Retry {
            attempt_count,
            ..
        } && attempt_count == job.attempt_count + 1 && attempt_count <= job.max_retries),
        !(run_outcome(job, false, now, max_backoff_secs) is Completed),
        !(run_outcome(job, false, now, max_backoff_secs) is Expired),
{
}

/// A run that succeeds completes the job, whatever its attempts and expiry;
/// a failed run past `expires_at` expires it, whatever retries are left.
pub proof fn lemma_success_completes_and_expiry_wins(job: Job, now: int, max_backoff_secs: int)
    ensures
        run_outcome(job, true, now, max_backoff_secs) == (RunOutcome::Completed {
            parent_job_id: job.parent_job_id,
            scheduled_at: job.scheduled_at,
        }),
        (job.expires_at matches Some(e) && now >= e) ==> run_outcome(job, false, now, max_backoff_secs) is Expired,
        (job.expires_at is None || (job.expires_at matches Some(e) && now < e)) ==> !(run_outcome(
            job,
            false,
            now,
            max_backoff_secs,
        ) is Expired),
{
}

/// A run never leaves a job running: it completes, expires, is dead-lettered,
/// or is scheduled again; a retry never exceeds the job's retry limit.
pub proof fn lemma_run_outcome_settles(job: Job, success: bool, now: int, max_backoff_secs: int)
    ensures
        ({
            let o = run_outcome(job, success, now, max_backoff_secs);
            &&& o.next_state() != JobState::Running
            &&& (o.next_state() == JobState::Scheduled || o.next_state().terminal())
            &&& (o matches RunOutcome::Retry { attempt_count, .. } ==> attempt_count
                <= job.max_retries && attempt_count == job.attempt_count + 1)
        }),
{
}

} // verus!
