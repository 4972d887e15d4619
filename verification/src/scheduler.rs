//! The scheduler's decisions: how long to sleep, which queued job is due, and
//! what to do once a leased job has been offered to the worker queue.
use vstd::prelude::*;

use crate::heap::{JobHeap, ScheduledJob, is_earliest};
use crate::metrics::record_job_dispatched;

verus! {

/// How long the scheduler sleeps when nothing is queued: one hour, in microseconds.
pub const IDLE_WAKEUP_MICROS: u64 = 3600000000u64;

/// How long to sleep before a job due at `due` is due at `now`: no time once it is due.
pub open spec fn delay_until(due: int, now: int) -> int {
    if due <= now {
        0
    } else {
        due - now
    }
}

/// How long (in microseconds) the scheduler sleeps at `now`: until the
/// earliest queued job is due, or an hour when nothing is queued.
pub fn next_wakeup_delay(heap: &JobHeap, now: i64) -> (r: u64)
    ensures
        heap@.len() == 0 ==> r == IDLE_WAKEUP_MICROS,
        heap@.len() == 0 ==> r == 3_600_000_000,
        forall|j: ScheduledJob| is_earliest(heap@, j) ==> r == delay_until(j.scheduled_at as int, now as int),
        heap@.len() > 0 ==> exists|j: ScheduledJob| #[trigger] heap@.contains(j) && (if j.scheduled_at <= now {
            r == 0
        } else {
            now + r == j.scheduled_at
        }),
        forall|k: ScheduledJob| #[trigger] heap@.contains(k) ==> (r == 0 || now + r <= k.scheduled_at),
{
    match heap.peek() {
        None => IDLE_WAKEUP_MICROS,
        Some(top) => {
            proof {
                assert forall|j: ScheduledJob| is_earliest(heap@, j) implies j.scheduled_at
                    == top.scheduled_at by {
                    assert(top.scheduled_at <= j.scheduled_at);
                    assert(j.scheduled_at <= top.scheduled_at);
                }
            }
            if top.scheduled_at <= now {
                0
            } else {
                ((top.scheduled_at as i128) - (now as i128)) as u64
            }
        },
    }
}

/// The sleep before a deadline ends exactly at the deadline: no sleep once it
/// has passed, else `now` plus the sleep is the due time, however far off it is.
pub proof fn lemma_sleep_ends_at_the_deadline(due: int, now: int)
    ensures
        delay_until(due, now) >= 0,
        due <= now ==> delay_until(due, now) == 0,
        due > now ==> now + delay_until(due, now) == due,
{
}

/// Takes the earliest queued job if it is due at `now`; leaves the queue
/// unchanged when nothing is due.
pub fn pop_due(heap: &mut JobHeap, now: i64) -> (r: Option<ScheduledJob>)
    ensures
        r matches Some(j) ==> is_earliest(old(heap)@, j) && j.scheduled_at <= now && final(heap)@
            =~= old(heap)@.remove(j),
        r is None ==> final(heap)@ =~= old(heap)@ && forall|j: ScheduledJob|
            #![trigger old(heap)@.contains(j)]
            old(heap)@.contains(j) ==> j.scheduled_at > now,
{
    match heap.peek() {
        None => None,
        Some(top) => {
            if top.scheduled_at > now {
                None
            } else {
                heap.pop()
            }
        },
    }
}

/// What came of offering a leased job to the worker queue.
#[derive(Debug, Clone, Copy, PartialEq, Eq, Structural)]
pub enum SendOutcome {
    Sent,
    QueueFull,
    Closed,
}

/// What the dispatch loop does next.
#[derive(Debug, Clone, Copy, PartialEq, Eq, Structural)]
pub enum DispatchStep {
    /// Go on with the next due job.
    Continue,
    /// Put the job back as scheduled, unchanged, wake the scheduler, and stop.
    Requeue { id: u128, scheduled_at: i64, attempt_count: i32 },
    /// Stop dispatching.
    Stop,
}

/// Decides what follows an offer of the leased job `id` (due at
/// `scheduled_at`, after `attempt_count` attempts) to the worker queue: a sent
/// job is counted as dispatched; a full queue sends the job back to be
/// scheduled again with its time and attempt count; a closed queue stops dispatching.
pub fn after_send(id: u128, scheduled_at: i64, attempt_count: i32, outcome: SendOutcome) -> (r: DispatchStep)
    ensures
        outcome == SendOutcome::Sent ==> r == DispatchStep::Continue,
        outcome == SendOutcome::QueueFull ==> r == (DispatchStep::Requeue { id, scheduled_at, attempt_count }),
        outcome == SendOutcome::Closed ==> r == DispatchStep::Stop,
{
    match outcome {
        SendOutcome::Sent => {
            record_job_dispatched();
            DispatchStep::Continue
        },
        SendOutcome::QueueFull => DispatchStep::Requeue { id, scheduled_at, attempt_count },
        SendOutcome::Closed => DispatchStep::Stop,
    }
}

} // verus!
