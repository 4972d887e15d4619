//! Completion callbacks: which jobs get one, and the retrying delivery loop.
use vstd::prelude::*;
use vstd::arithmetic::power2::{pow2, lemma_pow2_unfold, lemma_pow2_strictly_increases, lemma2_to64_rest};

use crate::job::Job;
use crate::metrics::record_webhook_failure;

verus! {

/// The address a job's callback goes to: its webhook URL, once the job is in a terminal state.
pub open spec fn callback_target(job: Job) -> Option<String> {
    if job.state.terminal() {
        job.webhook_url
    } else {
        None
    }
}

/// The address to send `job`'s completion callback to, if it gets one.
pub fn webhook_target(job: &Job) -> (r: Option<String>)
    ensures
        r == callback_target(*job),
        (job.state is Completed || job.state is Failed || job.state is Expired || job.state is Cancelled
            || job.state is DeadLetter) ==> r == job.webhook_url,
        (job.state is Scheduled || job.state is Leased || job.state is Running) ==> r is None,
{
    if !job.state.is_terminal() {
        return None;
    }
    match &job.webhook_url {
        Some(url) => Some(url.clone()),
        None => None,
    }
}

/// Every job that reaches a terminal state (completed, failed, expired,
/// cancelled or dead-lettered) gets its callback at its webhook URL, if it has
/// one; a job still scheduled, leased or running gets none.
pub proof fn lemma_terminal_jobs_get_callbacks(job: Job)
    ensures
        job.state is Completed ==> callback_target(job) == job.webhook_url,
        job.state is Failed ==> callback_target(job) == job.webhook_url,
        job.state is Expired ==> callback_target(job) == job.webhook_url,
        job.state is Cancelled ==> callback_target(job) == job.webhook_url,
        job.state is DeadLetter ==> callback_target(job) == job.webhook_url,
        job.state is Scheduled ==> callback_target(job) is None,
        job.state is Leased ==> callback_target(job) is None,
        job.state is Running ==> callback_target(job) is None,
        job.webhook_url is None ==> callback_target(job) is None,
{
}

/// Two to the power `e`, held at `u64::MAX` once it no longer fits.
pub open spec fn saturating_pow2_u64(e: nat) -> int {
    if e >= 64 {
        u64::MAX as int
    } else {
        pow2(e) as int
    }
}

/// The pause, in seconds, after a failed delivery when `attempts` deliveries have been tried.
pub open spec fn delivery_backoff(attempts: i32) -> int {
    saturating_pow2_u64((attempts as u32) as nat)
}

fn saturating_pow2_u64_exec(e: u32) -> (r: u64)
    ensures
        r == saturating_pow2_u64(e as nat),
{
    if e >= 64 {
        return u64::MAX;
    }
    proof {
        lemma2_to64_rest();
    }
    let mut p: u64 = 1;
    let mut i: u32 = 0;
    proof {
        vstd::arithmetic::power2::lemma2_to64();
    }
    while i < e
        invariant
            e < 64,
            i <= e,
            p == pow2(i as nat),
            pow2(63) == 0x8000000000000000,
        decreases e - i,
    {
        proof {
            lemma_pow2_unfold((i + 1) as nat);
            if i < 63 {
                lemma_pow2_strictly_increases(i as nat, 63);
            }
        }
        p = p * 2;
        i = i + 1;
    }
    p
}

/// The next step of delivering a callback.
#[derive(Debug, Clone, Copy, PartialEq, Eq, Structural)]
pub enum DeliveryStep {
    /// Send the callback; `attempts` deliveries will have been tried once it is sent.
    Send { attempts: i32 },
    /// Pause for `secs` seconds before trying again.
    Wait { secs: u64 },
    /// Stop, and store whether the callback got through and how many deliveries were tried.
    Finish { success: bool, attempts: i32 },
}

/// The step before a try, when `attempts` have been tried: another try while
/// `attempts` does not exceed `max_retries`, else stop without success.
pub open spec fn next_delivery(attempts: i32, max_retries: i32) -> DeliveryStep {
    if attempts <= max_retries {
        DeliveryStep::Send { attempts: (attempts + 1) as i32 }
    } else {
        DeliveryStep::Finish { success: false, attempts }
    }
}

/// The step after a try, `attempts` counting it: stop on success; else pause
/// while another try is left, or stop without success.
pub open spec fn after_delivery(attempts: i32, max_retries: i32, delivered: bool) -> DeliveryStep {
    if delivered {
        DeliveryStep::Finish { success: true, attempts }
    } else if attempts <= max_retries {
        DeliveryStep::Wait { secs: delivery_backoff(attempts) as u64 }
    } else {
        DeliveryStep::Finish { success: false, attempts }
    }
}

/// The number of tries made, from `attempts` tries already made, when every
/// try fails: each `Send` of `next_delivery` is one try, and a `Wait` of
/// `after_delivery` leads to the next `next_delivery`.
pub open spec fn failing_tries(attempts: i32, max_retries: i32) -> nat
    decreases max_retries - attempts,
{
    match next_delivery(attempts, max_retries) {
        DeliveryStep::Send { attempts: n } => 1 + match after_delivery(n, max_retries, false) {
            DeliveryStep::Wait { .. } => if n > attempts {
                failing_tries(n, max_retries)
            } else {
                0
            },
            _ => 0,
        },
        _ => 0,
    }
}

/// A delivery that keeps failing is tried once, then retried at most
/// `max_retries` times: from `attempts` tries already made, it makes
/// `max_retries - attempts + 1` tries, or none once `attempts` exceeds `max_retries`.
pub proof fn lemma_failing_delivery_tries(attempts: i32, max_retries: i32)
    requires
        attempts <= max_retries ==> max_retries < i32::MAX,
    ensures
        failing_tries(attempts, max_retries) == (if attempts > max_retries {
            0
        } else {
            max_retries - attempts + 1
        }),
    decreases max_retries - attempts,
{
    if attempts <= max_retries {
        let n = (attempts + 1) as i32;
        if n <= max_retries {
            lemma_failing_delivery_tries(n, max_retries);
        }
    }
}

/// The pause after the first failed try is two seconds, and each further
/// failed try doubles it; a delivered callback never pauses.
pub proof fn lemma_delivery_pauses_double(a: i32, max_retries: i32)
    requires
        1 <= a < 63,
    ensures
        delivery_backoff(1) == 2,
        delivery_backoff((a + 1) as i32) == 2 * delivery_backoff(a),
        after_delivery(a, max_retries, true) == (DeliveryStep::Finish { success: true, attempts: a }),
        a <= max_retries ==> after_delivery(a, max_retries, false) == (DeliveryStep::Wait {
            secs: delivery_backoff(a) as u64,
        }),
        a > max_retries ==> after_delivery(a, max_retries, false) == (DeliveryStep::Finish {
            success: false,
            attempts: a,
        }),
{
    vstd::arithmetic::power2::lemma2_to64();
    lemma_pow2_unfold((a + 1) as nat);
    assert(((a + 1) as i32) as u32 as nat == (a + 1) as nat);
    assert((a as u32) as nat == a as nat);
}

/// Decides whether to try a delivery when `attempts` have been tried and
/// `max_retries` allowed beyond the first: another one while `attempts` does not exceed it.
pub fn delivery_next(attempts: i32, max_retries: i32) -> (r: DeliveryStep)
    requires
        attempts <= max_retries ==> attempts < i32::MAX,
    ensures
        r == next_delivery(attempts, max_retries),
{
    if attempts <= max_retries {
        DeliveryStep::Send { attempts: attempts + 1 }
    } else {
        DeliveryStep::Finish { success: false, attempts }
    }
}

/// Decides what follows a delivery, `attempts` now counting it: stop on
/// success; else count the failure, and pause for two to the power `attempts`
/// seconds (saturating) when another try is left, or stop.
pub fn delivery_after_response(attempts: i32, max_retries: i32, delivered: bool) -> (r: DeliveryStep)
    ensures
        r == after_delivery(attempts, max_retries, delivered),
{
    if delivered {
        return DeliveryStep::Finish { success: true, attempts };
    }
    record_webhook_failure();
    if attempts <= max_retries {
        DeliveryStep::Wait { secs: saturating_pow2_u64_exec(attempts as u32) }
    } else {
        DeliveryStep::Finish { success: false, attempts }
    }
}

} // verus!
