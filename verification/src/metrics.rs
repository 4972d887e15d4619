//! Counters exported to the process-wide metrics recorder.
use vstd::prelude::*;

use metrics::Recorder;

verus! {

/// Adds `by` to the counter registered under `name` in the process-wide
/// recorder: `metrics::with_recorder` hands the installed recorder (or the no-op
/// one) to `Recorder::register_counter`, and `Counter::increment` adds to it.
/// Nothing is claimed of the effect: the recorder is global state outside the library.
#[verifier::external_body]
fn increment_counter(name: &'static str, by: u64) {
    let key = metrics::Key::from_static_name(name);
    let metadata = metrics::Metadata::new("kronkeeper::metrics", metrics::Level::INFO, Some("kronkeeper::metrics"));
    metrics::with_recorder(|recorder| recorder.register_counter(&key, &metadata)).increment(by);
}

/// Counts a job created through the API (`jobs_scheduled_total`).
pub fn record_job_scheduled() {
    increment_counter("jobs_scheduled_total", 1);
}

/// Counts a job handed to the worker pool (`jobs_dispatched_total`).
pub fn record_job_dispatched() {
    increment_counter("jobs_dispatched_total", 1);
}

/// Counts a job that completed (`jobs_completed_total`).
pub fn record_job_completed() {
    increment_counter("jobs_completed_total", 1);
}

/// Counts a job that reached a final failure state (`jobs_failed_total`).
pub fn record_job_failed() {
    increment_counter("jobs_failed_total", 1);
}

/// Counts a job that expired (`jobs_expired_total`).
pub fn record_job_expired() {
    increment_counter("jobs_expired_total", 1);
}

/// Counts a failed webhook delivery attempt (`webhook_failures_total`).
pub fn record_webhook_failure() {
    increment_counter("webhook_failures_total", 1);
}

/// Counts a recurring instance created (`recurring_instances_created_total`).
pub fn record_recurring_instance_created() {
    increment_counter("recurring_instances_created_total", 1);
}

} // verus!
