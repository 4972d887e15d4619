use kronkeeper::job::{Job, JobPayload, JobRow};
use kronkeeper::webhook::{delivery_after_response, delivery_next, webhook_target, DeliveryStep};

fn job(state: &str, url: Option<&str>) -> Job {
    Job::from_row(JobRow {
        id: 3,
        idempotency_key: "k".to_string(),
        client_id: Some(1),
        payload: JobPayload::Script { path: "a.sh".to_string(), args: vec![], timeout_sec: 5 },
        state: state.to_string(),
        scheduled_at: 0,
        leased_until: None,
        expires_at: None,
        attempt_count: 0,
        max_retries: 3,
        retry_delay_sec: 60,
        created_at: 0,
        updated_at: 0,
        webhook_url: url.map(|s| s.to_string()),
        webhook_success: None,
        webhook_attempts: 0,
        is_recurring: false,
        cron_expr: None,
        next_instance_at: None,
        max_occurrences: None,
        occurrences_completed: 0,
        recurrence_end_at: None,
        parent_job_id: None,
        concurrency_policy: "queue_once".to_string(),
        is_template: false,
    })
    .unwrap()
}

#[test]
fn callbacks_go_only_to_terminal_jobs_with_a_url() {
    assert_eq!(webhook_target(&job("COMPLETED", Some("http://hook"))), Some("http://hook".to_string()));
    assert_eq!(webhook_target(&job("DEAD_LETTER", Some("http://hook"))), Some("http://hook".to_string()));
    assert_eq!(webhook_target(&job("RUNNING", Some("http://hook"))), None);
    assert_eq!(webhook_target(&job("SCHEDULED", Some("http://hook"))), None);
    assert_eq!(webhook_target(&job("COMPLETED", None)), None);
}

#[test]
fn delivery_retries_with_doubling_pauses_then_gives_up() {
    assert_eq!(delivery_next(0, 3), DeliveryStep::Send { attempts: 1 });
    assert_eq!(delivery_after_response(1, 3, false), DeliveryStep::Wait { secs: 2 });
    assert_eq!(delivery_next(1, 3), DeliveryStep::Send { attempts: 2 });
    assert_eq!(delivery_after_response(2, 3, false), DeliveryStep::Wait { secs: 4 });
    assert_eq!(delivery_after_response(3, 3, false), DeliveryStep::Wait { secs: 8 });
    assert_eq!(delivery_next(3, 3), DeliveryStep::Send { attempts: 4 });
    assert_eq!(delivery_after_response(4, 3, false), DeliveryStep::Finish { success: false, attempts: 4 });
    assert_eq!(delivery_next(4, 3), DeliveryStep::Finish { success: false, attempts: 4 });
}

#[test]
fn delivery_stops_on_success_and_saturates_pauses() {
    assert_eq!(delivery_after_response(2, 3, true), DeliveryStep::Finish { success: true, attempts: 2 });
    assert_eq!(delivery_after_response(70, 100, false), DeliveryStep::Wait { secs: u64::MAX });
    assert_eq!(delivery_after_response(63, 100, false), DeliveryStep::Wait { secs: 1 << 63 });
    assert_eq!(delivery_after_response(-1, 3, false), DeliveryStep::Wait { secs: u64::MAX });
}
