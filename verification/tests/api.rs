use kronkeeper::api::{
    check_create_request, check_patch_request, found_job, health_report, patch_update_result, plan_cancel,
    plan_create, single_cancel_result, template_cancel_result, ApiError, CancelPlan, CreatePlan,
};
use kronkeeper::auth::{authorize, ApiKeys, AuthRejection, AuthorizedClient};
use kronkeeper::job::{
    ConcurrencyPolicy, CreateJobRequest, Job, JobPayload, JobRow, PatchJobRequest, RecurrenceConfig,
};

fn request(key: &str, recurring: bool) -> CreateJobRequest {
    CreateJobRequest {
        idempotency_key: key.to_string(),
        payload: JobPayload::Script { path: "run-hello".to_string(), args: vec![], timeout_sec: 30 },
        scheduled_at: 100,
        expires_at: None,
        max_retries: 3,
        retry_delay_sec: 60,
        webhook_url: None,
        recurrence: if recurring {
            Some(RecurrenceConfig {
                cron_expr: "0 2 * * *".to_string(),
                end_at: None,
                max_occurrences: Some(30),
                concurrency_policy: ConcurrencyPolicy::QueueOnce,
            })
        } else {
            None
        },
    }
}

fn stored(id: u128, template: bool) -> Job {
    Job::from_row(JobRow {
        id,
        idempotency_key: "send-welcome-email-42".to_string(),
        client_id: Some(1),
        payload: JobPayload::Script { path: "a.sh".to_string(), args: vec![], timeout_sec: 5 },
        state: "SCHEDULED".to_string(),
        scheduled_at: 0,
        leased_until: None,
        expires_at: None,
        attempt_count: 0,
        max_retries: 3,
        retry_delay_sec: 60,
        created_at: 0,
        updated_at: 0,
        webhook_url: None,
        webhook_success: None,
        webhook_attempts: 0,
        is_recurring: template,
        cron_expr: None,
        next_instance_at: None,
        max_occurrences: None,
        occurrences_completed: 0,
        recurrence_end_at: None,
        parent_job_id: None,
        concurrency_policy: "queue_once".to_string(),
        is_template: template,
    })
    .unwrap()
}

#[test]
fn empty_idempotency_key_is_refused() {
    match check_create_request(&request("", false)) {
        Err(ApiError::BadRequest(m)) => assert_eq!(m, "idempotency_key is required"),
        other => panic!("unexpected {:?}", other),
    }
    assert!(check_create_request(&request("k", false)).is_ok());
}

#[test]
fn existing_key_returns_the_existing_job() {
    match plan_create(Some(stored(42, false)), 1, request("send-welcome-email-42", false)) {
        CreatePlan::Existing(resp) => assert_eq!(resp.id, 42),
        other => panic!("unexpected {:?}", other),
    }
    assert!(matches!(plan_create(None, 1, request("k", true)), CreatePlan::Recurring(_)));
    match plan_create(None, 8, request("k", false)) {
        CreatePlan::OneOff(n) => {
            assert_eq!(n.client_id, 8);
            assert_eq!(n.idempotency_key, "k");
            assert!(!n.is_template);
        }
        other => panic!("unexpected {:?}", other),
    }
}

#[test]
fn lookups_and_cancellation_answers() {
    assert!(matches!(found_job(None), Err(ApiError::NotFound)));
    assert_eq!(found_job(Some(stored(5, false))).unwrap().id, 5);
    assert!(matches!(plan_cancel(None), Err(ApiError::NotFound)));
    assert_eq!(plan_cancel(Some(&stored(5, true))).unwrap(), CancelPlan::Template);
    assert_eq!(plan_cancel(Some(&stored(5, false))).unwrap(), CancelPlan::Single);
    assert!(matches!(template_cancel_result(0), Err(ApiError::NotFound)));
    assert!(template_cancel_result(3).is_ok());
    assert!(single_cancel_result(true).is_ok());
    match single_cancel_result(false) {
        Err(ApiError::BadRequest(m)) => assert_eq!(m, "only scheduled jobs can be cancelled"),
        other => panic!("unexpected {:?}", other),
    }
}

#[test]
fn cron_update_answers() {
    match check_patch_request(&PatchJobRequest { cron_expr: String::new() }) {
        Err(ApiError::BadRequest(m)) => assert_eq!(m, "cron_expr is required"),
        other => panic!("unexpected {:?}", other),
    }
    assert!(check_patch_request(&PatchJobRequest { cron_expr: "0 3 * * *".to_string() }).is_ok());
    assert!(patch_update_result(true).is_ok());
    assert!(matches!(patch_update_result(false), Err(ApiError::NotFound)));
}

#[test]
fn health_is_ok_only_when_both_parts_are_up() {
    let r = health_report(true, true);
    assert_eq!((r.status_code, r.status, r.database, r.scheduler), (200, "ok", "up", "up"));
    let r = health_report(false, true);
    assert_eq!((r.status_code, r.status, r.database, r.scheduler), (503, "degraded", "down", "up"));
    let r = health_report(true, false);
    assert_eq!((r.status_code, r.status, r.database, r.scheduler), (503, "degraded", "up", "down"));
}

#[test]
fn api_keys_authorize_known_clients() {
    let keys = ApiKeys::from_rows(vec![
        ("dev-api-key-change-in-production".to_string(), 11),
        ("other".to_string(), 12),
        ("other".to_string(), 13),
    ]);
    assert_eq!(keys.client_for("other"), Some(13));
    assert_eq!(keys.client_for("missing"), None);
    assert_eq!(
        authorize(Some("dev-api-key-change-in-production"), &keys),
        Ok(AuthorizedClient { client_id: 11 })
    );
    assert_eq!(authorize(Some("nope"), &keys), Err(AuthRejection::InvalidKey));
    assert_eq!(authorize(None, &keys), Err(AuthRejection::MissingKey));
    assert_eq!(AuthRejection::MissingKey.message(), "missing X-API-Key header");
    assert_eq!(AuthRejection::InvalidKey.message(), "invalid API key");
    let mut empty = ApiKeys::new();
    assert_eq!(empty.client_for("x"), None);
    empty.insert("x".to_string(), 4);
    assert_eq!(empty.client_for("x"), Some(4));
}
