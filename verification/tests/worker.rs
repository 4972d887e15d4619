use kronkeeper::job::{Job, JobPayload, JobRow};
use kronkeeper::worker::{decide_run_outcome, request_method, truncate, ExecutionResult, RunOutcome, MAX_CAPTURE_BYTES};

fn job(attempt_count: i32, max_retries: i32, expires_at: Option<i64>, parent: Option<u128>) -> Job {
    Job::from_row(JobRow {
        id: 3,
        idempotency_key: "k".to_string(),
        client_id: Some(1),
        payload: JobPayload::Script { path: "fail.sh".to_string(), args: vec![], timeout_sec: 5 },
        state: "RUNNING".to_string(),
        scheduled_at: 1_000_000,
        leased_until: None,
        expires_at,
        attempt_count,
        max_retries,
        retry_delay_sec: 60,
        created_at: 0,
        updated_at: 0,
        webhook_url: None,
        webhook_success: None,
        webhook_attempts: 0,
        is_recurring: false,
        cron_expr: None,
        next_instance_at: None,
        max_occurrences: None,
        occurrences_completed: 0,
        recurrence_end_at: None,
        parent_job_id: parent,
        concurrency_policy: "queue_once".to_string(),
        is_template: false,
    })
    .unwrap()
}

#[test]
fn truncate_keeps_short_output_and_cuts_long_output() {
    assert_eq!(truncate("hello"), "hello");
    let exact = "a".repeat(MAX_CAPTURE_BYTES);
    assert_eq!(truncate(&exact), exact);
    let long = "b".repeat(MAX_CAPTURE_BYTES + 10);
    let t = truncate(&long);
    assert_eq!(t, format!("{}...(truncated)", "b".repeat(MAX_CAPTURE_BYTES)));
    let mixed = format!("{}é{}", "c".repeat(MAX_CAPTURE_BYTES - 2), "d".repeat(5));
    assert_eq!(truncate(&mixed), format!("{}é...(truncated)", "c".repeat(MAX_CAPTURE_BYTES - 2)));
}

#[test]
fn timed_out_result_names_the_timeout() {
    let r = ExecutionResult::timed_out(30);
    assert!(!r.success);
    assert_eq!(r.output, "execution timed out after 30s");
    assert_eq!(r.status_code, None);
    assert_eq!(ExecutionResult::timed_out(0).output, "execution timed out after 0s");
}

#[test]
fn http_result_succeeds_only_on_2xx() {
    let ok = ExecutionResult::from_http_response(204, "done");
    assert!(ok.success);
    assert_eq!(ok.output, "done");
    assert_eq!(ok.status_code, Some(204));
    assert!(!ExecutionResult::from_http_response(199, "").success);
    assert!(ExecutionResult::from_http_response(200, "").success);
    assert!(ExecutionResult::from_http_response(299, "").success);
    assert!(!ExecutionResult::from_http_response(300, "").success);
    assert!(!ExecutionResult::from_http_response(500, "boom").success);
}

#[test]
fn script_result_joins_stderr() {
    let r = ExecutionResult::from_script_output(true, Some(0), "out", "");
    assert!(r.success);
    assert_eq!(r.output, "out");
    assert_eq!(r.status_code, Some(0));
    let r = ExecutionResult::from_script_output(false, Some(-1), "out", "err");
    assert!(!r.success);
    assert_eq!(r.output, "out\nstderr: err");
    assert_eq!(r.status_code, Some(65535));
    let r = ExecutionResult::from_script_output(false, None, "", "x");
    assert_eq!(r.output, "\nstderr: x");
    assert_eq!(r.status_code, None);
}

#[test]
fn success_completes_and_names_the_template() {
    assert_eq!(
        decide_run_outcome(&job(0, 3, None, Some(99)), true, 5, 3600),
        RunOutcome::Completed { parent_job_id: Some(99), scheduled_at: 1_000_000 }
    );
    assert_eq!(
        decide_run_outcome(&job(0, 3, None, None), true, 5, 3600),
        RunOutcome::Completed { parent_job_id: None, scheduled_at: 1_000_000 }
    );
}

#[test]
fn failure_after_expiry_expires() {
    assert_eq!(decide_run_outcome(&job(0, 3, Some(100), None), false, 100, 3600), RunOutcome::Expired);
    assert_eq!(decide_run_outcome(&job(5, 3, Some(100), None), false, 200, 3600), RunOutcome::Expired);
}

#[test]
fn failure_without_retries_left_is_dead_lettered() {
    assert_eq!(decide_run_outcome(&job(3, 3, None, None), false, 100, 3600), RunOutcome::DeadLetter);
    assert_eq!(decide_run_outcome(&job(0, 0, None, None), false, 100, 3600), RunOutcome::DeadLetter);
}

#[test]
fn failure_with_retries_left_backs_off() {
    let now = 1_717_574_400_000_000i64;
    assert_eq!(
        decide_run_outcome(&job(0, 3, Some(now + 1), None), false, now, 3600),
        RunOutcome::Retry { retry_at: now + 60_000_000, attempt_count: 1 }
    );
    assert_eq!(
        decide_run_outcome(&job(1, 3, None, None), false, now, 3600),
        RunOutcome::Retry { retry_at: now + 120_000_000, attempt_count: 2 }
    );
    assert_eq!(
        decide_run_outcome(&job(2, 30, None, None), false, now, 100),
        RunOutcome::Retry { retry_at: now + 100_000_000, attempt_count: 3 }
    );
}

#[test]
fn request_method_upper_cases_the_text() {
    match request_method("get") {
        Ok((text, method)) => {
            assert_eq!(text, "GET");
            assert_eq!(method, reqwest::Method::GET);
        }
        Err(_) => panic!("GET is a method"),
    }
    match request_method("patch") {
        Ok((text, method)) => {
            assert_eq!(text, "PATCH");
            assert_eq!(method, reqwest::Method::PATCH);
        }
        Err(_) => panic!("PATCH is a method"),
    }
    match request_method("purge") {
        Ok((text, method)) => {
            assert_eq!(text, "PURGE");
            assert_eq!(method.as_str(), "PURGE");
        }
        Err(_) => panic!("an extension method is accepted"),
    }
}

#[test]
fn request_method_refuses_a_malformed_method() {
    match request_method("bad method") {
        Ok(_) => panic!("a space is no token character"),
        Err(r) => {
            assert!(!r.success);
            assert_eq!(r.output, "invalid HTTP method: invalid HTTP method");
            assert_eq!(r.status_code, None);
        }
    }
    assert!(request_method("").is_err());
}
