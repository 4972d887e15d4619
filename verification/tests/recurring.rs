use chrono::{TimeZone, Utc};

use kronkeeper::job::{ConcurrencyPolicy, Job, JobPayload, JobRow, JobState};
use kronkeeper::recurring::{
    count_words, instance_key, next_fire_after, normalize_cron_expr, plan_after_key_check, plan_after_next_fire,
    plan_after_siblings, plan_first_instance, plan_spawn, sibling_states, CronError, SpawnAction,
};

fn at(y: i32, mo: u32, d: u32, h: u32, mi: u32, s: u32) -> i64 {
    Utc.with_ymd_and_hms(y, mo, d, h, mi, s).unwrap().timestamp_micros()
}

fn template(cron: Option<&str>) -> Job {
    Job::from_row(JobRow {
        id: 0x67e5504410b1426f9247bb680e5fe0c8,
        idempotency_key: "nightly".to_string(),
        client_id: Some(1),
        payload: JobPayload::Script { path: "hello.sh".to_string(), args: vec![], timeout_sec: 120 },
        state: "SCHEDULED".to_string(),
        scheduled_at: at(2024, 6, 5, 2, 0, 0),
        leased_until: None,
        expires_at: None,
        attempt_count: 0,
        max_retries: 3,
        retry_delay_sec: 60,
        created_at: 0,
        updated_at: 0,
        webhook_url: None,
        webhook_success: None,
        webhook_attempts: 0,
        is_recurring: true,
        cron_expr: cron.map(|s| s.to_string()),
        next_instance_at: None,
        max_occurrences: None,
        occurrences_completed: 0,
        recurrence_end_at: None,
        parent_job_id: None,
        concurrency_policy: "queue_once".to_string(),
        is_template: true,
    })
    .unwrap()
}

#[test]
fn computes_next_fire_from_cron() {
    let start = Utc.with_ymd_and_hms(2024, 6, 5, 7, 0, 0).unwrap();
    let next = next_fire_after("0 8 * * *", start.timestamp_micros()).unwrap();
    let next = chrono::DateTime::<Utc>::from_timestamp_micros(next).unwrap();
    assert_eq!(next.format("%H").to_string(), "08");
}

#[test]
fn next_fire_is_exact_for_five_six_and_seven_fields() {
    let start = at(2024, 6, 5, 7, 0, 0);
    assert_eq!(next_fire_after("0 8 * * *", start).unwrap(), at(2024, 6, 5, 8, 0, 0));
    assert_eq!(next_fire_after("30 0 8 * * *", start).unwrap(), at(2024, 6, 5, 8, 0, 30));
    assert_eq!(next_fire_after("0 0 6 * * * *", start).unwrap(), at(2024, 6, 6, 6, 0, 0));
}

#[test]
fn next_fire_errors() {
    let start = at(2024, 6, 5, 7, 0, 0);
    assert!(matches!(next_fire_after("not a cron", start), Err(CronError::Invalid(_))));
    assert!(matches!(next_fire_after("0 0 0 1 1 * 2000", start), Err(CronError::NoNextFire)));
}

#[test]
fn normalize_completes_short_expressions() {
    assert_eq!(normalize_cron_expr("0 8 * * *"), "0 0 8 * * * *");
    assert_eq!(normalize_cron_expr("  0 8 * * * "), "0   0 8 * * *  *");
    assert_eq!(normalize_cron_expr("0 0 8 * * *"), "0 0 8 * * * *");
    assert_eq!(normalize_cron_expr("0 0 8 * * * 2030"), "0 0 8 * * * 2030");
    assert_eq!(normalize_cron_expr("@daily"), "@daily");
    assert_eq!(count_words(" a\tb\u{3000}c\n"), 3);
    assert_eq!(count_words(""), 0);
    assert_eq!(count_words("   "), 0);
}

#[test]
fn instance_key_is_template_id_and_rfc3339_time() {
    let key = instance_key(0x67e5504410b1426f9247bb680e5fe0c8, at(2024, 6, 5, 8, 0, 0));
    assert_eq!(key, "67e55044-10b1-426f-9247-bb680e5fe0c8:2024-06-05T08:00:00+00:00");
    let inst = plan_first_instance(&template(Some("0 8 * * *")), at(2024, 6, 5, 8, 0, 0));
    assert_eq!(inst.idempotency_key, key);
    assert_eq!(inst.parent_job_id, Some(0x67e5504410b1426f9247bb680e5fe0c8));
}

#[test]
fn sibling_states_per_policy() {
    assert_eq!(sibling_states(ConcurrencyPolicy::Skip), Some(vec![JobState::Leased, JobState::Running]));
    assert_eq!(
        sibling_states(ConcurrencyPolicy::QueueOnce),
        Some(vec![JobState::Scheduled, JobState::Leased, JobState::Running])
    );
    assert_eq!(sibling_states(ConcurrencyPolicy::Allow), None);
}

#[test]
fn spawn_stops_for_non_templates_and_cancelled_ones() {
    let last = at(2024, 6, 5, 2, 0, 0);
    assert!(matches!(plan_spawn(None, last), Ok(SpawnAction::Stop)));
    let mut t = template(Some("0 2 * * *"));
    t.is_template = false;
    assert!(matches!(plan_spawn(Some(&t), last), Ok(SpawnAction::Stop)));
    let mut t = template(Some("0 2 * * *"));
    t.state = JobState::Cancelled;
    assert!(matches!(plan_spawn(Some(&t), last), Ok(SpawnAction::Stop)));
    let t = template(None);
    assert!(matches!(plan_spawn(Some(&t), last), Ok(SpawnAction::Stop)));
}

#[test]
fn spawn_completes_template_at_max_occurrences() {
    let mut t = template(Some("0 2 * * *"));
    t.max_occurrences = Some(3);
    t.occurrences_completed = 2;
    assert!(matches!(plan_spawn(Some(&t), at(2024, 6, 5, 2, 0, 0)), Ok(SpawnAction::CompleteTemplate)));
    t.occurrences_completed = 1;
    match plan_spawn(Some(&t), at(2024, 6, 5, 2, 0, 0)) {
        Ok(SpawnAction::CountSiblings { next_fire }) => assert_eq!(next_fire, at(2024, 6, 6, 2, 0, 0)),
        other => panic!("unexpected {:?}", other),
    }
}

#[test]
fn spawn_completes_template_past_end_date() {
    let mut t = template(Some("0 2 * * *"));
    t.recurrence_end_at = Some(at(2024, 6, 6, 1, 0, 0));
    assert!(matches!(plan_spawn(Some(&t), at(2024, 6, 5, 2, 0, 0)), Ok(SpawnAction::CompleteTemplate)));
    assert!(matches!(plan_after_next_fire(&t, at(2024, 6, 6, 1, 0, 0)), SpawnAction::CountSiblings { .. }));
    let bad = template(Some("nonsense"));
    assert!(matches!(plan_spawn(Some(&bad), at(2024, 6, 5, 2, 0, 0)), Err(CronError::Invalid(_))));
}

#[test]
fn spawn_skips_or_checks_key_after_counting() {
    let fire = at(2024, 6, 6, 2, 0, 0);
    let id = 0x67e5504410b1426f9247bb680e5fe0c8u128;
    assert!(matches!(
        plan_after_siblings(id, ConcurrencyPolicy::Skip, 1, fire),
        SpawnAction::SkipOccurrence { next_fire } if next_fire == fire
    ));
    assert!(matches!(
        plan_after_siblings(id, ConcurrencyPolicy::QueueOnce, 2, fire),
        SpawnAction::SkipOccurrence { .. }
    ));
    match plan_after_siblings(id, ConcurrencyPolicy::Allow, 5, fire) {
        SpawnAction::CheckKey { next_fire, key } => {
            assert_eq!(next_fire, fire);
            assert_eq!(key, "67e55044-10b1-426f-9247-bb680e5fe0c8:2024-06-06T02:00:00+00:00");
        }
        other => panic!("unexpected {:?}", other),
    }
    assert!(matches!(plan_after_siblings(id, ConcurrencyPolicy::Skip, 0, fire), SpawnAction::CheckKey { .. }));
    assert!(matches!(plan_after_key_check(true, fire, "k".to_string()), SpawnAction::Stop));
    assert!(matches!(
        plan_after_key_check(false, fire, "k".to_string()),
        SpawnAction::InsertInstance { next_fire, ref key } if next_fire == fire && key == "k"
    ));
}
