use chrono::Utc;
use uuid::Uuid;

use kronkeeper::heap::{build_heap, JobHeap, ScheduledJob};
use kronkeeper::scheduler::{after_send, next_wakeup_delay, pop_due, DispatchStep, SendOutcome, IDLE_WAKEUP_MICROS};

fn micros(dt: chrono::DateTime<Utc>) -> i64 {
    dt.timestamp_micros()
}

#[test]
fn heap_orders_earliest_first() {
    let now = Utc::now();
    let jobs = vec![
        ScheduledJob { id: Uuid::new_v4().as_u128(), scheduled_at: micros(now + chrono::Duration::minutes(5)) },
        ScheduledJob { id: Uuid::new_v4().as_u128(), scheduled_at: micros(now + chrono::Duration::minutes(1)) },
        ScheduledJob { id: Uuid::new_v4().as_u128(), scheduled_at: micros(now + chrono::Duration::minutes(10)) },
    ];
    let mut heap = build_heap(jobs);
    let first = heap.pop().unwrap();
    let second = heap.pop().unwrap();
    assert!(first.scheduled_at < second.scheduled_at);
}

#[test]
fn heap_pops_every_job_in_time_order() {
    let times = [50i64, -3, 17, 17, 0, 99, 4, 23, 8, 61, 2, 2];
    let jobs: Vec<ScheduledJob> =
        times.iter().enumerate().map(|(i, t)| ScheduledJob { id: i as u128, scheduled_at: *t }).collect();
    let mut heap = build_heap(jobs);
    assert_eq!(heap.len(), times.len());
    let mut out = Vec::new();
    while let Some(j) = heap.pop() {
        out.push(j.scheduled_at);
    }
    let mut sorted = times.to_vec();
    sorted.sort();
    assert_eq!(out, sorted);
    assert!(heap.is_empty());
    assert_eq!(heap.pop(), None);
}

#[test]
fn heap_push_and_peek() {
    let mut heap = JobHeap::new();
    assert_eq!(heap.peek(), None);
    heap.push(ScheduledJob { id: 1, scheduled_at: 30 });
    heap.push(ScheduledJob { id: 2, scheduled_at: 10 });
    heap.push(ScheduledJob { id: 3, scheduled_at: 20 });
    assert_eq!(heap.peek(), Some(ScheduledJob { id: 2, scheduled_at: 10 }));
    assert_eq!(heap.len(), 3);
}

#[test]
fn wakeup_delay_follows_the_earliest_job() {
    let empty = JobHeap::new();
    assert_eq!(next_wakeup_delay(&empty, 100), IDLE_WAKEUP_MICROS);
    assert_eq!(IDLE_WAKEUP_MICROS, 3_600_000_000);
    let heap = build_heap(vec![
        ScheduledJob { id: 1, scheduled_at: 500 },
        ScheduledJob { id: 2, scheduled_at: 250 },
    ]);
    assert_eq!(next_wakeup_delay(&heap, 100), 150);
    assert_eq!(next_wakeup_delay(&heap, 250), 0);
    assert_eq!(next_wakeup_delay(&heap, 900), 0);
}

#[test]
fn pop_due_takes_only_due_jobs() {
    let mut heap = build_heap(vec![
        ScheduledJob { id: 1, scheduled_at: 500 },
        ScheduledJob { id: 2, scheduled_at: 250 },
    ]);
    assert_eq!(pop_due(&mut heap, 100), None);
    assert_eq!(heap.len(), 2);
    assert_eq!(pop_due(&mut heap, 300), Some(ScheduledJob { id: 2, scheduled_at: 250 }));
    assert_eq!(pop_due(&mut heap, 300), None);
    assert_eq!(pop_due(&mut heap, 500), Some(ScheduledJob { id: 1, scheduled_at: 500 }));
    assert!(heap.is_empty());
}

#[test]
fn after_send_requeues_on_full_queue() {
    assert_eq!(after_send(11, 77, 2, SendOutcome::Sent), DispatchStep::Continue);
    assert_eq!(
        after_send(11, 77, 2, SendOutcome::QueueFull),
        DispatchStep::Requeue { id: 11, scheduled_at: 77, attempt_count: 2 }
    );
    assert_eq!(after_send(11, 77, 2, SendOutcome::Closed), DispatchStep::Stop);
}
