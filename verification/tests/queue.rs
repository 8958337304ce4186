use lotide::delivery::Task;
use lotide::queue::{
    after_attempt, backoff_secs, classify_attempt, destination_free, enqueue_task, next_due,
    release_all, settle, trigger_result, with_jitter, AttemptOutcome, Disposition, TaskRow,
    TrySend, WakeSlot,
};
use lotide::Error;

fn task() -> Task {
    Task::Fetch { url: "https://peer.example/x".to_owned(), reason: "test".to_owned() }
}

fn row(id: i64, not_before: i64, created_at: i64, claimed: bool) -> TaskRow {
    TaskRow {
        id,
        task: task(),
        attempts: 0,
        max_attempts: 8,
        created_at,
        not_before,
        latest_err: None,
        claimed,
    }
}

#[test]
fn backoff_doubles_from_a_minute_up_to_an_hour() {
    assert_eq!(backoff_secs(0), 60);
    assert_eq!(backoff_secs(1), 120);
    assert_eq!(backoff_secs(2), 240);
    assert_eq!(backoff_secs(3), 480);
    assert_eq!(backoff_secs(4), 960);
    assert_eq!(backoff_secs(5), 1920);
    assert_eq!(backoff_secs(6), 3600);
    assert_eq!(backoff_secs(7), 3600);
    assert_eq!(backoff_secs(u32::MAX), 3600);
}

#[test]
fn jitter_stays_within_a_tenth() {
    assert_eq!(with_jitter(3600, 0), 3600);
    assert_eq!(with_jitter(3600, 100), 3960);
    assert_eq!(with_jitter(3600, -100), 3240);
    assert_eq!(with_jitter(3600, 1000), 3960);
    assert_eq!(with_jitter(3600, i32::MIN), 3240);
    assert_eq!(with_jitter(120, 50), 126);
    assert_eq!(with_jitter(120, -50), 114);
    assert_eq!(with_jitter(60, 33), 61);
    assert_eq!(with_jitter(0, 100), 0);
    assert_eq!(with_jitter(u64::MAX, 100), u64::MAX);
    assert_eq!(with_jitter(u64::MAX, -100), u64::MAX - u64::MAX / 10);
    assert_eq!(with_jitter(1_000_000, 1), 1_001_000);
}

#[test]
fn responses_are_classified() {
    assert_eq!(classify_attempt(Some(200)), AttemptOutcome::Delivered);
    assert_eq!(classify_attempt(Some(202)), AttemptOutcome::Delivered);
    assert_eq!(classify_attempt(Some(299)), AttemptOutcome::Delivered);
    assert_eq!(classify_attempt(None), AttemptOutcome::Transient);
    assert_eq!(classify_attempt(Some(500)), AttemptOutcome::Transient);
    assert_eq!(classify_attempt(Some(503)), AttemptOutcome::Transient);
    assert_eq!(classify_attempt(Some(599)), AttemptOutcome::Transient);
    assert_eq!(classify_attempt(Some(408)), AttemptOutcome::Transient);
    assert_eq!(classify_attempt(Some(429)), AttemptOutcome::Transient);
    assert_eq!(classify_attempt(Some(400)), AttemptOutcome::Permanent);
    assert_eq!(classify_attempt(Some(401)), AttemptOutcome::Permanent);
    assert_eq!(classify_attempt(Some(404)), AttemptOutcome::Permanent);
    assert_eq!(classify_attempt(Some(410)), AttemptOutcome::Permanent);
    assert_eq!(classify_attempt(Some(301)), AttemptOutcome::Permanent);
    assert_eq!(classify_attempt(Some(600)), AttemptOutcome::Permanent);
}

#[test]
fn at_least_once() {
    // Seven failures that may pass, then a success: the task survives every
    // failure and ends delivered.
    let max = 8;
    let mut attempts = 0;
    let mut now = 1000;
    for k in 1..=7 {
        match after_attempt(attempts, max, AttemptOutcome::Transient, now, 0) {
            Disposition::Retry { attempts: made, not_before } => {
                assert_eq!(made, k);
                assert_eq!(not_before, now + backoff_secs(k as u32) as i64);
                attempts = made;
                now = not_before;
            }
            other => panic!("gave up after {} failures: {:?}", k, other),
        }
    }
    assert_eq!(after_attempt(attempts, max, AttemptOutcome::Delivered, now, 0), Disposition::Done);
    // The eighth failure uses up the last attempt.
    assert_eq!(
        after_attempt(attempts, max, AttemptOutcome::Transient, now, 0),
        Disposition::GiveUp
    );
}

#[test]
fn permanent_failure_and_odd_counts_give_up() {
    assert_eq!(after_attempt(0, 8, AttemptOutcome::Permanent, 0, 0), Disposition::GiveUp);
    assert_eq!(after_attempt(8, 8, AttemptOutcome::Transient, 0, 0), Disposition::GiveUp);
    assert_eq!(after_attempt(-1, 8, AttemptOutcome::Transient, 0, 0), Disposition::GiveUp);
    assert_eq!(after_attempt(0, 0, AttemptOutcome::Transient, 0, 0), Disposition::GiveUp);
    assert_eq!(after_attempt(i32::MAX, i32::MAX, AttemptOutcome::Transient, 0, 0), Disposition::GiveUp);
    assert_eq!(after_attempt(9, 8, AttemptOutcome::Delivered, 0, 0), Disposition::Done);
    assert_eq!(
        after_attempt(0, 8, AttemptOutcome::Transient, i64::MAX - 10, 0),
        Disposition::Retry { attempts: 1, not_before: i64::MAX }
    );
    assert_eq!(
        after_attempt(0, 8, AttemptOutcome::Transient, 100, -100),
        Disposition::Retry { attempts: 1, not_before: 100 + 108 }
    );
}

#[test]
fn tasks_are_claimed_by_time_then_by_age() {
    let rows = vec![
        row(1, 50, 5, false),
        row(2, 20, 9, false),
        row(3, 20, 7, false),
        row(4, 10, 1, true),
        row(5, 200, 0, false),
        row(6, 20, 7, false),
    ];
    assert_eq!(next_due(&rows, 100), Some(2));
    assert_eq!(next_due(&rows, 19), None);
    assert_eq!(next_due(&rows, 20), Some(2));
    assert_eq!(next_due(&rows, 1000), Some(2));
    assert_eq!(next_due(&rows[..0].to_vec(), 100), None);
    assert_eq!(next_due(&vec![row(5, 200, 0, false)], 200), Some(0));
}

#[test]
fn worker_settings() {
    assert_eq!(lotide::queue::WORKERS, 4);
    assert_eq!(lotide::queue::POLL_SECS, 30);
    assert_eq!(lotide::queue::DELIVERY_DEADLINE_SECS, 60);
    assert_eq!(lotide::queue::PER_DESTINATION_LIMIT, 2);
    assert_eq!(lotide::queue::MAX_BACKOFF_SECS, 3600);
}

#[test]
fn two_deliveries_per_destination() {
    let running = vec!["a.example".to_owned(), "b.example".to_owned(), "a.example".to_owned()];
    assert!(!destination_free(&running, "a.example"));
    assert!(destination_free(&running, "b.example"));
    assert!(destination_free(&running, "c.example"));
    assert!(destination_free(&Vec::new(), "a.example"));
}

#[test]
fn a_full_channel_holds_a_wakeup_already() {
    let mut slot = WakeSlot::new();
    assert!(!slot.take());
    assert_eq!(slot.try_send(), TrySend::Sent);
    assert_eq!(slot.try_send(), TrySend::Full);
    assert_eq!(slot.try_send(), TrySend::Full);
    assert!(slot.take());
    assert!(!slot.take());
    assert_eq!(slot.try_send(), TrySend::Sent);
}

#[test]
fn enqueueing_adds_a_row_whatever_became_of_the_wakeup() {
    let mut rows = Vec::new();
    let mut wake = WakeSlot::new();
    assert!(enqueue_task(&mut rows, &mut wake, 1, task(), 100).is_ok());
    assert!(wake.pending);
    assert!(enqueue_task(&mut rows, &mut wake, 2, task(), 101).is_ok());
    assert!(wake.take());
    wake.close();
    match enqueue_task(&mut rows, &mut wake, 3, task(), 102) {
        Err(Error::InternalStrStatic(msg)) => assert_eq!(msg, "Worker channel closed"),
        other => panic!("{:?}", other),
    }
    assert!(!wake.pending && wake.closed);
    assert_eq!(wake.try_send(), TrySend::Closed);
    assert_eq!(rows.len(), 3);
    assert_eq!(rows[2].id, 3);
    assert_eq!(rows[2].attempts, 0);
    assert_eq!(rows[2].max_attempts, 8);
    assert_eq!(rows[2].created_at, 102);
    assert_eq!(rows[2].not_before, 102);
    assert!(!rows[2].claimed);
    assert_eq!(rows[2].latest_err, None);
}

#[test]
fn settling_removes_or_releases_the_row() {
    let mut rows = vec![row(1, 0, 0, true), row(2, 0, 0, true), row(3, 0, 0, true)];
    let d = settle(&mut rows, 1, AttemptOutcome::Transient, 500, 0, Some("503".to_owned()));
    assert_eq!(d, Disposition::Retry { attempts: 1, not_before: 620 });
    assert_eq!(rows.len(), 3);
    assert_eq!(rows[1].id, 2);
    assert_eq!(rows[1].attempts, 1);
    assert_eq!(rows[1].not_before, 620);
    assert_eq!(rows[1].latest_err.as_deref(), Some("503"));
    assert!(!rows[1].claimed);
    let d = settle(&mut rows, 0, AttemptOutcome::Delivered, 500, 0, None);
    assert_eq!(d, Disposition::Done);
    assert_eq!(rows.iter().map(|r| r.id).collect::<Vec<_>>(), vec![2, 3]);
    let d = settle(&mut rows, 1, AttemptOutcome::Permanent, 500, 0, Some("404".to_owned()));
    assert_eq!(d, Disposition::GiveUp);
    assert_eq!(rows.iter().map(|r| r.id).collect::<Vec<_>>(), vec![2]);
}

#[test]
fn tasks_left_behind_are_due_again_after_a_restart() {
    let mut rows = vec![row(1, 10, 1, true), row(2, 5, 2, false), row(3, 7, 3, true)];
    assert_eq!(next_due(&rows, 100), Some(1));
    release_all(&mut rows);
    assert_eq!(rows.iter().map(|r| (r.id, r.claimed)).collect::<Vec<_>>(), vec![
        (1, false),
        (2, false),
        (3, false),
    ]);
    assert_eq!(rows[0].not_before, 10);
    assert_eq!(next_due(&rows, 6), Some(1));
    assert_eq!(next_due(&rows, 8), Some(1));
    let mut none: Vec<TaskRow> = Vec::new();
    release_all(&mut none);
    assert!(none.is_empty());
}

#[test]
fn only_a_closed_channel_is_an_error() {
    assert!(trigger_result(TrySend::Sent).is_ok());
    assert!(trigger_result(TrySend::Full).is_ok());
    assert!(matches!(trigger_result(TrySend::Closed), Err(Error::InternalStrStatic(_))));
}

#[test]
fn a_random_number_gives_a_jitter_within_a_tenth() {
    assert_eq!(lotide::queue::jitter_permille(0), -100);
    assert_eq!(lotide::queue::jitter_permille(100), 0);
    assert_eq!(lotide::queue::jitter_permille(200), 100);
    assert_eq!(lotide::queue::jitter_permille(201), -100);
    assert_eq!(lotide::queue::jitter_permille(u128::MAX), (u128::MAX % 201) as i32 - 100);
    assert!((-100..=100).contains(&lotide::queue::jitter_permille(u128::MAX)));
}

#[test]
fn a_body_beyond_the_limit_is_not_sent() {
    assert_eq!(lotide::delivery::MAX_DELIVERY_BYTES, 1 << 20);
    let deliver = |len: usize| Task::DeliverToInbox {
        inbox: "https://peer.example/inbox".to_owned(),
        sign_as: None,
        object: "x".repeat(len),
    };
    assert!(deliver(1 << 20).within_limit());
    assert!(!deliver((1 << 20) + 1).within_limit());
    assert_eq!(lotide::queue::before_attempt(&deliver(1 << 20)), None);
    assert_eq!(
        lotide::queue::before_attempt(&deliver((1 << 20) + 1)),
        Some(AttemptOutcome::Permanent)
    );
    // Bytes count, not characters.
    let wide = Task::DeliverToFollowers {
        community: lotide::CommunityLocalID(1),
        object: "\u{e9}".repeat((1 << 19) + 1),
    };
    assert!(!wide.within_limit());
    assert_eq!(lotide::queue::before_attempt(&task()), None);
    assert!(task().within_limit());
}

#[test]
fn a_claimed_row_is_due_for_nobody_else() {
    let mut rows = Vec::new();
    let mut wake = WakeSlot::new();
    for (id, now) in [(1, 30), (2, 10), (3, 10)] {
        enqueue_task(&mut rows, &mut wake, id, task(), now).unwrap();
    }
    assert_eq!(lotide::queue::claim_next(&mut rows, 5), None);
    assert_eq!(lotide::queue::claim_next(&mut rows, 20), Some(1));
    assert!(rows[1].claimed && !rows[0].claimed && !rows[2].claimed);
    assert_eq!(rows[1].id, 2);
    assert_eq!(lotide::queue::claim_next(&mut rows, 20), Some(2));
    assert_eq!(lotide::queue::claim_next(&mut rows, 20), None);
    assert_eq!(lotide::queue::claim_next(&mut rows, 30), Some(0));
    assert_eq!(lotide::queue::claim_next(&mut rows, 1000), None);
    release_all(&mut rows);
    assert_eq!(lotide::queue::claim_next(&mut rows, 1000), Some(1));
}
