use svc_gateway::clock::Timestamp;
use svc_gateway::downstream::{Body, Reply};
use svc_gateway::retry::{
    queue_sender, DeferredAction, Operation, Worker, WorkerAction, WorkerEvent,
    MESSAGE_QUEUE_SIZE, RETRY_DELAY_MILLIS, RETRY_WINDOW_SECS,
};
use svc_gateway::status::StatusCode;

fn operation() -> Operation {
    Operation::DeleteLoyalty { user: "Test Max".to_string() }
}

fn deferred(deadline_secs: i64) -> DeferredAction {
    DeferredAction { deadline: Timestamp { secs: deadline_secs, nanos: 500 }, operation: operation() }
}

fn at(secs: i64, nanos: u32) -> Timestamp {
    Timestamp { secs, nanos }
}

fn failed() -> WorkerEvent {
    WorkerEvent::Attempted(Reply::Unreachable)
}

fn succeeded() -> WorkerEvent {
    WorkerEvent::Attempted(Reply::Answered { status: StatusCode { code: 204 }, body: Body::Unreadable })
}

#[test]
fn retry_settings() {
    assert_eq!(MESSAGE_QUEUE_SIZE, 10);
    assert_eq!(RETRY_DELAY_MILLIS, 500);
    assert_eq!(RETRY_WINDOW_SECS, 10);
}

#[test]
fn worker_starts_by_asking_the_queue() {
    assert_eq!(Worker::start(), (Worker::Idle, WorkerAction::Receive));
}

#[test]
fn worker_attempts_at_once_whatever_the_time() {
    for now in [at(0, 0), at(100, 500), at(100, 501), at(i64::MAX, 0)] {
        let (state, action) = Worker::Idle.step_at(WorkerEvent::Dequeued(deferred(100)), now);
        assert_eq!(state, Worker::Attempting(deferred(100)));
        assert_eq!(action, WorkerAction::Attempt(operation()));
    }
}

#[test]
fn worker_is_done_with_an_action_that_succeeds() {
    let (state, action) = Worker::Attempting(deferred(100)).step_at(succeeded(), at(0, 0));
    assert_eq!(state, Worker::Idle);
    assert_eq!(action, WorkerAction::Receive);
}

#[test]
fn worker_sleeps_half_a_second_after_a_failure() {
    for reply in [
        Reply::Unreachable,
        Reply::Answered { status: StatusCode { code: 500 }, body: Body::Unreadable },
        Reply::Answered { status: StatusCode { code: 404 }, body: Body::Unreadable },
    ] {
        let (state, action) =
            Worker::Attempting(deferred(100)).step_at(WorkerEvent::Attempted(reply), at(0, 0));
        assert_eq!(state, Worker::Sleeping(deferred(100)));
        assert_eq!(action, WorkerAction::Sleep { millis: 500 });
    }
}

#[test]
fn worker_tries_again_up_to_the_deadline() {
    for now in [at(0, 0), at(99, 999_999_999), at(100, 0), at(100, 499), at(100, 500)] {
        let (state, action) = Worker::Sleeping(deferred(100)).step_at(WorkerEvent::Woke, now);
        assert_eq!(state, Worker::Attempting(deferred(100)));
        assert_eq!(action, WorkerAction::Attempt(operation()));
    }
}

#[test]
fn worker_gives_up_after_the_deadline() {
    for now in [at(100, 501), at(101, 0), at(1_000_000, 0)] {
        let (state, action) = Worker::Sleeping(deferred(100)).step_at(WorkerEvent::Woke, now);
        assert_eq!(state, Worker::Idle);
        assert_eq!(action, WorkerAction::Abandon);
    }
}

#[test]
fn worker_ignores_what_it_does_not_wait_for() {
    let now = at(0, 0);
    assert_eq!(Worker::Idle.step_at(WorkerEvent::Woke, now), (Worker::Idle, WorkerAction::Nothing));
    assert_eq!(Worker::Idle.step_at(failed(), now), (Worker::Idle, WorkerAction::Nothing));
    assert_eq!(
        Worker::Attempting(deferred(1)).step_at(WorkerEvent::Woke, now),
        (Worker::Attempting(deferred(1)), WorkerAction::Nothing)
    );
    assert_eq!(
        Worker::Attempting(deferred(1)).step_at(WorkerEvent::Dequeued(deferred(2)), now),
        (Worker::Attempting(deferred(1)), WorkerAction::Nothing)
    );
    assert_eq!(
        Worker::Sleeping(deferred(1)).step_at(succeeded(), now),
        (Worker::Sleeping(deferred(1)), WorkerAction::Nothing)
    );
    assert_eq!(
        Worker::Sleeping(deferred(1)).step_at(WorkerEvent::Dequeued(deferred(2)), now),
        (Worker::Sleeping(deferred(1)), WorkerAction::Nothing)
    );
}

#[test]
fn worker_retries_until_it_succeeds() {
    let (state, action) = Worker::start();
    assert_eq!(action, WorkerAction::Receive);
    let (state, action) = state.step_at(WorkerEvent::Dequeued(deferred(10)), at(0, 0));
    assert_eq!(action, WorkerAction::Attempt(operation()));
    let (state, action) = state.step_at(failed(), at(0, 1));
    assert_eq!(action, WorkerAction::Sleep { millis: 500 });
    let (state, action) = state.step_at(WorkerEvent::Woke, at(0, 500_000_001));
    assert_eq!(action, WorkerAction::Attempt(operation()));
    let (state, action) = state.step_at(failed(), at(0, 600_000_000));
    assert_eq!(action, WorkerAction::Sleep { millis: 500 });
    let (state, action) = state.step_at(WorkerEvent::Woke, at(1, 100_000_000));
    assert_eq!(action, WorkerAction::Attempt(operation()));
    let (state, action) = state.step_at(succeeded(), at(1, 200_000_000));
    assert_eq!(state, Worker::Idle);
    assert_eq!(action, WorkerAction::Receive);
}

#[test]
fn worker_retries_until_the_deadline() {
    let (state, _) = Worker::start();
    let (state, _) = state.step_at(WorkerEvent::Dequeued(deferred(1)), at(0, 0));
    let (state, _) = state.step_at(failed(), at(0, 1));
    let (state, action) = state.step_at(WorkerEvent::Woke, at(0, 500_000_001));
    assert_eq!(action, WorkerAction::Attempt(operation()));
    let (state, _) = state.step_at(failed(), at(0, 600_000_000));
    let (state, action) = state.step_at(WorkerEvent::Woke, at(1, 100_000_000));
    assert_eq!(state, Worker::Idle);
    assert_eq!(action, WorkerAction::Abandon);
}

#[test]
fn worker_with_the_clock_read_here() {
    // a deadline at the start of 1970 has passed, one in the far future has not
    let (state, action) = queue_sender(Worker::Sleeping(deferred(0)), WorkerEvent::Woke);
    assert_eq!(state, Worker::Idle);
    assert_eq!(action, WorkerAction::Abandon);

    let (state, action) = queue_sender(Worker::Sleeping(deferred(i64::MAX)), WorkerEvent::Woke);
    assert_eq!(state, Worker::Attempting(deferred(i64::MAX)));
    assert_eq!(action, WorkerAction::Attempt(operation()));

    let (state, action) = queue_sender(Worker::Idle, WorkerEvent::Dequeued(deferred(0)));
    assert_eq!(state, Worker::Attempting(deferred(0)));
    assert_eq!(action, WorkerAction::Attempt(operation()));

    let (state, action) = queue_sender(state, failed());
    assert_eq!(state, Worker::Sleeping(deferred(0)));
    assert_eq!(action, WorkerAction::Sleep { millis: 500 });
}

#[test]
fn deadline_is_passed_only_by_a_later_instant() {
    let action = deferred(100);
    assert!(!action.expired(&at(100, 500)));
    assert!(action.expired(&at(100, 501)));
    assert!(!action.expired(&at(99, 999_999_999)));
    assert!(action.expired(&at(101, 0)));
}

#[test]
fn operation_can_be_copied() {
    assert_eq!(operation().duplicate(), operation());
}

/// Every sequence of `length` events over a small alphabet, with the clock
/// reading that goes with each.
fn event_sequences(length: usize) -> Vec<Vec<(WorkerEvent, Timestamp)>> {
    let alphabet = vec![
        (WorkerEvent::Dequeued(deferred(100)), at(0, 0)),
        (WorkerEvent::Dequeued(deferred(100)), at(200, 0)),
        (succeeded(), at(0, 0)),
        (failed(), at(0, 0)),
        (WorkerEvent::Woke, at(50, 0)),
        (WorkerEvent::Woke, at(150, 0)),
    ];
    let mut sequences: Vec<Vec<(WorkerEvent, Timestamp)>> = vec![vec![]];
    for _ in 0..length {
        let mut longer = Vec::new();
        for sequence in &sequences {
            for letter in &alphabet {
                let mut next = sequence.clone();
                next.push(letter.clone());
                longer.push(next);
            }
        }
        sequences = longer;
    }
    sequences
}

#[test]
fn repeated_attempts_follow_a_sleep_and_keep_the_deadline() {
    for sequence in event_sequences(6) {
        let (mut state, _) = Worker::start();
        let mut since_attempt: Option<Vec<WorkerAction>> = None;
        for (event, now) in sequence {
            let woke = event == WorkerEvent::Woke;
            let (next, action) = state.step_at(event, now);
            match &action {
                WorkerAction::Attempt(op) => {
                    assert_eq!(*op, operation());
                    if woke {
                        // not later than the deadline of 100 s and 500 ns
                        assert!(!Timestamp { secs: 100, nanos: 500 }.is_before(&now));
                        let between = since_attempt.clone().expect("an earlier attempt");
                        let sleeps: Vec<&WorkerAction> =
                            between.iter().filter(|a| **a != WorkerAction::Nothing).collect();
                        assert_eq!(sleeps, vec![&WorkerAction::Sleep { millis: 500 }]);
                    }
                    since_attempt = Some(vec![]);
                }
                WorkerAction::Receive | WorkerAction::Abandon => {
                    assert_eq!(next, Worker::Idle);
                    since_attempt = None;
                }
                other => {
                    if let Some(actions) = since_attempt.as_mut() {
                        actions.push(other.clone());
                    }
                }
            }
            state = next;
        }
    }
}
