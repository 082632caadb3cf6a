//! Deferred work and the one worker that retries it.
//!
//! A deferred action is a plain record: what to do and until when. The worker
//! takes one action at a time from a bounded queue, tries it at once, and
//! after each failure sleeps a fixed delay, looks at the clock and tries
//! again unless the deadline has passed. The queue itself and the sleeping
//! are the caller's; the decisions are here.

use crate::clock::{utc_now, Timestamp};
use crate::downstream::Reply;
use vstd::prelude::*;

verus! {

/// How many deferred actions the queue holds before a producer has to wait.
pub const MESSAGE_QUEUE_SIZE: usize = 10;

/// The pause between two attempts on one action, in milliseconds.
pub const RETRY_DELAY_MILLIS: u64 = 500;

/// How long after it was deferred an action may still be retried, in seconds.
pub const RETRY_WINDOW_SECS: u32 = 10;

/// A request that can be made again later.
#[derive(Clone, Debug, PartialEq, Eq)]
pub enum Operation {
    /// Take one reservation off the user's loyalty account.
    DeleteLoyalty { user: String },
}

/// An operation to retry, and the instant after which it is given up.
#[derive(Clone, Debug, PartialEq, Eq)]
pub struct DeferredAction {
    pub deadline: Timestamp,
    pub operation: Operation,
}

/// What the worker is doing.
#[derive(Clone, Debug, PartialEq, Eq)]
pub enum Worker {
    /// Waiting for the queue to hand out an action.
    Idle,
    /// An attempt on the action is under way.
    Attempting(DeferredAction),
    /// The last attempt failed; the worker sleeps before it looks again.
    Sleeping(DeferredAction),
}

/// What the worker is told.
#[derive(Clone, Debug, PartialEq, Eq)]
pub enum WorkerEvent {
    /// The queue handed out an action.
    Dequeued(DeferredAction),
    /// The attempt ended as `Reply` says.
    Attempted(Reply),
    /// The sleep is over.
    Woke,
}

/// What the worker asks its caller to do next.
#[derive(Clone, Debug, PartialEq, Eq)]
pub enum WorkerAction {
    /// Take the next action from the queue: the last one succeeded, or there
    /// was none yet.
    Receive,
    /// The deadline has passed: drop the action and take the next one.
    Abandon,
    /// Perform the operation.
    Attempt(Operation),
    /// Sleep this long.
    Sleep { millis: u64 },
    /// The event was not one that the worker waits for: go on waiting.
    Nothing,
}

impl Operation {
    pub fn duplicate(&self) -> (copy: Operation)
        ensures
            copy == *self,
    {
        match self {
            Operation::DeleteLoyalty { user } => Operation::DeleteLoyalty { user: user.clone() },
        }
    }
}

impl DeferredAction {
    /// The deadline has passed at `now`: `now` is later than it.
    pub open spec fn spec_expired(&self, now: &Timestamp) -> bool {
        self.deadline.is_before(now)
    }

    #[verifier::when_used_as_spec(spec_expired)]
    pub fn expired(&self, now: &Timestamp) -> (late: bool)
        ensures
            late == self.spec_expired(now),
    {
        self.deadline.is_before(now)
    }
}

impl Worker {
    /// The step that the worker takes on `event`, with `now` as the reading
    /// of the clock. The clock counts in one place only: after a sleep.
    pub open spec fn next(self, event: WorkerEvent, now: Timestamp) -> (Worker, WorkerAction) {
        match (self, event) {
            (Worker::Idle, WorkerEvent::Dequeued(action)) => (
                Worker::Attempting(action),
                WorkerAction::Attempt(action.operation),
            ),
            (Worker::Attempting(action), WorkerEvent::Attempted(reply)) => {
                if reply.settled::<()>() is Ok {
                    (Worker::Idle, WorkerAction::Receive)
                } else {
                    (Worker::Sleeping(action), WorkerAction::Sleep { millis: RETRY_DELAY_MILLIS })
                }
            },
            (Worker::Sleeping(action), WorkerEvent::Woke) => {
                if action.expired(&now) {
                    (Worker::Idle, WorkerAction::Abandon)
                } else {
                    (Worker::Attempting(action), WorkerAction::Attempt(action.operation))
                }
            },
            (state, _) => (state, WorkerAction::Nothing),
        }
    }

    /// A worker with nothing in hand, and its first request.
    pub fn start() -> (step: (Worker, WorkerAction))
        ensures
            step == (Worker::Idle, WorkerAction::Receive),
    {
        (Worker::Idle, WorkerAction::Receive)
    }

    /// One step of the worker at the instant `now`.
    pub fn step_at(self, event: WorkerEvent, now: Timestamp) -> (step: (Worker, WorkerAction))
        ensures
            step == self.next(event, now),
    {
        match (self, event) {
            (Worker::Idle, WorkerEvent::Dequeued(action)) => {
                let operation = action.operation.duplicate();
                (Worker::Attempting(action), WorkerAction::Attempt(operation))
            },
            (Worker::Attempting(action), WorkerEvent::Attempted(reply)) => {
                match reply.settle::<()>() {
                    Ok(_) => (Worker::Idle, WorkerAction::Receive),
                    Err(_) => (
                        Worker::Sleeping(action),
                        WorkerAction::Sleep { millis: RETRY_DELAY_MILLIS },
                    ),
                }
            },
            (Worker::Sleeping(action), WorkerEvent::Woke) => {
                if action.expired(&now) {
                    (Worker::Idle, WorkerAction::Abandon)
                } else {
                    let operation = action.operation.duplicate();
                    (Worker::Attempting(action), WorkerAction::Attempt(operation))
                }
            },
            (state, _) => (state, WorkerAction::Nothing),
        }
    }
}

/// One step of the worker. The clock is read here, and only where the step
/// depends on it: when the worker wakes from a sleep. Whatever the clock
/// says, the step is the one that `Worker::next` gives for that reading.
pub fn queue_sender(state: Worker, event: WorkerEvent) -> (step: (Worker, WorkerAction))
    ensures
        exists|now: Timestamp| step == state.next(event, now),
{
    let now = match (&state, &event) {
        (Worker::Sleeping(_), WorkerEvent::Woke) => utc_now(),
        _ => Timestamp { secs: 0, nanos: 0 },
    };
    state.step_at(event, now)
}

} // verus!
