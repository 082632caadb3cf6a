//! What holds of the retry worker, whatever it is told and whatever the
//! clock says.

use crate::clock::Timestamp;
use crate::retry::{DeferredAction, Worker, WorkerAction, WorkerEvent, RETRY_DELAY_MILLIS};
use vstd::prelude::*;

verus! {

/// The state of a worker that started idle, after the first `n` of `ticks`.
/// A tick is an event together with the reading of the clock at that moment.
pub open spec fn worker_after(ticks: Seq<(WorkerEvent, Timestamp)>, n: nat) -> Worker
    decreases n,
{
    if n == 0 {
        Worker::Idle
    } else {
        worker_after(ticks, (n - 1) as nat).next(ticks[n - 1].0, ticks[n - 1].1).0
    }
}

/// What the worker does on tick `i`.
pub open spec fn worker_action(ticks: Seq<(WorkerEvent, Timestamp)>, i: int) -> WorkerAction {
    worker_after(ticks, i as nat).next(ticks[i].0, ticks[i].1).1
}

/// An attempt is made in two places only: at once when the queue hands out an
/// action, and after a sleep, and then only where the clock has not passed
/// the deadline. What is attempted is the operation of the action in hand.
pub proof fn law_attempts_stop_at_the_deadline(state: Worker, event: WorkerEvent, now: Timestamp)
    requires
        state.next(event, now).1 is Attempt,
    ensures
        (event matches WorkerEvent::Dequeued(action) && state is Idle && state.next(event, now).1
            == WorkerAction::Attempt(action.operation)) || (event is Woke && state is Sleeping
            && !state->Sleeping_0.deadline.is_before(&now) && state.next(event, now).1
            == WorkerAction::Attempt(state->Sleeping_0.operation)),
{
}

/// A worker that wakes after the deadline drops the action and turns to the
/// queue.
pub proof fn law_expired_action_is_abandoned(action: DeferredAction, now: Timestamp)
    requires
        action.deadline.is_before(&now),
    ensures
        Worker::Sleeping(action).next(WorkerEvent::Woke, now) == (
            Worker::Idle,
            WorkerAction::Abandon,
        ),
{
}

/// The worker has one action in hand at a time: it asks the queue for the
/// next one only when it is idle again, and an action that is handed to it
/// while it is busy changes nothing.
pub proof fn law_one_action_at_a_time(state: Worker, event: WorkerEvent, now: Timestamp)
    ensures
        state.next(event, now).1 is Receive || state.next(event, now).1 is Abandon
            ==> state.next(event, now).0 is Idle,
        !(state is Idle) && event is Dequeued ==> state.next(event, now) == (
            state,
            WorkerAction::Nothing,
        ),
{
}

/// The tick at which the sleep began that the worker is in after `n` ticks.
spec fn sleep_began(ticks: Seq<(WorkerEvent, Timestamp)>, n: nat) -> int
    decreases n,
{
    if n == 0 {
        0
    } else if worker_after(ticks, (n - 1) as nat) is Sleeping {
        sleep_began(ticks, (n - 1) as nat)
    } else {
        n - 1
    }
}

proof fn lemma_sleep_follows_failed_attempt(ticks: Seq<(WorkerEvent, Timestamp)>, n: nat)
    requires
        n <= ticks.len(),
        worker_after(ticks, n) is Sleeping,
    ensures
        0 <= sleep_began(ticks, n) < n,
        worker_action(ticks, sleep_began(ticks, n)) == (WorkerAction::Sleep {
            millis: RETRY_DELAY_MILLIS,
        }),
        worker_after(ticks, sleep_began(ticks, n) as nat) == Worker::Attempting(
            worker_after(ticks, n)->Sleeping_0,
        ),
        forall|m: int|
            sleep_began(ticks, n) < m < n ==> #[trigger] worker_action(ticks, m) is Nothing,
    decreases n,
{
    if n > 0 && worker_after(ticks, (n - 1) as nat) is Sleeping {
        lemma_sleep_follows_failed_attempt(ticks, (n - 1) as nat);
    }
}

/// Attempts on one action are spaced by the fixed delay: an attempt that is
/// made after a sleep was preceded by a failed attempt on the same action,
/// upon which the worker asked for a sleep of exactly the retry delay, and
/// it asked for nothing else in between.
pub proof fn law_attempts_are_spaced(ticks: Seq<(WorkerEvent, Timestamp)>, j: int)
    requires
        0 <= j < ticks.len(),
        ticks[j].0 is Woke,
        worker_action(ticks, j) is Attempt,
    ensures
        exists|i: int|
            {
                &&& 0 <= i < j
                &&& #[trigger] worker_action(ticks, i) == (WorkerAction::Sleep {
                    millis: RETRY_DELAY_MILLIS,
                })
                &&& ticks[i].0 is Attempted
                &&& worker_after(ticks, i as nat) is Attempting
                &&& worker_after(ticks, i as nat)->Attempting_0.operation == worker_action(
                    ticks,
                    j,
                )->Attempt_0
                &&& !worker_after(ticks, i as nat)->Attempting_0.deadline.is_before(&ticks[j].1)
                &&& forall|m: int| i < m < j ==> #[trigger] worker_action(ticks, m) is Nothing
            },
{
    lemma_sleep_follows_failed_attempt(ticks, j as nat);
}

} // verus!
