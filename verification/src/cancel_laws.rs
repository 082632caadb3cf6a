//! What holds of every cancellation, whatever the services answer and
//! whatever the clock says.

use crate::cancel::{deferred_loyalty_delete, CancelAction, Cancellation};
use crate::clock::Timestamp;
use crate::downstream::Reply;
use crate::retry::{Operation, Worker, WorkerAction, WorkerEvent, RETRY_WINDOW_SECS};
use crate::status::{StatusCode, NO_CONTENT};
use vstd::prelude::*;

verus! {

/// The state that `start` has come to after the first `n` of `ticks`. A tick
/// is a reply together with the reading of the clock at that moment.
pub open spec fn cancellation_after(
    start: Cancellation,
    ticks: Seq<(Reply, Timestamp)>,
    n: nat,
) -> Cancellation
    decreases n,
{
    if n == 0 {
        start
    } else {
        cancellation_after(start, ticks, (n - 1) as nat).next(ticks[n - 1].0, ticks[n - 1].1).0
    }
}

/// The actions of one cancellation, in order: the first one, then one for
/// each tick. Action `i + 1` is what the cancellation does on tick `i`, and
/// the reply of tick `i` answers action `i`.
pub open spec fn cancellation_run(
    identity: Option<String>,
    reservation_uid: uuid::Uuid,
    ticks: Seq<(Reply, Timestamp)>,
) -> Seq<CancelAction> {
    let (start, first) = Cancellation::spec_begin(identity, reservation_uid);
    Seq::new(
        ticks.len() + 1,
        |i: int|
            if i == 0 {
                first
            } else {
                cancellation_after(start, ticks, (i - 1) as nat).next(
                    ticks[i - 1].0,
                    ticks[i - 1].1,
                ).1
            },
    )
}

/// What a state that is reached after `n` ticks knows of them.
spec fn in_step(
    state: Cancellation,
    identity: Option<String>,
    ticks: Seq<(Reply, Timestamp)>,
    n: nat,
) -> bool {
    match state {
        Cancellation::AwaitingReservation { user, .. } => n == 0 && identity == Some(user),
        Cancellation::AwaitingReservationDelete { user, .. } => n == 1 && identity == Some(user)
            && ticks[0].0.succeeded(),
        Cancellation::AwaitingPaymentDelete { user } => n == 2 && identity == Some(user)
            && ticks[0].0.succeeded() && ticks[1].0.succeeded(),
        Cancellation::AwaitingLoyaltyDelete { user } => n == 3 && identity == Some(user)
            && ticks[0].0.succeeded() && ticks[1].0.succeeded() && ticks[2].0.succeeded(),
        Cancellation::Done => true,
    }
}

proof fn lemma_steps_in_order(
    identity: Option<String>,
    reservation_uid: uuid::Uuid,
    ticks: Seq<(Reply, Timestamp)>,
    n: nat,
)
    requires
        n <= ticks.len(),
    ensures
        in_step(
            cancellation_after(Cancellation::spec_begin(identity, reservation_uid).0, ticks, n),
            identity,
            ticks,
            n,
        ),
    decreases n,
{
    if n > 0 {
        lemma_steps_in_order(identity, reservation_uid, ticks, (n - 1) as nat);
    }
}

proof fn lemma_every_step_in_order(
    identity: Option<String>,
    reservation_uid: uuid::Uuid,
    ticks: Seq<(Reply, Timestamp)>,
)
    ensures
        forall|n: nat|
            n <= ticks.len() ==> #[trigger] in_step(
                cancellation_after(Cancellation::spec_begin(identity, reservation_uid).0, ticks, n),
                identity,
                ticks,
                n,
            ),
{
    assert forall|n: nat| n <= ticks.len() implies #[trigger] in_step(
        cancellation_after(Cancellation::spec_begin(identity, reservation_uid).0, ticks, n),
        identity,
        ticks,
        n,
    ) by {
        lemma_steps_in_order(identity, reservation_uid, ticks, n);
    }
}

/// A loyalty deletion that fails does not fail the cancellation. It can only
/// be the fourth request, made after reservation and payment were deleted;
/// the client is then told `204 No Content`, and the deletion for this user
/// is handed on with a deadline one retry window after the reading of the
/// clock.
pub proof fn law_failed_loyalty_delete_is_deferred(
    identity: Option<String>,
    reservation_uid: uuid::Uuid,
    ticks: Seq<(Reply, Timestamp)>,
    k: int,
)
    requires
        0 <= k < ticks.len(),
        cancellation_run(identity, reservation_uid, ticks)[k] is DeleteLoyalty,
        !ticks[k].0.succeeded(),
    ensures
        ({
            let run = cancellation_run(identity, reservation_uid, ticks);
            &&& k == 3
            &&& identity is Some
            &&& run[1] is DeleteReservation
            &&& ticks[1].0.succeeded()
            &&& run[2] is DeletePayment
            &&& ticks[2].0.succeeded()
            &&& run[4] == (CancelAction::Finish {
                status: StatusCode { code: NO_CONTENT },
                deferred: Some(deferred_loyalty_delete(identity->Some_0, ticks[3].1)),
            })
        }),
{
    let start = Cancellation::spec_begin(identity, reservation_uid).0;
    lemma_every_step_in_order(identity, reservation_uid, ticks);
    assert(in_step(cancellation_after(start, ticks, (k - 1) as nat), identity, ticks, (k - 1) as nat));
}

/// What was deferred is tried again: the worker that takes the deferred
/// loyalty deletion from the queue attempts it at once, at whatever time
/// that is, and its deadline lies one retry window after the instant at
/// which it was deferred.
pub proof fn law_deferred_delete_is_attempted(user: String, deferred_at: Timestamp, taken_at: Timestamp)
    ensures
        Worker::Idle.next(
            WorkerEvent::Dequeued(deferred_loyalty_delete(user, deferred_at)),
            taken_at,
        ) == (
            Worker::Attempting(deferred_loyalty_delete(user, deferred_at)),
            WorkerAction::Attempt(Operation::DeleteLoyalty { user }),
        ),
        deferred_loyalty_delete(user, deferred_at).deadline == deferred_at.plus_secs(
            RETRY_WINDOW_SECS,
        ),
        deferred_at.secs + RETRY_WINDOW_SECS <= i64::MAX ==> deferred_loyalty_delete(
            user,
            deferred_at,
        ).deadline.secs == deferred_at.secs + RETRY_WINDOW_SECS,
{
}

/// Each step waits for the one before: a request is made only when all
/// earlier ones went well, the requests come in the order fetch, delete
/// reservation, delete payment, delete loyalty, and once the client has been
/// answered nothing more is asked.
pub proof fn law_cancellation_runs_in_order(
    identity: Option<String>,
    reservation_uid: uuid::Uuid,
    ticks: Seq<(Reply, Timestamp)>,
    j: int,
)
    requires
        0 <= j <= ticks.len(),
    ensures
        ({
            let run = cancellation_run(identity, reservation_uid, ticks);
            &&& run[j] is FetchReservation ==> j == 0
            &&& run[j] is DeleteReservation ==> j == 1 && ticks[0].0.succeeded()
            &&& run[j] is DeletePayment ==> j == 2 && ticks[0].0.succeeded()
                && ticks[1].0.succeeded()
            &&& run[j] is DeleteLoyalty ==> j == 3 && ticks[0].0.succeeded()
                && ticks[1].0.succeeded() && ticks[2].0.succeeded()
            &&& run[j] is Finish ==> forall|m: int|
                j < m <= ticks.len() ==> #[trigger] run[m] is Nothing
        }),
{
    let start = Cancellation::spec_begin(identity, reservation_uid).0;
    lemma_every_step_in_order(identity, reservation_uid, ticks);
    if j > 0 {
        assert(in_step(
            cancellation_after(start, ticks, (j - 1) as nat),
            identity,
            ticks,
            (j - 1) as nat,
        ));
    }
    let run = cancellation_run(identity, reservation_uid, ticks);
    if run[j] is Finish {
        assert forall|m: int| j < m <= ticks.len() implies #[trigger] run[m] is Nothing by {
            lemma_done_stays_done(start, ticks, j as nat, (m - 1) as nat);
        }
    }
}

proof fn lemma_done_stays_done(
    start: Cancellation,
    ticks: Seq<(Reply, Timestamp)>,
    from: nat,
    to: nat,
)
    requires
        from <= to,
        cancellation_after(start, ticks, from) is Done,
    ensures
        cancellation_after(start, ticks, to) is Done,
    decreases to,
{
    if to > from {
        lemma_done_stays_done(start, ticks, from, (to - 1) as nat);
    }
}

/// Whatever a cancellation answers, it answers with an HTTP status, and it
/// defers nothing unless the answer is `204 No Content`.
pub proof fn law_cancellation_answers_with_http_status(
    state: Cancellation,
    reply: Reply,
    now: Timestamp,
)
    ensures
        state.next(reply, now).1 matches CancelAction::Finish { status, deferred } ==> status.is_valid()
            && (deferred is Some ==> status.code == NO_CONTENT),
{
}

} // verus!
