//! Cancelling a stay: the reservation, its payment and the loyalty entry are
//! deleted in that order.
//!
//! A failure of one of the first three steps ends the request with that
//! failure's status, and nothing further is tried. Once reservation and
//! payment are gone the client is told so in any case: a loyalty deletion
//! that fails is handed on to be retried later.

use crate::clock::{utc_now, Timestamp};
use crate::downstream::Reply;
use crate::dto::ReservationServiceResponse;
use crate::retry::{DeferredAction, Operation, RETRY_WINDOW_SECS};
use crate::status::{StatusCode, BAD_REQUEST, NO_CONTENT};
use vstd::prelude::*;

verus! {

/// Where a cancellation stands.
#[derive(Clone, Debug, PartialEq, Eq)]
pub enum Cancellation {
    AwaitingReservation { user: String, reservation_uid: uuid::Uuid },
    AwaitingReservationDelete { user: String, payment_uid: uuid::Uuid },
    AwaitingPaymentDelete { user: String },
    AwaitingLoyaltyDelete { user: String },
    Done,
}

/// What the cancellation asks its caller to do next.
#[derive(Clone, Debug, PartialEq, Eq)]
pub enum CancelAction {
    FetchReservation { user: String, reservation_uid: uuid::Uuid },
    DeleteReservation { user: String, reservation_uid: uuid::Uuid },
    DeletePayment { user: String, payment_uid: uuid::Uuid },
    DeleteLoyalty { user: String },
    /// Put `deferred`, if there is one, into the retry queue; then answer the
    /// client with `status`.
    Finish { status: StatusCode, deferred: Option<DeferredAction> },
    /// The client has been answered; there is nothing left to do.
    Nothing,
}

/// The loyalty deletion for `user`, to be retried until the retry window
/// that opens at `now` has closed.
pub open spec fn deferred_loyalty_delete(user: String, now: Timestamp) -> DeferredAction {
    DeferredAction {
        deadline: now.plus_secs(RETRY_WINDOW_SECS),
        operation: Operation::DeleteLoyalty { user },
    }
}

impl Cancellation {
    /// The first step of a cancellation. Without an identity the client is
    /// turned away before any service is asked.
    pub open spec fn spec_begin(identity: Option<String>, reservation_uid: uuid::Uuid) -> (
        Cancellation,
        CancelAction,
    ) {
        match identity {
            None => (
                Cancellation::Done,
                CancelAction::Finish { status: StatusCode { code: BAD_REQUEST }, deferred: None },
            ),
            Some(user) => (
                Cancellation::AwaitingReservation { user, reservation_uid },
                CancelAction::FetchReservation { user, reservation_uid },
            ),
        }
    }

    /// The step that follows when `reply` answers the request that `self`
    /// waits for, at the instant `now`.
    pub open spec fn next(self, reply: Reply, now: Timestamp) -> (Cancellation, CancelAction) {
        match self {
            Cancellation::AwaitingReservation { user, reservation_uid } => {
                match reply.settled::<ReservationServiceResponse>() {
                    Err(e) => (
                        Cancellation::Done,
                        CancelAction::Finish { status: e.status(), deferred: None },
                    ),
                    Ok(reservation) => (
                        Cancellation::AwaitingReservationDelete {
                            user,
                            payment_uid: reservation.payment_uid,
                        },
                        CancelAction::DeleteReservation { user, reservation_uid },
                    ),
                }
            },
            Cancellation::AwaitingReservationDelete { user, payment_uid } => {
                match reply.settled::<()>() {
                    Err(e) => (
                        Cancellation::Done,
                        CancelAction::Finish { status: e.status(), deferred: None },
                    ),
                    Ok(_) => (
                        Cancellation::AwaitingPaymentDelete { user },
                        CancelAction::DeletePayment { user, payment_uid },
                    ),
                }
            },
            Cancellation::AwaitingPaymentDelete { user } => {
                match reply.settled::<()>() {
                    Err(e) => (
                        Cancellation::Done,
                        CancelAction::Finish { status: e.status(), deferred: None },
                    ),
                    Ok(_) => (
                        Cancellation::AwaitingLoyaltyDelete { user },
                        CancelAction::DeleteLoyalty { user },
                    ),
                }
            },
            Cancellation::AwaitingLoyaltyDelete { user } => {
                match reply.settled::<()>() {
                    Err(_) => (
                        Cancellation::Done,
                        CancelAction::Finish {
                            status: StatusCode { code: NO_CONTENT },
                            deferred: Some(deferred_loyalty_delete(user, now)),
                        },
                    ),
                    Ok(_) => (
                        Cancellation::Done,
                        CancelAction::Finish {
                            status: StatusCode { code: NO_CONTENT },
                            deferred: None,
                        },
                    ),
                }
            },
            Cancellation::Done => (Cancellation::Done, CancelAction::Nothing),
        }
    }

    /// Starts the cancellation of `reservation_uid` for the user named by
    /// `identity`.
    pub fn begin(identity: Option<String>, reservation_uid: uuid::Uuid) -> (step: (
        Cancellation,
        CancelAction,
    ))
        ensures
            step == Self::spec_begin(identity, reservation_uid),
    {
        match identity {
            None => (
                Cancellation::Done,
                CancelAction::Finish { status: StatusCode { code: BAD_REQUEST }, deferred: None },
            ),
            Some(user) => {
                let asked = user.clone();
                (
                    Cancellation::AwaitingReservation { user, reservation_uid },
                    CancelAction::FetchReservation { user: asked, reservation_uid },
                )
            },
        }
    }

    /// One step of the cancellation at the instant `now`.
    pub fn step_at(self, reply: Reply, now: Timestamp) -> (step: (Cancellation, CancelAction))
        ensures
            step == self.next(reply, now),
            step.1 matches CancelAction::Finish { status, .. } ==> status.is_valid(),
    {
        match self {
            Cancellation::AwaitingReservation { user, reservation_uid } => {
                match reply.settle::<ReservationServiceResponse>() {
                    Err(e) => (
                        Cancellation::Done,
                        CancelAction::Finish { status: e.status(), deferred: None },
                    ),
                    Ok(reservation) => {
                        let asked = user.clone();
                        (
                            Cancellation::AwaitingReservationDelete {
                                user,
                                payment_uid: reservation.payment_uid,
                            },
                            CancelAction::DeleteReservation { user: asked, reservation_uid },
                        )
                    },
                }
            },
            Cancellation::AwaitingReservationDelete { user, payment_uid } => {
                match reply.settle::<()>() {
                    Err(e) => (
                        Cancellation::Done,
                        CancelAction::Finish { status: e.status(), deferred: None },
                    ),
                    Ok(_) => {
                        let asked = user.clone();
                        (
                            Cancellation::AwaitingPaymentDelete { user },
                            CancelAction::DeletePayment { user: asked, payment_uid },
                        )
                    },
                }
            },
            Cancellation::AwaitingPaymentDelete { user } => {
                match reply.settle::<()>() {
                    Err(e) => (
                        Cancellation::Done,
                        CancelAction::Finish { status: e.status(), deferred: None },
                    ),
                    Ok(_) => {
                        let asked = user.clone();
                        (
                            Cancellation::AwaitingLoyaltyDelete { user },
                            CancelAction::DeleteLoyalty { user: asked },
                        )
                    },
                }
            },
            Cancellation::AwaitingLoyaltyDelete { user } => {
                match reply.settle::<()>() {
                    Err(_) => (
                        Cancellation::Done,
                        CancelAction::Finish {
                            status: StatusCode { code: NO_CONTENT },
                            deferred: Some(
                                DeferredAction {
                                    deadline: now.plus_secs(RETRY_WINDOW_SECS),
                                    operation: Operation::DeleteLoyalty { user },
                                },
                            ),
                        },
                    ),
                    Ok(_) => (
                        Cancellation::Done,
                        CancelAction::Finish {
                            status: StatusCode { code: NO_CONTENT },
                            deferred: None,
                        },
                    ),
                }
            },
            Cancellation::Done => (Cancellation::Done, CancelAction::Nothing),
        }
    }
}

/// One step of a cancellation. The clock is read here, and only where the
/// step depends on it: when the loyalty deletion has failed. Whatever
/// the clock says, the step is the one that `Cancellation::next` gives for
/// that reading.
pub fn delete_reservation(state: Cancellation, reply: Reply) -> (step: (
    Cancellation,
    CancelAction,
))
    ensures
        exists|now: Timestamp| step == state.next(reply, now),
        step.1 matches CancelAction::Finish { status, .. } ==> status.is_valid(),
{
    let now = match &state {
        Cancellation::AwaitingLoyaltyDelete { .. } if !reply.succeeded() => utc_now(),
        _ => Timestamp { secs: 0, nanos: 0 },
    };
    state.step_at(reply, now)
}

} // verus!
