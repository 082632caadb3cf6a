//! Views that are put together from several answers: a user's reservations
//! with their payments, a single reservation, and the user's profile.
//!
//! The list of reservations has to be had, or the request fails. The payment
//! of each reservation is looked up on its own, all lookups side by side, and
//! a lookup that fails only leaves its payment out. The views come out in the
//! order of the list, whatever the order in which the lookups ended.

use crate::downstream::{Body, CallError, Reply};
use crate::dto::{
    LoyaltyInfoResponse, PaymentInfo, ReservationResponse, ReservationServiceResponse,
    UserInfoResponse,
};
use crate::status::{StatusCode, BAD_REQUEST, INTERNAL_SERVER_ERROR};
use vstd::prelude::*;

verus! {

/// The payment that a lookup found, if it found one.
pub open spec fn spec_payment_found(reply: &Reply) -> Option<PaymentInfo> {
    match reply.settled::<PaymentInfo>() {
        Ok(payment) => Some(payment),
        Err(_) => None,
    }
}

/// The payment uids of a list of reservations, in the order of the list.
pub open spec fn spec_payment_uids(reservations: Seq<ReservationServiceResponse>) -> Seq<
    uuid::Uuid,
> {
    Seq::new(reservations.len(), |i: int| reservations[i].payment_uid)
}

/// The views of `reservations`, one for each and in the same order. Lookup
/// `i` belongs to reservation `i`; a reservation without a lookup has no
/// payment, and a lookup without a reservation is not looked at.
pub open spec fn enriched(
    reservations: Seq<ReservationServiceResponse>,
    lookups: Seq<Reply>,
) -> Seq<ReservationResponse> {
    Seq::new(
        reservations.len(),
        |i: int|
            ReservationResponse::from_svc_responses(
                reservations[i],
                if i < lookups.len() {
                    spec_payment_found(&lookups[i])
                } else {
                    None
                },
            ),
    )
}

#[verifier::when_used_as_spec(spec_payment_found)]
pub fn payment_found(reply: &Reply) -> (payment: Option<PaymentInfo>)
    ensures
        payment == spec_payment_found(reply),
{
    match reply {
        Reply::Unreachable => None,
        Reply::Answered { status, body } => {
            if status.is_success() {
                match body {
                    Body::Payment(payment) => Some(*payment),
                    _ => None,
                }
            } else {
                None
            }
        },
    }
}

/// The payments to look up for a list of reservations.
pub fn payment_uids(reservations: &Vec<ReservationServiceResponse>) -> (uids: Vec<uuid::Uuid>)
    ensures
        uids@ == spec_payment_uids(reservations@),
{
    let mut uids: Vec<uuid::Uuid> = Vec::new();
    let mut i: usize = 0;
    while i < reservations.len()
        invariant
            i <= reservations.len(),
            uids@ == spec_payment_uids(reservations@).take(i as int),
        decreases reservations.len() - i,
    {
        uids.push(reservations[i].payment_uid);
        i += 1;
    }
    uids
}

/// Joins the reservations with the answers to their payment lookups.
pub fn attach_payments(reservations: Vec<ReservationServiceResponse>, lookups: &Vec<Reply>) -> (views:
    Vec<ReservationResponse>)
    ensures
        views@ == enriched(reservations@, lookups@),
{
    let ghost all = reservations@;
    let mut views: Vec<ReservationResponse> = Vec::new();
    for reservation in it: reservations.into_iter()
        invariant
            it.seq() == all,
            views@ == enriched(all, lookups@).take(it.index() as int),
    {
        let i = views.len();
        let payment = if i < lookups.len() {
            payment_found(&lookups[i])
        } else {
            None
        };
        views.push(ReservationResponse::from_svc_responses(reservation, payment));
    }
    views
}

/// What an aggregation is told: the answer to a single request, or the
/// answers to a round of lookups, one for each lookup and in their order.
#[derive(Clone, Debug, PartialEq, Eq)]
pub enum ListingEvent {
    Answered(Reply),
    Joined(Vec<Reply>),
}

/// Where the listing of a user's reservations stands.
#[derive(Clone, Debug, PartialEq, Eq)]
pub enum Listing {
    AwaitingReservations,
    AwaitingPayments { reservations: Vec<ReservationServiceResponse> },
    Done,
}

/// What the listing asks its caller to do next.
#[derive(Clone, Debug, PartialEq, Eq)]
pub enum ListingAction {
    FetchReservations { user: String },
    /// Look up all these payments, side by side.
    LookUpPayments { payment_uids: Vec<uuid::Uuid> },
    /// Answer the client with the views.
    Respond(Vec<ReservationResponse>),
    /// Answer the client with the status alone.
    Fail(StatusCode),
    /// The client has been answered; there is nothing left to do.
    Nothing,
}

/// The answer to the request for the list, read as the list. A round of
/// answers where one answer is due is no readable answer.
pub open spec fn reservations_listed(event: ListingEvent) -> Result<
    Vec<ReservationServiceResponse>,
    StatusCode,
> {
    match event {
        ListingEvent::Answered(reply) => match reply.settled::<Vec<ReservationServiceResponse>>() {
            Ok(reservations) => Ok(reservations),
            Err(e) => Err(e.status()),
        },
        ListingEvent::Joined(_) => Err(StatusCode { code: INTERNAL_SERVER_ERROR }),
    }
}

/// The answers to a round of lookups. A single answer where a round is due
/// counts as a round in which no lookup was answered.
pub open spec fn lookups_joined(event: ListingEvent) -> Seq<Reply> {
    match event {
        ListingEvent::Answered(_) => Seq::empty(),
        ListingEvent::Joined(replies) => replies@,
    }
}

pub fn read_reservations_listed(event: ListingEvent) -> (listed: Result<
    Vec<ReservationServiceResponse>,
    StatusCode,
>)
    ensures
        listed == reservations_listed(event),
{
    match event {
        ListingEvent::Answered(reply) => match reply.settle::<Vec<ReservationServiceResponse>>() {
            Ok(reservations) => Ok(reservations),
            Err(e) => Err(e.status()),
        },
        ListingEvent::Joined(_) => Err(StatusCode { code: INTERNAL_SERVER_ERROR }),
    }
}

/// Joins the reservations with what a round of lookups brought.
pub fn join_payments(reservations: Vec<ReservationServiceResponse>, event: ListingEvent) -> (views:
    Vec<ReservationResponse>)
    ensures
        views@ == enriched(reservations@, lookups_joined(event)),
{
    match event {
        ListingEvent::Answered(_) => {
            let none: Vec<Reply> = Vec::new();
            attach_payments(reservations, &none)
        },
        ListingEvent::Joined(replies) => attach_payments(reservations, &replies),
    }
}

impl Listing {
    /// The first step of a listing. Without an identity the client is turned
    /// away before any service is asked.
    pub open spec fn spec_begin(identity: Option<String>) -> (Listing, ListingAction) {
        match identity {
            None => (
                Listing::Done,
                ListingAction::Fail(StatusCode { code: BAD_REQUEST }),
            ),
            Some(user) => (Listing::AwaitingReservations, ListingAction::FetchReservations { user }),
        }
    }

    /// The state that follows on `event`.
    pub open spec fn next_state(self, event: ListingEvent) -> Listing {
        match self {
            Listing::AwaitingReservations => match reservations_listed(event) {
                Ok(reservations) => Listing::AwaitingPayments { reservations },
                Err(_) => Listing::Done,
            },
            Listing::AwaitingPayments { .. } => Listing::Done,
            Listing::Done => Listing::Done,
        }
    }

    /// What is asked on `event`, fit for `action`: the uids to look up are
    /// those of the list, in its order, and the views that go out are the
    /// list joined with the lookups.
    pub open spec fn asks(self, event: ListingEvent, action: ListingAction) -> bool {
        match self {
            Listing::AwaitingReservations => match reservations_listed(event) {
                Ok(reservations) => action matches ListingAction::LookUpPayments { payment_uids }
                    && payment_uids@ == spec_payment_uids(reservations@),
                Err(status) => action == ListingAction::Fail(status),
            },
            Listing::AwaitingPayments { reservations } => action matches ListingAction::Respond(
                views,
            ) && views@ == enriched(reservations@, lookups_joined(event)),
            Listing::Done => action is Nothing,
        }
    }

    /// Starts the listing for the user named by `identity`.
    pub fn begin(identity: Option<String>) -> (step: (Listing, ListingAction))
        ensures
            step == Self::spec_begin(identity),
    {
        match identity {
            None => (
                Listing::Done,
                ListingAction::Fail(StatusCode { code: BAD_REQUEST }),
            ),
            Some(user) => (Listing::AwaitingReservations, ListingAction::FetchReservations { user }),
        }
    }
}

/// One step of the listing of a user's reservations.
pub fn get_reservations(state: Listing, event: ListingEvent) -> (step: (Listing, ListingAction))
    ensures
        step.0 == state.next_state(event),
        state.asks(event, step.1),
        step.1 matches ListingAction::Fail(status) ==> status.is_valid(),
{
    match state {
        Listing::AwaitingReservations => match read_reservations_listed(event) {
            Ok(reservations) => {
                let payment_uids = payment_uids(&reservations);
                (
                    Listing::AwaitingPayments { reservations },
                    ListingAction::LookUpPayments { payment_uids },
                )
            },
            Err(status) => (Listing::Done, ListingAction::Fail(status)),
        },
        Listing::AwaitingPayments { reservations } => (
            Listing::Done,
            ListingAction::Respond(join_payments(reservations, event)),
        ),
        Listing::Done => (Listing::Done, ListingAction::Nothing),
    }
}

/// Where the assembly of a user's profile stands.
#[derive(Clone, Debug, PartialEq, Eq)]
pub enum Profile {
    AwaitingLoyalty { user: String },
    AwaitingReservations { loyalty: Option<LoyaltyInfoResponse> },
    AwaitingPayments {
        loyalty: Option<LoyaltyInfoResponse>,
        reservations: Vec<ReservationServiceResponse>,
    },
    Done,
}

/// What the profile asks its caller to do next.
#[derive(Clone, Debug, PartialEq, Eq)]
pub enum ProfileAction {
    FetchLoyalty { user: String },
    FetchReservations { user: String },
    /// Look up all these payments, side by side.
    LookUpPayments { payment_uids: Vec<uuid::Uuid> },
    /// Answer the client with the profile.
    Respond(UserInfoResponse),
    /// Answer the client with the status alone.
    Fail(StatusCode),
    /// The client has been answered; there is nothing left to do.
    Nothing,
}

/// The loyalty account as the profile shows it. A client error of the
/// loyalty service, "not found" among them, ends the request with that
/// status. Any other failure only leaves the account out, and so does an
/// answer that cannot be read.
pub open spec fn loyalty_for_profile(event: ListingEvent) -> Result<
    Option<LoyaltyInfoResponse>,
    StatusCode,
> {
    match event {
        ListingEvent::Answered(reply) => match reply.settled::<LoyaltyInfoResponse>() {
            Ok(account) => Ok(Some(account)),
            Err(CallError::UpstreamError(status)) => if status.is_client_error() {
                Err(status)
            } else {
                Ok(None)
            },
            Err(_) => Ok(None),
        },
        ListingEvent::Joined(_) => Ok(None),
    }
}

pub fn read_loyalty_for_profile(event: ListingEvent) -> (account: Result<
    Option<LoyaltyInfoResponse>,
    StatusCode,
>)
    ensures
        account == loyalty_for_profile(event),
{
    match event {
        ListingEvent::Answered(reply) => match reply.settle::<LoyaltyInfoResponse>() {
            Ok(account) => Ok(Some(account)),
            Err(CallError::UpstreamError(status)) => {
                if status.is_client_error() {
                    Err(status)
                } else {
                    Ok(None)
                }
            },
            Err(_) => Ok(None),
        },
        ListingEvent::Joined(_) => Ok(None),
    }
}

impl Profile {
    /// The first step of a profile. Without an identity the client is turned
    /// away before any service is asked.
    pub open spec fn spec_begin(identity: Option<String>) -> (Profile, ProfileAction) {
        match identity {
            None => (Profile::Done, ProfileAction::Fail(StatusCode { code: BAD_REQUEST })),
            Some(user) => (Profile::AwaitingLoyalty { user }, ProfileAction::FetchLoyalty { user }),
        }
    }

    /// The state that follows on `event`.
    pub open spec fn next_state(self, event: ListingEvent) -> Profile {
        match self {
            Profile::AwaitingLoyalty { user } => match loyalty_for_profile(event) {
                Ok(loyalty) => Profile::AwaitingReservations { loyalty },
                Err(_) => Profile::Done,
            },
            Profile::AwaitingReservations { loyalty } => match reservations_listed(event) {
                Ok(reservations) => Profile::AwaitingPayments { loyalty, reservations },
                Err(_) => Profile::Done,
            },
            Profile::AwaitingPayments { .. } => Profile::Done,
            Profile::Done => Profile::Done,
        }
    }

    /// What is asked on `event`, fit for `action`: the uids to look up are
    /// those of the list, in its order, and the profile that goes out holds
    /// the list joined with the lookups.
    pub open spec fn asks(self, event: ListingEvent, action: ProfileAction) -> bool {
        match self {
            Profile::AwaitingLoyalty { user } => match loyalty_for_profile(event) {
                Ok(_) => action == (ProfileAction::FetchReservations { user }),
                Err(status) => action == ProfileAction::Fail(status),
            },
            Profile::AwaitingReservations { .. } => match reservations_listed(event) {
                Ok(reservations) => action matches ProfileAction::LookUpPayments { payment_uids }
                    && payment_uids@ == spec_payment_uids(reservations@),
                Err(status) => action == ProfileAction::Fail(status),
            },
            Profile::AwaitingPayments { loyalty, reservations } => action
                matches ProfileAction::Respond(profile) && profile.loyalty == loyalty
                && profile.reservations@ == enriched(reservations@, lookups_joined(event)),
            Profile::Done => action is Nothing,
        }
    }

    /// Starts the profile of the user named by `identity`.
    pub fn begin(identity: Option<String>) -> (step: (Profile, ProfileAction))
        ensures
            step == Self::spec_begin(identity),
    {
        match identity {
            None => (Profile::Done, ProfileAction::Fail(StatusCode { code: BAD_REQUEST })),
            Some(user) => {
                let asked = user.clone();
                (Profile::AwaitingLoyalty { user }, ProfileAction::FetchLoyalty { user: asked })
            },
        }
    }
}

/// One step of the assembly of a user's profile.
pub fn get_me(state: Profile, event: ListingEvent) -> (step: (Profile, ProfileAction))
    ensures
        step.0 == state.next_state(event),
        state.asks(event, step.1),
        step.1 matches ProfileAction::Fail(status) ==> status.is_valid(),
{
    match state {
        Profile::AwaitingLoyalty { user } => match read_loyalty_for_profile(event) {
            Ok(loyalty) => (
                Profile::AwaitingReservations { loyalty },
                ProfileAction::FetchReservations { user },
            ),
            Err(status) => (Profile::Done, ProfileAction::Fail(status)),
        },
        Profile::AwaitingReservations { loyalty } => match read_reservations_listed(event) {
            Ok(reservations) => {
                let payment_uids = payment_uids(&reservations);
                (
                    Profile::AwaitingPayments { loyalty, reservations },
                    ProfileAction::LookUpPayments { payment_uids },
                )
            },
            Err(status) => (Profile::Done, ProfileAction::Fail(status)),
        },
        Profile::AwaitingPayments { loyalty, reservations } => (
            Profile::Done,
            ProfileAction::Respond(
                UserInfoResponse { reservations: join_payments(reservations, event), loyalty },
            ),
        ),
        Profile::Done => (Profile::Done, ProfileAction::Nothing),
    }
}

/// Where the view of a single reservation stands.
#[derive(Clone, Debug, PartialEq, Eq)]
pub enum Viewing {
    AwaitingReservation,
    AwaitingPayment { reservation: ReservationServiceResponse },
    Done,
}

/// What the view asks its caller to do next.
#[derive(Clone, Debug, PartialEq, Eq)]
pub enum ViewingAction {
    FetchReservation { user: String, reservation_uid: uuid::Uuid },
    FetchPayment { payment_uid: uuid::Uuid },
    /// Answer the client with the view.
    Respond(ReservationResponse),
    /// Answer the client with the status alone.
    Fail(StatusCode),
    /// The client has been answered; there is nothing left to do.
    Nothing,
}

impl Viewing {
    /// The first step of a view. Without an identity the client is turned
    /// away before any service is asked.
    pub open spec fn spec_begin(identity: Option<String>, reservation_uid: uuid::Uuid) -> (
        Viewing,
        ViewingAction,
    ) {
        match identity {
            None => (Viewing::Done, ViewingAction::Fail(StatusCode { code: BAD_REQUEST })),
            Some(user) => (
                Viewing::AwaitingReservation,
                ViewingAction::FetchReservation { user, reservation_uid },
            ),
        }
    }

    /// The step that follows when `reply` answers the request that `self`
    /// waits for. The reservation has to be had; its payment is attached
    /// where the lookup found it.
    pub open spec fn next(self, reply: Reply) -> (Viewing, ViewingAction) {
        match self {
            Viewing::AwaitingReservation => match reply.settled::<ReservationServiceResponse>() {
                Ok(reservation) => (
                    Viewing::AwaitingPayment { reservation },
                    ViewingAction::FetchPayment { payment_uid: reservation.payment_uid },
                ),
                Err(e) => (Viewing::Done, ViewingAction::Fail(e.status())),
            },
            Viewing::AwaitingPayment { reservation } => (
                Viewing::Done,
                ViewingAction::Respond(
                    ReservationResponse::from_svc_responses(reservation, payment_found(&reply)),
                ),
            ),
            Viewing::Done => (Viewing::Done, ViewingAction::Nothing),
        }
    }

    /// Starts the view of `reservation_uid` for the user named by `identity`.
    pub fn begin(identity: Option<String>, reservation_uid: uuid::Uuid) -> (step: (
        Viewing,
        ViewingAction,
    ))
        ensures
            step == Self::spec_begin(identity, reservation_uid),
    {
        match identity {
            None => (Viewing::Done, ViewingAction::Fail(StatusCode { code: BAD_REQUEST })),
            Some(user) => (
                Viewing::AwaitingReservation,
                ViewingAction::FetchReservation { user, reservation_uid },
            ),
        }
    }
}

/// One step of the view of a single reservation.
pub fn get_reservation(state: Viewing, reply: Reply) -> (step: (Viewing, ViewingAction))
    ensures
        step == state.next(reply),
        step.1 matches ViewingAction::Fail(status) ==> status.is_valid(),
{
    match state {
        Viewing::AwaitingReservation => match reply.settle::<ReservationServiceResponse>() {
            Ok(reservation) => {
                let payment_uid = reservation.payment_uid;
                (Viewing::AwaitingPayment { reservation }, ViewingAction::FetchPayment { payment_uid })
            },
            Err(e) => (Viewing::Done, ViewingAction::Fail(e.status())),
        },
        Viewing::AwaitingPayment { reservation } => {
            let payment = payment_found(&reply);
            (
                Viewing::Done,
                ViewingAction::Respond(ReservationResponse::from_svc_responses(reservation, payment)),
            )
        },
        Viewing::Done => (Viewing::Done, ViewingAction::Nothing),
    }
}

/// One lookup that fails leaves one gap and nothing else: where every
/// reservation has its lookup, there are as many views as reservations, view
/// `i` is the view of reservation `i`, the view whose lookup failed has no
/// payment, and every other view has the payment that its lookup found.
pub proof fn law_failed_lookup_leaves_one_gap(
    reservations: Seq<ReservationServiceResponse>,
    lookups: Seq<Reply>,
    k: int,
)
    requires
        lookups.len() == reservations.len(),
        0 <= k < reservations.len(),
        lookups[k].settled::<PaymentInfo>() is Err,
        forall|i: int|
            0 <= i < lookups.len() && i != k ==> (#[trigger] lookups[i]).settled::<PaymentInfo>()
                is Ok,
    ensures
        enriched(reservations, lookups).len() == reservations.len(),
        forall|i: int|
            0 <= i < reservations.len() ==> {
                &&& (#[trigger] enriched(reservations, lookups)[i]).reservation_uid
                    == reservations[i].reservation_uid
                &&& enriched(reservations, lookups)[i].hotel == reservations[i].hotel
                &&& enriched(reservations, lookups)[i].start_date
                    == reservations[i].start_date.local_date
                &&& enriched(reservations, lookups)[i].end_date
                    == reservations[i].end_date.local_date
                &&& enriched(reservations, lookups)[i].status == reservations[i].status
            },
        enriched(reservations, lookups)[k].payment is None,
        forall|i: int|
            0 <= i < reservations.len() && i != k ==> (#[trigger] enriched(
                reservations,
                lookups,
            )[i]).payment == Some(lookups[i].settled::<PaymentInfo>()->Ok_0),
{
    assert forall|i: int| 0 <= i < reservations.len() && i != k implies (#[trigger] enriched(
        reservations,
        lookups,
    )[i]).payment == Some(lookups[i].settled::<PaymentInfo>()->Ok_0) by {
    }
}

/// The order and the number of the views do not depend on the lookups: with
/// any answers, and with too few or too many of them, there is one view for
/// each reservation, in the order of the list.
pub proof fn law_views_keep_the_order_of_the_list(
    reservations: Seq<ReservationServiceResponse>,
    lookups: Seq<Reply>,
    i: int,
)
    requires
        0 <= i < reservations.len(),
    ensures
        enriched(reservations, lookups).len() == reservations.len(),
        enriched(reservations, lookups)[i].reservation_uid == reservations[i].reservation_uid,
        enriched(reservations, lookups)[i].hotel == reservations[i].hotel,
        i >= lookups.len() ==> enriched(reservations, lookups)[i].payment is None,
{
}

/// A lookup that was only meant to fill a view in never fails the request:
/// once the reservations are had, the listing and the profile answer with
/// one view for each of them, whatever the lookups brought, and the view of a
/// single reservation goes out whatever its lookup brought.
pub proof fn law_lookups_never_fail_the_request(
    reservations: Vec<ReservationServiceResponse>,
    loyalty: Option<LoyaltyInfoResponse>,
    event: ListingEvent,
    listed: ListingAction,
    profiled: ProfileAction,
    reservation: ReservationServiceResponse,
    reply: Reply,
)
    requires
        (Listing::AwaitingPayments { reservations }).asks(event, listed),
        (Profile::AwaitingPayments { loyalty, reservations }).asks(event, profiled),
    ensures
        listed is Respond,
        listed->Respond_0@.len() == reservations@.len(),
        profiled is Respond,
        profiled->Respond_0.reservations@.len() == reservations@.len(),
        profiled->Respond_0.loyalty == loyalty,
        (Viewing::AwaitingPayment { reservation }).next(reply).1 is Respond,
{
}

} // verus!
