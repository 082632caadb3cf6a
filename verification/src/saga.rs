//! Booking a stay: a payment, a loyalty update and a reservation, written to
//! three services that know nothing of each other.
//!
//! The steps run in one fixed order. A failure before the payment exists ends
//! the booking with nothing to undo. A failed loyalty update takes the payment
//! back before the client is told. A failed reservation write is reported as
//! it is, with payment and loyalty update left standing.

use crate::downstream::{CallError, FromJson, Reply};
use crate::dto::{
    CreateReservationRequest, CreateReservationResponse, HotelResponse, LoyaltyInfoResponse,
    PaymentInfo, PaymentInfoServiceResponse, PaymentStatus, PostReservationServiceRequest,
    PostReservationServiceResponse,
};
use crate::failure::{Detail, Failure};
use crate::pricing::{apply_discount, as_price, compute_cost, discounted, stay_cost};
use crate::status::{
    StatusCode, BAD_REQUEST, INTERNAL_SERVER_ERROR, NOT_FOUND, OK, SERVICE_UNAVAILABLE,
};
use vstd::prelude::*;

verus! {

/// Where a booking stands: which answer it waits for, and what it has
/// gathered so far.
#[derive(Clone, Debug, PartialEq, Eq)]
pub enum Booking {
    AwaitingHotel { user: String, request: CreateReservationRequest, nights: i64 },
    AwaitingLoyalty { user: String, request: CreateReservationRequest, cost: i32 },
    AwaitingPayment { user: String, request: CreateReservationRequest, discount: i32 },
    AwaitingLoyaltyUpdate {
        user: String,
        request: CreateReservationRequest,
        discount: i32,
        payment: PaymentInfoServiceResponse,
    },
    AwaitingReservation { discount: i32, payment: PaymentInfoServiceResponse },
    /// The payment is being taken back after a failed loyalty update.
    RollingBack,
    Done,
}

/// What the booking asks its caller to do next.
#[derive(Clone, Debug, PartialEq, Eq)]
pub enum BookingAction {
    FetchHotel { hotel_uid: uuid::Uuid },
    FetchLoyalty { user: String },
    CreatePayment { payment: PaymentInfo },
    UpdateLoyalty { user: String },
    CreateReservation { user: String, reservation: PostReservationServiceRequest },
    DeletePayment { payment_uid: uuid::Uuid },
    /// Answer the client: the stay is booked.
    Succeed(CreateReservationResponse),
    /// Answer the client: the booking failed.
    Fail(Failure),
    /// The client has been answered; there is nothing left to do.
    Nothing,
}

/// The loyalty account that a booking goes by. A user whom the loyalty
/// service does not know is a new member; an account that was found counts
/// only where the answer is a plain `200 OK` with a readable body.
pub open spec fn loyalty_for_booking(reply: Reply) -> Result<LoyaltyInfoResponse, Failure> {
    match reply {
        Reply::Unreachable => Err(Failure::loyalty_unavailable()),
        Reply::Answered { status, body } => {
            if status.code == NOT_FOUND {
                Ok(LoyaltyInfoResponse::new_member())
            } else if status.code == OK {
                match LoyaltyInfoResponse::decoded(body) {
                    Some(account) => Ok(account),
                    None => Err(Failure::internal()),
                }
            } else {
                Err(Failure::internal())
            }
        },
    }
}

/// The reservation that is written once payment and loyalty update stand.
pub open spec fn reservation_to_write(
    request: CreateReservationRequest,
    payment: PaymentInfoServiceResponse,
) -> PostReservationServiceRequest {
    PostReservationServiceRequest {
        hotel_uid: request.hotel_uid,
        payment_uid: payment.payment_uid,
        start_date: request.start_date,
        end_date: request.end_date,
    }
}

/// What the client is told of a booked stay. The dates are the days on which
/// the recorded timestamps fall in UTC, the zone in which the reservation
/// was written.
pub open spec fn booked_view(
    written: PostReservationServiceResponse,
    discount: i32,
    payment: PaymentInfoServiceResponse,
) -> CreateReservationResponse {
    CreateReservationResponse {
        reservation_uid: written.reservation_uid,
        hotel_uid: written.hotel_uid,
        start_date: written.start_date.utc_date,
        end_date: written.end_date.utc_date,
        discount,
        status: written.status,
        payment: PaymentInfo { status: payment.status, price: payment.price },
    }
}

impl Booking {
    /// The first step of a booking that is to last `nights` nights, `None`
    /// standing for dates that are no days of the calendar. Without an
    /// identity, or without such a count, the client is turned away before
    /// any service is asked.
    pub open spec fn spec_begin_with_nights(
        identity: Option<String>,
        request: CreateReservationRequest,
        nights: Option<i64>,
    ) -> (Booking, BookingAction) {
        match (identity, nights) {
            (Some(user), Some(nights)) => (
                Booking::AwaitingHotel { user, request, nights },
                BookingAction::FetchHotel { hotel_uid: request.hotel_uid },
            ),
            _ => (Booking::Done, BookingAction::Fail(Failure::bad_request())),
        }
    }

    /// The first step of a booking: the nights are counted from the first
    /// date of the request to the second.
    pub open spec fn spec_begin(identity: Option<String>, request: CreateReservationRequest) -> (
        Booking,
        BookingAction,
    ) {
        Self::spec_begin_with_nights(
            identity,
            request,
            request.start_date.nights_to(request.end_date),
        )
    }

    /// The step that follows when `reply` answers the request that `self`
    /// waits for.
    pub open spec fn next(self, reply: Reply) -> (Booking, BookingAction) {
        match self {
            Booking::AwaitingHotel { user, request, nights } => {
                match reply.settled::<HotelResponse>() {
                    Err(e) => (
                        Booking::Done,
                        BookingAction::Fail(Failure { status: e.status(), detail: Detail::Bare }),
                    ),
                    Ok(hotel) => match as_price(stay_cost(nights as int, hotel.price as int)) {
                        None => (Booking::Done, BookingAction::Fail(Failure::internal())),
                        Some(cost) => (
                            Booking::AwaitingLoyalty { user, request, cost },
                            BookingAction::FetchLoyalty { user },
                        ),
                    },
                }
            },
            Booking::AwaitingLoyalty { user, request, cost } => {
                match loyalty_for_booking(reply) {
                    Err(failure) => (Booking::Done, BookingAction::Fail(failure)),
                    Ok(account) => match as_price(
                        discounted(cost as int, account.discount as int),
                    ) {
                        None => (Booking::Done, BookingAction::Fail(Failure::internal())),
                        Some(price) => (
                            Booking::AwaitingPayment { user, request, discount: account.discount },
                            BookingAction::CreatePayment {
                                payment: PaymentInfo { status: PaymentStatus::Paid, price },
                            },
                        ),
                    },
                }
            },
            Booking::AwaitingPayment { user, request, discount } => {
                match reply.settled::<PaymentInfoServiceResponse>() {
                    Err(e) => (
                        Booking::Done,
                        BookingAction::Fail(Failure { status: e.status(), detail: Detail::Bare }),
                    ),
                    Ok(payment) => (
                        Booking::AwaitingLoyaltyUpdate { user, request, discount, payment },
                        BookingAction::UpdateLoyalty { user },
                    ),
                }
            },
            Booking::AwaitingLoyaltyUpdate { user, request, discount, payment } => {
                match reply.settled::<()>() {
                    Err(_) => (
                        Booking::RollingBack,
                        BookingAction::DeletePayment { payment_uid: payment.payment_uid },
                    ),
                    Ok(_) => (
                        Booking::AwaitingReservation { discount, payment },
                        BookingAction::CreateReservation {
                            user,
                            reservation: reservation_to_write(request, payment),
                        },
                    ),
                }
            },
            Booking::AwaitingReservation { discount, payment } => {
                match reply.settled::<PostReservationServiceResponse>() {
                    Err(e) => (
                        Booking::Done,
                        BookingAction::Fail(Failure { status: e.status(), detail: Detail::Bare }),
                    ),
                    Ok(written) => (
                        Booking::Done,
                        BookingAction::Succeed(booked_view(written, discount, payment)),
                    ),
                }
            },
            Booking::RollingBack => (
                Booking::Done,
                BookingAction::Fail(Failure::loyalty_unavailable()),
            ),
            Booking::Done => (Booking::Done, BookingAction::Nothing),
        }
    }

    /// Starts a booking of `nights` nights for the user named by `identity`.
    pub fn begin_with_nights(
        identity: Option<String>,
        request: CreateReservationRequest,
        nights: Option<i64>,
    ) -> (step: (Booking, BookingAction))
        ensures
            step == Self::spec_begin_with_nights(identity, request, nights),
            step.1 matches BookingAction::Fail(failure) ==> failure.status.is_valid(),
    {
        match (identity, nights) {
            (Some(user), Some(nights)) => (
                Booking::AwaitingHotel { user, request, nights },
                BookingAction::FetchHotel { hotel_uid: request.hotel_uid },
            ),
            _ => (Booking::Done, BookingAction::Fail(bare_failure(BAD_REQUEST))),
        }
    }

    /// Starts a booking for the user named by `identity`.
    pub fn begin(identity: Option<String>, request: CreateReservationRequest) -> (step: (
        Booking,
        BookingAction,
    ))
        ensures
            step == Self::spec_begin(identity, request),
            step.1 matches BookingAction::Fail(failure) ==> failure.status.is_valid(),
    {
        let nights = request.start_date.nights_until(&request.end_date);
        Self::begin_with_nights(identity, request, nights)
    }
}

fn bare_failure(code: u16) -> (failure: Failure)
    ensures
        failure == Failure::bare(code),
{
    Failure { status: StatusCode { code }, detail: Detail::Bare }
}

fn failed_call(e: CallError) -> (failure: Failure)
    ensures
        failure == (Failure { status: e.status(), detail: Detail::Bare }),
{
    Failure { status: e.status(), detail: Detail::Bare }
}

fn loyalty_unavailable() -> (failure: Failure)
    ensures
        failure == Failure::loyalty_unavailable(),
{
    Failure { status: StatusCode { code: SERVICE_UNAVAILABLE }, detail: Detail::LoyaltyUnavailable }
}

/// Reads the answer to the loyalty lookup of a booking.
pub fn read_loyalty_for_booking(reply: Reply) -> (account: Result<LoyaltyInfoResponse, Failure>)
    ensures
        account == loyalty_for_booking(reply),
{
    match reply {
        Reply::Unreachable => Err(loyalty_unavailable()),
        Reply::Answered { status, body } => {
            if status.code == NOT_FOUND {
                Ok(LoyaltyInfoResponse::new_member())
            } else if status.code == OK {
                match LoyaltyInfoResponse::try_from_json(body) {
                    Some(account) => Ok(account),
                    None => Err(bare_failure(INTERNAL_SERVER_ERROR)),
                }
            } else {
                Err(bare_failure(INTERNAL_SERVER_ERROR))
            }
        },
    }
}

/// One step of a booking: takes the answer to the request that `state` waits
/// for and says what to do next.
pub fn post_reservation(state: Booking, reply: Reply) -> (step: (Booking, BookingAction))
    ensures
        step == state.next(reply),
        step.1 matches BookingAction::Fail(failure) ==> failure.status.is_valid(),
{
    match state {
        Booking::AwaitingHotel { user, request, nights } => {
            match reply.settle::<HotelResponse>() {
                Err(e) => (Booking::Done, BookingAction::Fail(failed_call(e))),
                Ok(hotel) => match compute_cost(nights, hotel.price) {
                    None => (
                        Booking::Done,
                        BookingAction::Fail(bare_failure(INTERNAL_SERVER_ERROR)),
                    ),
                    Some(cost) => {
                        let asked = user.clone();
                        (
                            Booking::AwaitingLoyalty { user, request, cost },
                            BookingAction::FetchLoyalty { user: asked },
                        )
                    },
                },
            }
        },
        Booking::AwaitingLoyalty { user, request, cost } => {
            match read_loyalty_for_booking(reply) {
                Err(failure) => (Booking::Done, BookingAction::Fail(failure)),
                Ok(account) => match apply_discount(cost, account.discount) {
                    None => (
                        Booking::Done,
                        BookingAction::Fail(bare_failure(INTERNAL_SERVER_ERROR)),
                    ),
                    Some(price) => (
                        Booking::AwaitingPayment { user, request, discount: account.discount },
                        BookingAction::CreatePayment {
                            payment: PaymentInfo { status: PaymentStatus::Paid, price },
                        },
                    ),
                },
            }
        },
        Booking::AwaitingPayment { user, request, discount } => {
            match reply.settle::<PaymentInfoServiceResponse>() {
                Err(e) => (Booking::Done, BookingAction::Fail(failed_call(e))),
                Ok(payment) => {
                    let asked = user.clone();
                    (
                        Booking::AwaitingLoyaltyUpdate { user, request, discount, payment },
                        BookingAction::UpdateLoyalty { user: asked },
                    )
                },
            }
        },
        Booking::AwaitingLoyaltyUpdate { user, request, discount, payment } => {
            match reply.settle::<()>() {
                Err(_) => (
                    Booking::RollingBack,
                    BookingAction::DeletePayment { payment_uid: payment.payment_uid },
                ),
                Ok(_) => (
                    Booking::AwaitingReservation { discount, payment },
                    BookingAction::CreateReservation {
                        user,
                        reservation: PostReservationServiceRequest {
                            hotel_uid: request.hotel_uid,
                            payment_uid: payment.payment_uid,
                            start_date: request.start_date,
                            end_date: request.end_date,
                        },
                    },
                ),
            }
        },
        Booking::AwaitingReservation { discount, payment } => {
            match reply.settle::<PostReservationServiceResponse>() {
                Err(e) => (Booking::Done, BookingAction::Fail(failed_call(e))),
                Ok(written) => (
                    Booking::Done,
                    BookingAction::Succeed(
                        CreateReservationResponse {
                            reservation_uid: written.reservation_uid,
                            hotel_uid: written.hotel_uid,
                            start_date: written.start_date.utc_date,
                            end_date: written.end_date.utc_date,
                            discount,
                            status: written.status,
                            payment: PaymentInfo { status: payment.status, price: payment.price },
                        },
                    ),
                ),
            }
        },
        Booking::RollingBack => (Booking::Done, BookingAction::Fail(loyalty_unavailable())),
        Booking::Done => (Booking::Done, BookingAction::Nothing),
    }
}

} // verus!
