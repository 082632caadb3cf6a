//! The records that travel between the clients, the gateway and the three
//! backend services.

use crate::dates::{Date, Stamp};
use crate::status::{status_text, StatusCode};
use vstd::prelude::*;

verus! {

/// `uuid::Uuid`, carried through as an identifier and never looked into.
#[verifier::external_type_specification]
#[verifier::external_body]
pub struct ExUuid(uuid::Uuid);

/// `Clone` of `uuid::Uuid`, which the crate derives for its `Copy` type: the
/// clone is the identifier itself.
pub assume_specification[ <uuid::Uuid as Clone>::clone ](id: &uuid::Uuid) -> (copy: uuid::Uuid)
    ensures
        copy == *id,
;

#[derive(Clone, Copy, Debug, PartialEq, Eq)]
pub enum PaymentStatus {
    Paid,
    Canceled,
}

#[derive(Clone, Copy, Debug, PartialEq, Eq)]
pub enum LoyaltyStatus {
    Bronze,
    Silver,
    Gold,
}

/// The body of an error answer.
#[derive(Clone, Debug, PartialEq, Eq)]
pub struct ErrorResponse {
    pub message: String,
}

#[derive(Clone, Copy, Debug, PartialEq, Eq)]
pub struct PaginationRequest {
    pub page: usize,
    pub size: usize,
}

#[derive(Clone, Debug, PartialEq, Eq)]
pub struct PaginationResponse {
    pub page: usize,
    pub page_size: usize,
    pub total_elements: usize,
    pub items: Vec<HotelResponse>,
}

/// A hotel with its nightly price, as the reservation service quotes it.
#[derive(Clone, Debug, PartialEq, Eq)]
pub struct HotelResponse {
    pub hotel_uid: uuid::Uuid,
    pub name: String,
    pub country: String,
    pub city: String,
    pub address: String,
    pub stars: i32,
    pub price: i32,
}

#[derive(Clone, Debug, PartialEq, Eq)]
pub struct HotelInfo {
    pub hotel_uid: uuid::Uuid,
    pub name: String,
    pub full_address: String,
    pub stars: i32,
}

/// A user's profile: the reservations and, where it could be had, the
/// loyalty account.
#[derive(Clone, Debug, PartialEq, Eq)]
pub struct UserInfoResponse {
    pub reservations: Vec<ReservationResponse>,
    pub loyalty: Option<LoyaltyInfoResponse>,
}

/// A reservation as a client sees it, with the payment where it could be had.
#[derive(Clone, Debug, PartialEq, Eq)]
pub struct ReservationResponse {
    pub reservation_uid: uuid::Uuid,
    pub hotel: HotelInfo,
    pub start_date: Date,
    pub end_date: Date,
    pub status: PaymentStatus,
    pub payment: Option<PaymentInfo>,
}

/// A reservation as the reservation service reports it.
#[derive(Clone, Debug, PartialEq, Eq)]
pub struct ReservationServiceResponse {
    pub reservation_uid: uuid::Uuid,
    pub hotel: HotelInfo,
    pub start_date: Stamp,
    pub end_date: Stamp,
    pub status: PaymentStatus,
    pub payment_uid: uuid::Uuid,
}

#[derive(Clone, Copy, Debug, PartialEq, Eq)]
pub struct PaymentInfo {
    pub status: PaymentStatus,
    pub price: i32,
}

/// A payment record as the payment service reports it.
#[derive(Clone, Copy, Debug, PartialEq, Eq)]
pub struct PaymentInfoServiceResponse {
    pub payment_uid: uuid::Uuid,
    pub status: PaymentStatus,
    pub price: i32,
}

/// What a client asks for when booking.
#[derive(Clone, Copy, Debug, PartialEq, Eq)]
pub struct CreateReservationRequest {
    pub hotel_uid: uuid::Uuid,
    pub start_date: Date,
    pub end_date: Date,
}

/// What a client gets back for a booking.
#[derive(Clone, Copy, Debug, PartialEq, Eq)]
pub struct CreateReservationResponse {
    pub reservation_uid: uuid::Uuid,
    pub hotel_uid: uuid::Uuid,
    pub start_date: Date,
    pub end_date: Date,
    pub discount: i32,
    pub status: PaymentStatus,
    pub payment: PaymentInfo,
}

/// The reservation that the gateway asks the reservation service to record.
/// Each date stands for the instant at which that day begins in UTC.
#[derive(Clone, Copy, Debug, PartialEq, Eq)]
pub struct PostReservationServiceRequest {
    pub hotel_uid: uuid::Uuid,
    pub payment_uid: uuid::Uuid,
    pub start_date: Date,
    pub end_date: Date,
}

/// The reservation as the reservation service recorded it.
#[derive(Clone, Copy, Debug, PartialEq, Eq)]
pub struct PostReservationServiceResponse {
    pub reservation_uid: uuid::Uuid,
    pub hotel_uid: uuid::Uuid,
    pub payment_uid: uuid::Uuid,
    pub start_date: Stamp,
    pub end_date: Stamp,
    pub status: PaymentStatus,
}

/// A user's loyalty account.
#[derive(Clone, Copy, Debug, PartialEq, Eq)]
pub struct LoyaltyInfoResponse {
    pub status: LoyaltyStatus,
    pub discount: i32,
    pub reservation_count: i32,
}

impl ErrorResponse {
    /// The status together with a body whose message is the status line.
    pub fn resp_from_status(s: StatusCode) -> (r: (StatusCode, ErrorResponse))
        requires
            s.is_valid(),
        ensures
            r.0 == s,
            r.1.message@ == status_text(s.code),
    {
        (s, ErrorResponse { message: s.to_text() })
    }
}

impl ReservationResponse {
    /// The client's view of `res`, with `payment` attached as it is. Of each
    /// timestamp the client sees the day on which it falls in the gateway's
    /// own time zone.
    pub open spec fn spec_from_svc_responses(
        res: ReservationServiceResponse,
        payment: Option<PaymentInfo>,
    ) -> ReservationResponse {
        ReservationResponse {
            reservation_uid: res.reservation_uid,
            hotel: res.hotel,
            start_date: res.start_date.local_date,
            end_date: res.end_date.local_date,
            status: res.status,
            payment,
        }
    }

    #[verifier::when_used_as_spec(spec_from_svc_responses)]
    pub fn from_svc_responses(res: ReservationServiceResponse, payment: Option<PaymentInfo>) -> (r:
        ReservationResponse)
        ensures
            r == Self::spec_from_svc_responses(res, payment),
    {
        ReservationResponse {
            reservation_uid: res.reservation_uid,
            hotel: res.hotel,
            start_date: res.start_date.local_date,
            end_date: res.end_date.local_date,
            status: res.status,
            payment,
        }
    }
}

impl LoyaltyInfoResponse {
    /// The account that stands in for a user whom the loyalty service does
    /// not know yet: bronze, five percent, and the booking under way counted.
    pub open spec fn spec_new_member() -> LoyaltyInfoResponse {
        LoyaltyInfoResponse { status: LoyaltyStatus::Bronze, discount: 5, reservation_count: 1 }
    }

    #[verifier::when_used_as_spec(spec_new_member)]
    pub fn new_member() -> (account: LoyaltyInfoResponse)
        ensures
            account == Self::spec_new_member(),
    {
        LoyaltyInfoResponse { status: LoyaltyStatus::Bronze, discount: 5, reservation_count: 1 }
    }
}

impl Default for LoyaltyInfoResponse {
    /// A bronze account with five percent and no reservation counted.
    fn default() -> (account: LoyaltyInfoResponse)
        ensures
            account == (LoyaltyInfoResponse {
                status: LoyaltyStatus::Bronze,
                discount: 5,
                reservation_count: 0,
            }),
    {
        LoyaltyInfoResponse { status: LoyaltyStatus::Bronze, discount: 5, reservation_count: 0 }
    }
}

impl PaymentStatus {
    /// The status in capitals, as it is written on the wire.
    pub open spec fn text(self) -> Seq<char> {
        match self {
            PaymentStatus::Paid => "PAID"@,
            PaymentStatus::Canceled => "CANCELED"@,
        }
    }

    pub fn to_text(&self) -> (text: String)
        ensures
            text@ == self.text(),
    {
        match self {
            PaymentStatus::Paid => "PAID".to_owned(),
            PaymentStatus::Canceled => "CANCELED".to_owned(),
        }
    }
}

} // verus!
