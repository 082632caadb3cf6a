//! The one way in which answers of the backend services are read.
//!
//! A call ends in a decoded value or in one of three failures: the service
//! could not be reached, it answered with a status outside 200..=299, or it
//! answered well but its body was not what the call expects. Nothing is
//! retried here.

use crate::dto::{
    HotelResponse, LoyaltyInfoResponse, PaginationResponse, PaymentInfo,
    PaymentInfoServiceResponse, PostReservationServiceResponse, ReservationServiceResponse,
};
use crate::status::{StatusCode, INTERNAL_SERVER_ERROR, SERVICE_UNAVAILABLE};
use vstd::prelude::*;

verus! {

/// The body of an answer, decoded as what the request asked for.
#[derive(Clone, Debug, PartialEq, Eq)]
pub enum Body {
    /// No body, or one that did not decode.
    Unreadable,
    Hotel(HotelResponse),
    Hotels(PaginationResponse),
    Loyalty(LoyaltyInfoResponse),
    Payment(PaymentInfo),
    PaymentRecord(PaymentInfoServiceResponse),
    Reservation(ReservationServiceResponse),
    Reservations(Vec<ReservationServiceResponse>),
    Booked(PostReservationServiceResponse),
}

/// How a request to a backend service ended.
#[derive(Clone, Debug, PartialEq, Eq)]
pub enum Reply {
    /// The request could not be sent, or no answer came.
    Unreachable,
    Answered { status: StatusCode, body: Body },
}

/// Why a call gave no value.
#[derive(Clone, Copy, Debug, PartialEq, Eq)]
pub enum CallError {
    Unavailable,
    UpstreamError(StatusCode),
    DecodeError,
}

impl CallError {
    /// The status that a client sees where this failure ends its request.
    pub open spec fn spec_status(&self) -> StatusCode {
        match *self {
            CallError::Unavailable => StatusCode { code: SERVICE_UNAVAILABLE },
            CallError::UpstreamError(status) => status,
            CallError::DecodeError => StatusCode { code: INTERNAL_SERVER_ERROR },
        }
    }

    #[verifier::when_used_as_spec(spec_status)]
    pub fn status(&self) -> (status: StatusCode)
        ensures
            status == self.spec_status(),
    {
        match *self {
            CallError::Unavailable => StatusCode { code: SERVICE_UNAVAILABLE },
            CallError::UpstreamError(status) => status,
            CallError::DecodeError => StatusCode { code: INTERNAL_SERVER_ERROR },
        }
    }
}

/// A record that can be taken out of a decoded body.
pub trait FromJson: Sized {
    /// The record that `body` holds, where it holds one of this kind.
    spec fn decoded(body: Body) -> Option<Self>;

    /// The record in the body, or `None`: for a lookup that may be left out.
    fn try_from_json(r: Body) -> (value: Option<Self>)
        ensures
            value == Self::decoded(r),
    ;

    /// The record in the body, or an internal error: for a lookup that the
    /// request cannot do without.
    fn from_json(r: Body) -> (value: Result<Self, StatusCode>)
        ensures
            value == (match Self::decoded(r) {
                Some(v) => Ok::<Self, StatusCode>(v),
                None => Err::<Self, StatusCode>(StatusCode { code: INTERNAL_SERVER_ERROR }),
            }),
    {
        match Self::try_from_json(r) {
            Some(v) => Ok(v),
            None => Err(StatusCode { code: INTERNAL_SERVER_ERROR }),
        }
    }
}

impl FromJson for HotelResponse {
    open spec fn decoded(body: Body) -> Option<Self> {
        match body {
            Body::Hotel(v) => Some(v),
            _ => None,
        }
    }

    fn try_from_json(r: Body) -> (value: Option<Self>) {
        match r {
            Body::Hotel(v) => Some(v),
            _ => None,
        }
    }
}

impl FromJson for PaginationResponse {
    open spec fn decoded(body: Body) -> Option<Self> {
        match body {
            Body::Hotels(v) => Some(v),
            _ => None,
        }
    }

    fn try_from_json(r: Body) -> (value: Option<Self>) {
        match r {
            Body::Hotels(v) => Some(v),
            _ => None,
        }
    }
}

impl FromJson for LoyaltyInfoResponse {
    open spec fn decoded(body: Body) -> Option<Self> {
        match body {
            Body::Loyalty(v) => Some(v),
            _ => None,
        }
    }

    fn try_from_json(r: Body) -> (value: Option<Self>) {
        match r {
            Body::Loyalty(v) => Some(v),
            _ => None,
        }
    }
}

impl FromJson for PaymentInfo {
    open spec fn decoded(body: Body) -> Option<Self> {
        match body {
            Body::Payment(v) => Some(v),
            _ => None,
        }
    }

    fn try_from_json(r: Body) -> (value: Option<Self>) {
        match r {
            Body::Payment(v) => Some(v),
            _ => None,
        }
    }
}

impl FromJson for PaymentInfoServiceResponse {
    open spec fn decoded(body: Body) -> Option<Self> {
        match body {
            Body::PaymentRecord(v) => Some(v),
            _ => None,
        }
    }

    fn try_from_json(r: Body) -> (value: Option<Self>) {
        match r {
            Body::PaymentRecord(v) => Some(v),
            _ => None,
        }
    }
}

impl FromJson for ReservationServiceResponse {
    open spec fn decoded(body: Body) -> Option<Self> {
        match body {
            Body::Reservation(v) => Some(v),
            _ => None,
        }
    }

    fn try_from_json(r: Body) -> (value: Option<Self>) {
        match r {
            Body::Reservation(v) => Some(v),
            _ => None,
        }
    }
}

impl FromJson for Vec<ReservationServiceResponse> {
    open spec fn decoded(body: Body) -> Option<Self> {
        match body {
            Body::Reservations(v) => Some(v),
            _ => None,
        }
    }

    fn try_from_json(r: Body) -> (value: Option<Self>) {
        match r {
            Body::Reservations(v) => Some(v),
            _ => None,
        }
    }
}

impl FromJson for PostReservationServiceResponse {
    open spec fn decoded(body: Body) -> Option<Self> {
        match body {
            Body::Booked(v) => Some(v),
            _ => None,
        }
    }

    fn try_from_json(r: Body) -> (value: Option<Self>) {
        match r {
            Body::Booked(v) => Some(v),
            _ => None,
        }
    }
}

/// A request that asks for no record is answered by any body.
impl FromJson for () {
    open spec fn decoded(body: Body) -> Option<Self> {
        Some(())
    }

    fn try_from_json(r: Body) -> (value: Option<Self>) {
        Some(())
    }
}

impl Reply {
    /// The outcome of the call that `self` answers, read as a `T`.
    ///
    /// An answer whose status is no HTTP status counts as no answer.
    pub open spec fn settled<T: FromJson>(self) -> Result<T, CallError> {
        match self {
            Reply::Unreachable => Err(CallError::Unavailable),
            Reply::Answered { status, body } => {
                if !status.is_valid() {
                    Err(CallError::Unavailable)
                } else if !status.is_success() {
                    Err(CallError::UpstreamError(status))
                } else {
                    match T::decoded(body) {
                        Some(v) => Ok(v),
                        None => Err(CallError::DecodeError),
                    }
                }
            },
        }
    }

    /// The call that `self` answers went well, whatever its body holds.
    pub open spec fn spec_succeeded(&self) -> bool {
        self.settled::<()>() is Ok
    }

    #[verifier::when_used_as_spec(spec_succeeded)]
    pub fn succeeded(&self) -> (well: bool)
        ensures
            well == self.spec_succeeded(),
    {
        match self {
            Reply::Unreachable => false,
            Reply::Answered { status, .. } => 200 <= status.code && status.code <= 299,
        }
    }

    /// Sorts the answer into the decoded record or one of the three failures.
    pub fn settle<T: FromJson>(self) -> (outcome: Result<T, CallError>)
        ensures
            outcome == self.settled::<T>(),
    {
        match self {
            Reply::Unreachable => Err(CallError::Unavailable),
            Reply::Answered { status, body } => {
                if StatusCode::from_u16(status.code).is_none() {
                    Err(CallError::Unavailable)
                } else if !status.is_success() {
                    Err(CallError::UpstreamError(status))
                } else {
                    match T::try_from_json(body) {
                        Some(v) => Ok(v),
                        None => Err(CallError::DecodeError),
                    }
                }
            },
        }
    }
}

/// A failed call names an HTTP status: the one the backend sent, or one of
/// the gateway's own.
pub proof fn law_failed_call_has_http_status<T: FromJson>(reply: Reply)
    ensures
        reply.settled::<T>() matches Err(e) ==> e.status().is_valid(),
{
}

} // verus!
