//! Requests that the gateway hands on to one service and answers with what
//! that service said.

use crate::downstream::{CallError, Reply};
use crate::dto::{LoyaltyInfoResponse, PaginationResponse};
use crate::failure::{Detail, Failure};
use crate::status::{StatusCode, BAD_REQUEST, OK, SERVICE_UNAVAILABLE};
use vstd::prelude::*;

verus! {

/// The gateway is up.
pub fn check_health() -> (status: StatusCode)
    ensures
        status == (StatusCode { code: OK }),
{
    StatusCode { code: OK }
}

/// A page of hotels as the client sees it: the page that the reservation
/// service sent, or the status of the failed call.
pub open spec fn hotels_listed(reply: Reply) -> Result<PaginationResponse, StatusCode> {
    match reply.settled::<PaginationResponse>() {
        Ok(page) => Ok(page),
        Err(e) => Err(e.status()),
    }
}

/// Answers the request for a page of hotels from the reply of the
/// reservation service.
pub fn get_hotels(reply: Reply) -> (answer: Result<PaginationResponse, StatusCode>)
    ensures
        answer == hotels_listed(reply),
        answer matches Err(status) ==> status.is_valid(),
{
    match reply.settle::<PaginationResponse>() {
        Ok(page) => Ok(page),
        Err(e) => Err(e.status()),
    }
}

/// The user whose loyalty account is asked for, or the failure that a
/// request without identity ends in.
pub open spec fn spec_identify(identity: Option<String>) -> Result<String, Failure> {
    match identity {
        Some(user) => Ok(user),
        None => Err(Failure::described(StatusCode { code: BAD_REQUEST })),
    }
}

#[verifier::when_used_as_spec(spec_identify)]
pub fn identify(identity: Option<String>) -> (user: Result<String, Failure>)
    ensures
        user == spec_identify(identity),
{
    match identity {
        Some(user) => Ok(user),
        None => Err(Failure { status: StatusCode { code: BAD_REQUEST }, detail: Detail::StatusLine }),
    }
}

/// A loyalty account as the client sees it: the account that the loyalty
/// service sent, or a failure with a body. A service that cannot be reached
/// is told in words; any other failure is told by its status line.
pub open spec fn loyalty_read(reply: Reply) -> Result<LoyaltyInfoResponse, Failure> {
    match reply.settled::<LoyaltyInfoResponse>() {
        Ok(account) => Ok(account),
        Err(CallError::Unavailable) => Err(Failure::loyalty_unavailable()),
        Err(e) => Err(Failure::described(e.status())),
    }
}

/// Answers the request for the user's loyalty account from the reply of the
/// loyalty service.
pub fn get_loyalty(reply: Reply) -> (answer: Result<LoyaltyInfoResponse, Failure>)
    ensures
        answer == loyalty_read(reply),
        answer matches Err(failure) ==> failure.status.is_valid(),
{
    match reply.settle::<LoyaltyInfoResponse>() {
        Ok(account) => Ok(account),
        Err(CallError::Unavailable) => Err(
            Failure {
                status: StatusCode { code: SERVICE_UNAVAILABLE },
                detail: Detail::LoyaltyUnavailable,
            },
        ),
        Err(e) => Err(Failure { status: e.status(), detail: Detail::StatusLine }),
    }
}

} // verus!
