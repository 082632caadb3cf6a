//! How the gateway tells a client that a request failed.

use crate::dto::ErrorResponse;
use crate::status::{
    status_text, StatusCode, BAD_REQUEST, INTERNAL_SERVER_ERROR, SERVICE_UNAVAILABLE,
};
use vstd::prelude::*;

verus! {

/// What the body of a failure says.
#[derive(Clone, Copy, Debug, PartialEq, Eq)]
pub enum Detail {
    /// No body at all.
    Bare,
    /// The status line.
    StatusLine,
    /// That the loyalty service cannot be reached.
    LoyaltyUnavailable,
}

/// A failed request: the status and what goes with it.
#[derive(Clone, Copy, Debug, PartialEq, Eq)]
pub struct Failure {
    pub status: StatusCode,
    pub detail: Detail,
}

impl Failure {
    /// A failure that is told by its status alone.
    pub open spec fn bare(code: u16) -> Failure {
        Failure { status: StatusCode { code }, detail: Detail::Bare }
    }

    /// A failure whose body repeats the status line.
    pub open spec fn described(status: StatusCode) -> Failure {
        Failure { status, detail: Detail::StatusLine }
    }

    /// The loyalty service cannot be reached.
    pub open spec fn loyalty_unavailable() -> Failure {
        Failure {
            status: StatusCode { code: SERVICE_UNAVAILABLE },
            detail: Detail::LoyaltyUnavailable,
        }
    }

    /// The request carried no usable identity or body.
    pub open spec fn bad_request() -> Failure {
        Self::bare(BAD_REQUEST)
    }

    /// The gateway could not make sense of what it was given.
    pub open spec fn internal() -> Failure {
        Self::bare(INTERNAL_SERVER_ERROR)
    }

    /// The text of the body that goes out with the failure, if there is one.
    pub open spec fn message(self) -> Option<Seq<char>> {
        match self.detail {
            Detail::Bare => None,
            Detail::StatusLine => Some(status_text(self.status.code)),
            Detail::LoyaltyUnavailable => Some("Loyalty Service unavailable"@),
        }
    }

    /// The body that goes out with the failure, if any.
    pub fn body(&self) -> (body: Option<ErrorResponse>)
        requires
            self.detail is StatusLine ==> self.status.is_valid(),
        ensures
            match body {
                Some(b) => self.message() == Some(b.message@),
                None => self.message() is None,
            },
    {
        match self.detail {
            Detail::Bare => None,
            Detail::StatusLine => Some(ErrorResponse::resp_from_status(self.status).1),
            Detail::LoyaltyUnavailable => Some(
                ErrorResponse { message: "Loyalty Service unavailable".to_owned() },
            ),
        }
    }
}

} // verus!
