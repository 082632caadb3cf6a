//! HTTP status codes as the gateway reads and answers them.

use vstd::prelude::*;

verus! {

pub const OK: u16 = 200;

pub const NO_CONTENT: u16 = 204;

pub const BAD_REQUEST: u16 = 400;

pub const NOT_FOUND: u16 = 404;

pub const INTERNAL_SERVER_ERROR: u16 = 500;

pub const SERVICE_UNAVAILABLE: u16 = 503;

/// A three-digit HTTP status code.
///
/// The field is open so that a code can be written down directly; a value is
/// an HTTP status only where `is_valid` holds, and every code that the gateway
/// itself hands out is one.
#[derive(Clone, Copy, Debug, PartialEq, Eq)]
pub struct StatusCode {
    pub code: u16,
}

/// The line that the `http` crate prints for a status code: the number, a
/// space and the canonical reason phrase.
pub uninterp spec fn status_text(code: u16) -> Seq<char>;

impl StatusCode {
    /// Codes from 100 to 999 are HTTP statuses.
    pub open spec fn is_valid(&self) -> bool {
        100 <= self.code <= 999
    }

    pub open spec fn spec_is_success(&self) -> bool {
        200 <= self.code <= 299
    }

    pub open spec fn spec_is_client_error(&self) -> bool {
        400 <= self.code <= 499
    }

    /// The status for `code`, if it is one.
    pub fn from_u16(code: u16) -> (r: Option<StatusCode>)
        ensures
            r == (if 100 <= code <= 999 {
                Some(StatusCode { code })
            } else {
                None
            }),
    {
        if 100 <= code && code <= 999 {
            Some(StatusCode { code })
        } else {
            None
        }
    }

    pub fn as_u16(&self) -> (code: u16)
        ensures
            code == self.code,
    {
        self.code
    }

    /// Whether the code is in 200..=299.
    #[verifier::when_used_as_spec(spec_is_success)]
    pub fn is_success(&self) -> (b: bool)
        ensures
            b == self.spec_is_success(),
    {
        200 <= self.code && self.code <= 299
    }

    /// Whether the code is in 400..=499.
    #[verifier::when_used_as_spec(spec_is_client_error)]
    pub fn is_client_error(&self) -> (b: bool)
        ensures
            b == self.spec_is_client_error(),
    {
        400 <= self.code && self.code <= 499
    }

    /// The status line as text, such as `404 Not Found`.
    pub fn to_text(&self) -> (text: String)
        requires
            self.is_valid(),
        ensures
            text@ == status_text(self.code),
    {
        http_status_text(self.code)
    }
}

/// Calls `Display` of `http::StatusCode` (through `to_string`) on the status
/// made by `http::StatusCode::from_u16`, which accepts exactly 100..=999.
/// The contract only gives the printed line its name; nothing is claimed of
/// what the line holds.
#[verifier::external_body]
fn http_status_text(code: u16) -> (text: String)
    requires
        100 <= code <= 999,
    ensures
        text@ == status_text(code),
{
    axum::http::StatusCode::from_u16(code).unwrap().to_string()
}

} // verus!
