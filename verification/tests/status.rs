use svc_gateway::dto::ErrorResponse;
use svc_gateway::failure::{Detail, Failure};
use svc_gateway::status::{
    StatusCode, BAD_REQUEST, INTERNAL_SERVER_ERROR, NOT_FOUND, NO_CONTENT, OK,
    SERVICE_UNAVAILABLE,
};

#[test]
fn status_codes_run_from_100_to_999() {
    assert_eq!(StatusCode::from_u16(99), None);
    assert_eq!(StatusCode::from_u16(100), Some(StatusCode { code: 100 }));
    assert_eq!(StatusCode::from_u16(200), Some(StatusCode { code: 200 }));
    assert_eq!(StatusCode::from_u16(999), Some(StatusCode { code: 999 }));
    assert_eq!(StatusCode::from_u16(1000), None);
    assert_eq!(StatusCode::from_u16(0), None);
    assert_eq!(StatusCode::from_u16(u16::MAX), None);
    assert_eq!(StatusCode { code: 418 }.as_u16(), 418);
}

#[test]
fn named_codes_have_their_numbers() {
    assert_eq!(OK, 200);
    assert_eq!(NO_CONTENT, 204);
    assert_eq!(BAD_REQUEST, 400);
    assert_eq!(NOT_FOUND, 404);
    assert_eq!(INTERNAL_SERVER_ERROR, 500);
    assert_eq!(SERVICE_UNAVAILABLE, 503);
}

#[test]
fn success_is_two_hundred_to_two_ninety_nine() {
    assert!(!StatusCode { code: 199 }.is_success());
    assert!(StatusCode { code: 200 }.is_success());
    assert!(StatusCode { code: 204 }.is_success());
    assert!(StatusCode { code: 299 }.is_success());
    assert!(!StatusCode { code: 300 }.is_success());
    assert!(!StatusCode { code: 404 }.is_success());
}

#[test]
fn client_error_is_four_hundred_to_four_ninety_nine() {
    assert!(!StatusCode { code: 399 }.is_client_error());
    assert!(StatusCode { code: 400 }.is_client_error());
    assert!(StatusCode { code: 404 }.is_client_error());
    assert!(StatusCode { code: 499 }.is_client_error());
    assert!(!StatusCode { code: 500 }.is_client_error());
    assert!(!StatusCode { code: 200 }.is_client_error());
}

#[test]
fn status_text_is_number_and_reason() {
    assert_eq!(StatusCode { code: 200 }.to_text(), "200 OK");
    assert_eq!(StatusCode { code: 400 }.to_text(), "400 Bad Request");
    assert_eq!(StatusCode { code: 404 }.to_text(), "404 Not Found");
    assert_eq!(StatusCode { code: 500 }.to_text(), "500 Internal Server Error");
    assert_eq!(StatusCode { code: 503 }.to_text(), "503 Service Unavailable");
    assert_eq!(StatusCode { code: 999 }.to_text(), "999 <unknown status code>");
}

#[test]
fn error_response_repeats_the_status_line() {
    let (status, body) = ErrorResponse::resp_from_status(StatusCode { code: 400 });
    assert_eq!(status, StatusCode { code: 400 });
    assert_eq!(body.message, "400 Bad Request");
    let (status, body) = ErrorResponse::resp_from_status(StatusCode { code: 500 });
    assert_eq!(status.code, 500);
    assert_eq!(body.message, "500 Internal Server Error");
}

#[test]
fn failure_bodies() {
    let bare = Failure { status: StatusCode { code: 503 }, detail: Detail::Bare };
    assert_eq!(bare.body(), None);
    let described = Failure { status: StatusCode { code: 404 }, detail: Detail::StatusLine };
    assert_eq!(described.body(), Some(ErrorResponse { message: "404 Not Found".to_string() }));
    let loyalty = Failure { status: StatusCode { code: 503 }, detail: Detail::LoyaltyUnavailable };
    assert_eq!(
        loyalty.body(),
        Some(ErrorResponse { message: "Loyalty Service unavailable".to_string() })
    );
}
