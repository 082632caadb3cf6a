use svc_gateway::dates::{Date, Stamp};
use svc_gateway::dto::{
    HotelInfo, LoyaltyInfoResponse, LoyaltyStatus, PaginationRequest, PaymentInfo, PaymentStatus,
    ReservationResponse, ReservationServiceResponse,
};
use uuid::Uuid;

#[test]
fn default_loyalty_account_is_bronze_at_five_percent() {
    let account = LoyaltyInfoResponse::default();
    assert_eq!(account.status, LoyaltyStatus::Bronze);
    assert_eq!(account.discount, 5);
    assert_eq!(account.reservation_count, 0);
}

#[test]
fn new_member_counts_the_booking_under_way() {
    let account = LoyaltyInfoResponse::new_member();
    assert_eq!(account.status, LoyaltyStatus::Bronze);
    assert_eq!(account.discount, 5);
    assert_eq!(account.reservation_count, 1);
}

#[test]
fn payment_status_in_capitals() {
    assert_eq!(PaymentStatus::Paid.to_text(), "PAID");
    assert_eq!(PaymentStatus::Canceled.to_text(), "CANCELED");
}

#[test]
fn pagination_request_holds_page_and_size() {
    let p = PaginationRequest { page: 2, size: 25 };
    assert_eq!(p.page, 2);
    assert_eq!(p.size, 25);
}

#[test]
fn view_of_a_reservation_shows_the_local_days() {
    let hotel = HotelInfo {
        hotel_uid: Uuid::from_u128(7),
        name: "Ararat Park Hyatt".to_string(),
        full_address: "Russia, Moscow, Neglinnaya 4".to_string(),
        stars: 5,
    };
    let res = ReservationServiceResponse {
        reservation_uid: Uuid::from_u128(1),
        hotel: hotel.clone(),
        start_date: Stamp {
            utc_date: Date { year: 2023, month: 12, day: 31 },
            local_date: Date { year: 2024, month: 1, day: 1 },
        },
        end_date: Stamp {
            utc_date: Date { year: 2024, month: 1, day: 3 },
            local_date: Date { year: 2024, month: 1, day: 4 },
        },
        status: PaymentStatus::Paid,
        payment_uid: Uuid::from_u128(2),
    };
    let payment = PaymentInfo { status: PaymentStatus::Paid, price: 270 };
    let with = ReservationResponse::from_svc_responses(res.clone(), Some(payment));
    assert_eq!(
        with,
        ReservationResponse {
            reservation_uid: Uuid::from_u128(1),
            hotel: hotel.clone(),
            start_date: Date { year: 2024, month: 1, day: 1 },
            end_date: Date { year: 2024, month: 1, day: 4 },
            status: PaymentStatus::Paid,
            payment: Some(payment),
        }
    );
    let without = ReservationResponse::from_svc_responses(res, None);
    assert_eq!(without.payment, None);
    assert_eq!(without.reservation_uid, Uuid::from_u128(1));
    assert_eq!(without.hotel, hotel);
}
