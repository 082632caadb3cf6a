use svc_gateway::aggregate::{
    attach_payments, get_me, get_reservation, get_reservations, payment_found, payment_uids,
    Listing, ListingAction, ListingEvent, Profile, ProfileAction, Viewing, ViewingAction,
};
use svc_gateway::dates::{Date, Stamp};
use svc_gateway::downstream::{Body, Reply};
use svc_gateway::dto::{
    HotelInfo, LoyaltyInfoResponse, LoyaltyStatus, PaymentInfo, PaymentStatus,
    ReservationResponse, ReservationServiceResponse, UserInfoResponse,
};
use svc_gateway::status::StatusCode;
use uuid::Uuid;

fn name() -> String {
    "Test Max".to_string()
}

fn answered(code: u16, body: Body) -> Reply {
    Reply::Answered { status: StatusCode { code }, body }
}

fn hotel() -> HotelInfo {
    HotelInfo {
        hotel_uid: Uuid::from_u128(7),
        name: "Ararat Park Hyatt Moscow".to_string(),
        full_address: "Russia, Moscow, Neglinnaya 4".to_string(),
        stars: 5,
    }
}

fn reservation(n: u128) -> ReservationServiceResponse {
    ReservationServiceResponse {
        reservation_uid: Uuid::from_u128(100 + n),
        hotel: hotel(),
        start_date: Stamp {
            utc_date: Date { year: 2023, month: 12, day: 31 },
            local_date: Date { year: 2024, month: 1, day: 1 },
        },
        end_date: Stamp {
            utc_date: Date { year: 2024, month: 1, day: 3 },
            local_date: Date { year: 2024, month: 1, day: 4 },
        },
        status: PaymentStatus::Paid,
        payment_uid: Uuid::from_u128(200 + n),
    }
}

fn view(n: u128, payment: Option<PaymentInfo>) -> ReservationResponse {
    ReservationResponse {
        reservation_uid: Uuid::from_u128(100 + n),
        hotel: hotel(),
        start_date: Date { year: 2024, month: 1, day: 1 },
        end_date: Date { year: 2024, month: 1, day: 4 },
        status: PaymentStatus::Paid,
        payment,
    }
}

fn paid(price: i32) -> PaymentInfo {
    PaymentInfo { status: PaymentStatus::Paid, price }
}

fn found(price: i32) -> Reply {
    answered(200, Body::Payment(paid(price)))
}

fn gold() -> LoyaltyInfoResponse {
    LoyaltyInfoResponse { status: LoyaltyStatus::Gold, discount: 10, reservation_count: 25 }
}

fn listed(n: u128) -> ListingEvent {
    ListingEvent::Answered(answered(200, Body::Reservations((0..n).map(reservation).collect())))
}

#[test]
fn one_failed_lookup_leaves_one_gap() {
    let reservations: Vec<ReservationServiceResponse> = (0..5).map(reservation).collect();
    for k in 0..5u128 {
        let lookups: Vec<Reply> = (0..5u128)
            .map(|i| if i == k { Reply::Unreachable } else { found(1000 + i as i32) })
            .collect();
        let views = attach_payments(reservations.clone(), &lookups);
        assert_eq!(views.len(), 5);
        for i in 0..5u128 {
            let expected = if i == k { None } else { Some(paid(1000 + i as i32)) };
            assert_eq!(views[i as usize], view(i, expected));
        }
    }
}

#[test]
fn every_kind_of_failed_lookup_leaves_the_payment_out() {
    let reservations: Vec<ReservationServiceResponse> = (0..6).map(reservation).collect();
    let lookups = vec![
        found(10),
        Reply::Unreachable,
        answered(404, Body::Payment(paid(11))),
        answered(500, Body::Unreadable),
        answered(200, Body::Unreadable),
        answered(200, Body::Loyalty(gold())),
    ];
    let views = attach_payments(reservations, &lookups);
    assert_eq!(
        views,
        vec![
            view(0, Some(paid(10))),
            view(1, None),
            view(2, None),
            view(3, None),
            view(4, None),
            view(5, None),
        ]
    );
}

#[test]
fn views_without_lookups_have_no_payment() {
    let reservations: Vec<ReservationServiceResponse> = (0..3).map(reservation).collect();
    let views = attach_payments(reservations.clone(), &vec![found(1)]);
    assert_eq!(views, vec![view(0, Some(paid(1))), view(1, None), view(2, None)]);
    let views = attach_payments(reservations, &vec![found(1), found(2), found(3), found(4)]);
    assert_eq!(
        views,
        vec![view(0, Some(paid(1))), view(1, Some(paid(2))), view(2, Some(paid(3)))]
    );
    assert_eq!(attach_payments(vec![], &vec![found(1)]), vec![]);
}

#[test]
fn payment_lookup_is_best_effort() {
    assert_eq!(payment_found(&found(7)), Some(paid(7)));
    assert_eq!(payment_found(&answered(299, Body::Payment(paid(7)))), Some(paid(7)));
    assert_eq!(payment_found(&answered(300, Body::Payment(paid(7)))), None);
    assert_eq!(payment_found(&answered(1000, Body::Payment(paid(7)))), None);
    assert_eq!(payment_found(&Reply::Unreachable), None);
    assert_eq!(payment_found(&answered(200, Body::Unreadable)), None);
}

#[test]
fn payment_uids_come_in_the_order_of_the_list() {
    let reservations: Vec<ReservationServiceResponse> = vec![reservation(2), reservation(0), reservation(1)];
    assert_eq!(
        payment_uids(&reservations),
        vec![Uuid::from_u128(202), Uuid::from_u128(200), Uuid::from_u128(201)]
    );
    assert_eq!(payment_uids(&vec![]), Vec::<Uuid>::new());
}

#[test]
fn listing_fetches_then_looks_up_then_answers() {
    let (state, action) = Listing::begin(Some(name()));
    assert_eq!(state, Listing::AwaitingReservations);
    assert_eq!(action, ListingAction::FetchReservations { user: name() });

    let (state, action) = get_reservations(state, listed(3));
    assert_eq!(
        action,
        ListingAction::LookUpPayments {
            payment_uids: vec![Uuid::from_u128(200), Uuid::from_u128(201), Uuid::from_u128(202)]
        }
    );

    let joined = ListingEvent::Joined(vec![found(1), answered(503, Body::Unreadable), found(3)]);
    let (state, action) = get_reservations(state, joined);
    assert_eq!(state, Listing::Done);
    assert_eq!(
        action,
        ListingAction::Respond(vec![view(0, Some(paid(1))), view(1, None), view(2, Some(paid(3)))])
    );

    let (state, action) = get_reservations(state, listed(1));
    assert_eq!(state, Listing::Done);
    assert_eq!(action, ListingAction::Nothing);
}

#[test]
fn listing_of_no_reservations_is_empty() {
    let (state, _) = Listing::begin(Some(name()));
    let (state, action) = get_reservations(state, listed(0));
    assert_eq!(action, ListingAction::LookUpPayments { payment_uids: vec![] });
    let (state, action) = get_reservations(state, ListingEvent::Joined(vec![]));
    assert_eq!(state, Listing::Done);
    assert_eq!(action, ListingAction::Respond(vec![]));
}

#[test]
fn listing_without_identity_is_a_bad_request() {
    let (state, action) = Listing::begin(None);
    assert_eq!(state, Listing::Done);
    assert_eq!(action, ListingAction::Fail(StatusCode { code: 400 }));
}

#[test]
fn listing_fails_when_the_list_cannot_be_had() {
    for (event, code) in [
        (ListingEvent::Answered(Reply::Unreachable), 503u16),
        (ListingEvent::Answered(answered(500, Body::Unreadable)), 500),
        (ListingEvent::Answered(answered(404, Body::Unreadable)), 404),
        (ListingEvent::Answered(answered(200, Body::Unreadable)), 500),
        (ListingEvent::Joined(vec![found(1)]), 500),
    ] {
        let (state, action) = get_reservations(Listing::AwaitingReservations, event);
        assert_eq!(state, Listing::Done);
        assert_eq!(action, ListingAction::Fail(StatusCode { code }));
    }
}

#[test]
fn listing_with_a_single_answer_for_the_lookups_has_no_payments() {
    let state = Listing::AwaitingPayments { reservations: vec![reservation(0), reservation(1)] };
    let (state, action) = get_reservations(state, ListingEvent::Answered(found(1)));
    assert_eq!(state, Listing::Done);
    assert_eq!(action, ListingAction::Respond(vec![view(0, None), view(1, None)]));
}

#[test]
fn profile_with_loyalty_and_reservations() {
    let (state, action) = Profile::begin(Some(name()));
    assert_eq!(action, ProfileAction::FetchLoyalty { user: name() });
    let (state, action) =
        get_me(state, ListingEvent::Answered(answered(200, Body::Loyalty(gold()))));
    assert_eq!(action, ProfileAction::FetchReservations { user: name() });
    let (state, action) = get_me(state, listed(2));
    assert_eq!(
        action,
        ProfileAction::LookUpPayments {
            payment_uids: vec![Uuid::from_u128(200), Uuid::from_u128(201)]
        }
    );
    let (state, action) = get_me(state, ListingEvent::Joined(vec![Reply::Unreachable, found(9)]));
    assert_eq!(state, Profile::Done);
    assert_eq!(
        action,
        ProfileAction::Respond(UserInfoResponse {
            reservations: vec![view(0, None), view(1, Some(paid(9)))],
            loyalty: Some(gold()),
        })
    );
    let (state, action) = get_me(state, listed(2));
    assert_eq!(state, Profile::Done);
    assert_eq!(action, ProfileAction::Nothing);
}

#[test]
fn profile_without_identity_is_a_bad_request() {
    let (state, action) = Profile::begin(None);
    assert_eq!(state, Profile::Done);
    assert_eq!(action, ProfileAction::Fail(StatusCode { code: 400 }));
}

#[test]
fn profile_passes_on_a_client_error_of_the_loyalty_service() {
    for code in [400u16, 404, 403, 499] {
        let state = Profile::AwaitingLoyalty { user: name() };
        let (state, action) =
            get_me(state, ListingEvent::Answered(answered(code, Body::Loyalty(gold()))));
        assert_eq!(state, Profile::Done);
        assert_eq!(action, ProfileAction::Fail(StatusCode { code }));
    }
}

#[test]
fn profile_leaves_loyalty_out_when_the_lookup_fails_otherwise() {
    for event in [
        ListingEvent::Answered(Reply::Unreachable),
        ListingEvent::Answered(answered(500, Body::Unreadable)),
        ListingEvent::Answered(answered(503, Body::Loyalty(gold()))),
        ListingEvent::Answered(answered(200, Body::Unreadable)),
        ListingEvent::Answered(answered(302, Body::Unreadable)),
        ListingEvent::Answered(answered(1000, Body::Unreadable)),
        ListingEvent::Joined(vec![]),
    ] {
        let state = Profile::AwaitingLoyalty { user: name() };
        let (state, action) = get_me(state, event);
        assert_eq!(state, Profile::AwaitingReservations { loyalty: None });
        assert_eq!(action, ProfileAction::FetchReservations { user: name() });
        let (state, _) = get_me(state, listed(1));
        let (_, action) = get_me(state, ListingEvent::Joined(vec![found(5)]));
        assert_eq!(
            action,
            ProfileAction::Respond(UserInfoResponse {
                reservations: vec![view(0, Some(paid(5)))],
                loyalty: None,
            })
        );
    }
}

#[test]
fn profile_fails_when_the_list_cannot_be_had() {
    for (event, code) in [
        (ListingEvent::Answered(Reply::Unreachable), 503u16),
        (ListingEvent::Answered(answered(500, Body::Unreadable)), 500),
        (ListingEvent::Answered(answered(401, Body::Unreadable)), 401),
        (ListingEvent::Answered(answered(200, Body::Loyalty(gold()))), 500),
    ] {
        let state = Profile::AwaitingReservations { loyalty: Some(gold()) };
        let (state, action) = get_me(state, event);
        assert_eq!(state, Profile::Done);
        assert_eq!(action, ProfileAction::Fail(StatusCode { code }));
    }
}

#[test]
fn single_reservation_with_its_payment() {
    let (state, action) = Viewing::begin(Some(name()), Uuid::from_u128(100));
    assert_eq!(
        action,
        ViewingAction::FetchReservation { user: name(), reservation_uid: Uuid::from_u128(100) }
    );
    let (state, action) =
        get_reservation(state, answered(200, Body::Reservation(reservation(0))));
    assert_eq!(action, ViewingAction::FetchPayment { payment_uid: Uuid::from_u128(200) });
    let (state, action) = get_reservation(state, found(270));
    assert_eq!(state, Viewing::Done);
    assert_eq!(action, ViewingAction::Respond(view(0, Some(paid(270)))));
    let (state, action) = get_reservation(state, found(270));
    assert_eq!(state, Viewing::Done);
    assert_eq!(action, ViewingAction::Nothing);
}

#[test]
fn single_reservation_without_its_payment() {
    for failure in [Reply::Unreachable, answered(404, Body::Unreadable), answered(200, Body::Unreadable)] {
        let state = Viewing::AwaitingPayment { reservation: reservation(3) };
        let (state, action) = get_reservation(state, failure);
        assert_eq!(state, Viewing::Done);
        assert_eq!(action, ViewingAction::Respond(view(3, None)));
    }
}

#[test]
fn single_reservation_that_cannot_be_had() {
    let (state, action) = Viewing::begin(None, Uuid::from_u128(100));
    assert_eq!(state, Viewing::Done);
    assert_eq!(action, ViewingAction::Fail(StatusCode { code: 400 }));
    for (failure, code) in [
        (Reply::Unreachable, 503u16),
        (answered(404, Body::Unreadable), 404),
        (answered(200, Body::Unreadable), 500),
    ] {
        let (state, action) = get_reservation(Viewing::AwaitingReservation, failure);
        assert_eq!(state, Viewing::Done);
        assert_eq!(action, ViewingAction::Fail(StatusCode { code }));
    }
}
