//! What holds of every booking, whatever the services answer.

use crate::downstream::{Body, CallError, Reply};
use crate::dto::{
    CreateReservationRequest, HotelResponse, PaymentInfo, PaymentInfoServiceResponse,
    PaymentStatus, PostReservationServiceResponse,
};
use crate::failure::Failure;
use crate::pricing::{as_price, discounted, stay_cost};
use crate::saga::{booked_view, Booking, BookingAction};
use crate::status::{StatusCode, NOT_FOUND};
use vstd::prelude::*;

verus! {

/// The state that `start` has come to after the first `n` of `replies`.
pub open spec fn state_after(start: Booking, replies: Seq<Reply>, n: nat) -> Booking
    decreases n,
{
    if n == 0 {
        start
    } else {
        state_after(start, replies, (n - 1) as nat).next(replies[n - 1]).0
    }
}

/// The actions of one booking, in order: the first one, then one for each
/// reply. Action `i + 1` is what the booking does on reply `i`, and reply `i`
/// answers action `i`.
pub open spec fn booking_run(
    identity: Option<String>,
    request: CreateReservationRequest,
    replies: Seq<Reply>,
) -> Seq<BookingAction> {
    let (start, first) = Booking::spec_begin(identity, request);
    Seq::new(
        replies.len() + 1,
        |i: int|
            if i == 0 {
                first
            } else {
                state_after(start, replies, (i - 1) as nat).next(replies[i - 1]).1
            },
    )
}

/// What the payment service answered to the third request of a booking,
/// which is the only one that can ask for a payment.
pub open spec fn payment_made(replies: Seq<Reply>) -> Result<PaymentInfoServiceResponse, CallError> {
    replies[2].settled::<PaymentInfoServiceResponse>()
}

/// What a state that is reached after `n` replies knows of them.
spec fn in_step(
    state: Booking,
    request: CreateReservationRequest,
    replies: Seq<Reply>,
    n: nat,
) -> bool {
    match state {
        Booking::AwaitingHotel { request: r, .. } => n == 0 && r == request,
        Booking::AwaitingLoyalty { request: r, .. } => n == 1 && r == request,
        Booking::AwaitingPayment { request: r, .. } => n == 2 && r == request,
        Booking::AwaitingLoyaltyUpdate { request: r, payment, .. } => {
            &&& n == 3
            &&& r == request
            &&& payment_made(replies) == Ok::<_, CallError>(payment)
        },
        Booking::AwaitingReservation { payment, .. } => {
            &&& n == 4
            &&& payment_made(replies) == Ok::<_, CallError>(payment)
            &&& replies[3].succeeded()
        },
        Booking::RollingBack => {
            &&& n == 4
            &&& payment_made(replies) is Ok
            &&& !replies[3].succeeded()
        },
        Booking::Done => true,
    }
}

proof fn lemma_steps_in_order(
    identity: Option<String>,
    request: CreateReservationRequest,
    replies: Seq<Reply>,
    n: nat,
)
    requires
        n <= replies.len(),
    ensures
        in_step(
            state_after(Booking::spec_begin(identity, request).0, replies, n),
            request,
            replies,
            n,
        ),
    decreases n,
{
    if n > 0 {
        lemma_steps_in_order(identity, request, replies, (n - 1) as nat);
    }
}

proof fn lemma_every_step_in_order(
    identity: Option<String>,
    request: CreateReservationRequest,
    replies: Seq<Reply>,
)
    ensures
        forall|n: nat|
            n <= replies.len() ==> #[trigger] in_step(
                state_after(Booking::spec_begin(identity, request).0, replies, n),
                request,
                replies,
                n,
            ),
{
    assert forall|n: nat| n <= replies.len() implies #[trigger] in_step(
        state_after(Booking::spec_begin(identity, request).0, replies, n),
        request,
        replies,
        n,
    ) by {
        lemma_steps_in_order(identity, request, replies, n);
    }
}

proof fn lemma_done_stays_done(start: Booking, replies: Seq<Reply>, from: nat, to: nat)
    requires
        from <= to,
        state_after(start, replies, from) is Done,
    ensures
        state_after(start, replies, to) is Done,
    decreases to,
{
    if to > from {
        lemma_done_stays_done(start, replies, from, (to - 1) as nat);
    }
}

/// A booked stay rests on its payment: the booking succeeds on the fifth
/// reply and at no other point, the payment was asked for before the
/// reservation, each of the two was asked for once, no payment was taken
/// back, and the reservation that was written names the payment that the
/// payment service had reported.
pub proof fn law_reservation_follows_its_payment(
    identity: Option<String>,
    request: CreateReservationRequest,
    replies: Seq<Reply>,
    k: int,
)
    requires
        0 <= k <= replies.len(),
        booking_run(identity, request, replies)[k] is Succeed,
    ensures
        ({
            let run = booking_run(identity, request, replies);
            &&& k == 5
            &&& run[2] is CreatePayment
            &&& payment_made(replies) is Ok
            &&& run[4] is CreateReservation
            &&& run[4]->reservation.payment_uid == payment_made(replies)->Ok_0.payment_uid
            &&& run[4]->reservation.hotel_uid == request.hotel_uid
            &&& forall|j: int| 0 <= j <= replies.len() && #[trigger] run[j] is CreatePayment ==> j == 2
            &&& forall|j: int|
                0 <= j <= replies.len() && #[trigger] run[j] is CreateReservation ==> j == 4
            &&& forall|j: int| 0 <= j <= replies.len() ==> !(#[trigger] run[j] is DeletePayment)
        }),
{
    let start = Booking::spec_begin(identity, request).0;
    let run = booking_run(identity, request, replies);
    lemma_every_step_in_order(identity, request, replies);
    assert(in_step(state_after(start, replies, (k - 1) as nat), request, replies, (k - 1) as nat));
    assert(in_step(state_after(start, replies, 2), request, replies, 2));
    assert forall|j: int| 0 <= j <= replies.len() implies {
        &&& #[trigger] run[j] is CreatePayment ==> j == 2
        &&& run[j] is CreateReservation ==> j == 4
        &&& !(run[j] is DeletePayment)
    } by {
        if j > 0 {
            assert(in_step(
                state_after(start, replies, (j - 1) as nat),
                request,
                replies,
                (j - 1) as nat,
            ));
        }
    }
}

/// A failed loyalty update is made good: it can only be the fourth request
/// of a booking; the very next request deletes the payment that this booking
/// had made; no reservation is asked for at any point of the booking and the
/// client is never told of a booked stay; and what the client is told, once
/// the deletion is answered, is that the loyalty service is unavailable,
/// whatever became of the deletion.
pub proof fn law_failed_loyalty_update_takes_payment_back(
    identity: Option<String>,
    request: CreateReservationRequest,
    replies: Seq<Reply>,
    k: int,
)
    requires
        0 <= k < replies.len(),
        booking_run(identity, request, replies)[k] is UpdateLoyalty,
        !replies[k].succeeded(),
    ensures
        ({
            let run = booking_run(identity, request, replies);
            &&& k == 3
            &&& run[2] is CreatePayment
            &&& payment_made(replies) is Ok
            &&& run[4] == (BookingAction::DeletePayment {
                payment_uid: payment_made(replies)->Ok_0.payment_uid,
            })
            &&& replies.len() >= 5 ==> run[5] == BookingAction::Fail(Failure::loyalty_unavailable())
            &&& forall|j: int| 0 <= j <= replies.len() ==> !(#[trigger] run[j] is CreateReservation)
            &&& forall|j: int| 0 <= j <= replies.len() ==> !(#[trigger] run[j] is Succeed)
        }),
{
    let start = Booking::spec_begin(identity, request).0;
    let run = booking_run(identity, request, replies);
    lemma_every_step_in_order(identity, request, replies);
    assert(in_step(state_after(start, replies, (k - 1) as nat), request, replies, (k - 1) as nat));
    assert forall|j: int| 0 <= j <= replies.len() implies {
        &&& !(#[trigger] run[j] is CreateReservation)
        &&& !(run[j] is Succeed)
    } by {
        if j > 0 {
            assert(in_step(
                state_after(start, replies, (j - 1) as nat),
                request,
                replies,
                (j - 1) as nat,
            ));
        }
    }
}

/// A payment that was made is not left to itself. Once the payment service
/// has reported the payment, the client is not answered before the loyalty
/// update was asked for and, after it, either the reservation or the deletion
/// of that payment.
pub proof fn law_no_answer_while_payment_is_open(
    identity: Option<String>,
    request: CreateReservationRequest,
    replies: Seq<Reply>,
)
    requires
        replies.len() >= 4,
        booking_run(identity, request, replies)[2] is CreatePayment,
        payment_made(replies) is Ok,
    ensures
        ({
            let run = booking_run(identity, request, replies);
            &&& run[3] is UpdateLoyalty
            &&& replies[3].succeeded() ==> run[4] is CreateReservation
            &&& !replies[3].succeeded() ==> run[4] == (BookingAction::DeletePayment {
                payment_uid: payment_made(replies)->Ok_0.payment_uid,
            })
        }),
{
    lemma_every_step_in_order(identity, request, replies);
    let start = Booking::spec_begin(identity, request).0;
    assert(in_step(state_after(start, replies, 1), request, replies, 1));
    assert(in_step(state_after(start, replies, 3), request, replies, 3));
}

/// A booking answers its client once: after the answer, whether it tells of
/// a booked stay or of a failure, nothing more is asked, whatever replies
/// still come.
pub proof fn law_booking_answers_once(
    identity: Option<String>,
    request: CreateReservationRequest,
    replies: Seq<Reply>,
    j: int,
    m: int,
)
    requires
        0 <= j < m <= replies.len(),
        booking_run(identity, request, replies)[j] is Succeed || booking_run(
            identity,
            request,
            replies,
        )[j] is Fail,
    ensures
        booking_run(identity, request, replies)[m] is Nothing,
{
    let start = Booking::spec_begin(identity, request).0;
    lemma_done_stays_done(start, replies, j as nat, (m - 1) as nat);
}

/// A request without identity is turned away at the door: the client is told
/// `400 Bad Request` at once, and no service is ever asked.
pub proof fn law_booking_needs_identity(
    request: CreateReservationRequest,
    replies: Seq<Reply>,
    j: int,
)
    requires
        0 <= j <= replies.len(),
    ensures
        booking_run(None, request, replies)[0] == BookingAction::Fail(Failure::bad_request()),
        j > 0 ==> booking_run(None, request, replies)[j] is Nothing,
{
    if j > 0 {
        lemma_done_stays_done(Booking::Done, replies, 0, (j - 1) as nat);
    }
}

/// A user whom the loyalty service does not know is no reason to stop: the
/// booking goes on to the payment, at five percent off. The reduced cost can
/// always be written as a price.
pub proof fn law_unknown_user_pays_five_percent_less(
    user: String,
    request: CreateReservationRequest,
    cost: i32,
    body: Body,
)
    ensures
        as_price(discounted(cost as int, 5)) is Some,
        (Booking::AwaitingLoyalty { user, request, cost }).next(
            Reply::Answered { status: StatusCode { code: NOT_FOUND }, body },
        ) == (
            Booking::AwaitingPayment { user, request, discount: 5 },
            BookingAction::CreatePayment {
                payment: PaymentInfo {
                    status: PaymentStatus::Paid,
                    price: discounted(cost as int, 5) as i32,
                },
            },
        ),
{
}

/// A booking of a new member goes through: where the hotel is quoted at a
/// price that can be written, the loyalty service answers "not found" and the
/// three writes succeed, the client is told of a booked stay at five percent
/// discount, and the payment was asked for at that reduced cost.
pub proof fn law_new_member_is_booked(
    user: String,
    request: CreateReservationRequest,
    replies: Seq<Reply>,
)
    requires
        replies.len() == 5,
        request.start_date.nights_to(request.end_date) is Some,
        replies[0].settled::<HotelResponse>() is Ok,
        as_price(
            stay_cost(
                request.start_date.nights_to(request.end_date)->Some_0 as int,
                replies[0].settled::<HotelResponse>()->Ok_0.price as int,
            ),
        ) is Some,
        replies[1] is Answered,
        replies[1]->status.code == NOT_FOUND,
        replies[2].settled::<PaymentInfoServiceResponse>() is Ok,
        replies[3].succeeded(),
        replies[4].settled::<PostReservationServiceResponse>() is Ok,
    ensures
        ({
            let run = booking_run(Some(user), request, replies);
            let cost = stay_cost(
                request.start_date.nights_to(request.end_date)->Some_0 as int,
                replies[0].settled::<HotelResponse>()->Ok_0.price as int,
            );
            &&& run[2] == (BookingAction::CreatePayment {
                payment: PaymentInfo {
                    status: PaymentStatus::Paid,
                    price: discounted(cost, 5) as i32,
                },
            })
            &&& run[5] == BookingAction::Succeed(
                booked_view(
                    replies[4].settled::<PostReservationServiceResponse>()->Ok_0,
                    5,
                    replies[2].settled::<PaymentInfoServiceResponse>()->Ok_0,
                ),
            )
        }),
{
    reveal_with_fuel(state_after, 6);
}

/// Whatever a booking tells a client in failure, it tells with an HTTP
/// status.
pub proof fn law_booking_fails_with_http_status(state: Booking, reply: Reply)
    ensures
        state.next(reply).1 matches BookingAction::Fail(failure) ==> failure.status.is_valid(),
{
}

} // verus!
