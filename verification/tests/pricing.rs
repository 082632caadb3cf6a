use svc_gateway::pricing::{apply_discount, compute_cost};

#[test]
fn three_nights_at_one_hundred_less_ten_percent() {
    let cost = compute_cost(3, 100);
    assert_eq!(cost, Some(300));
    assert_eq!(apply_discount(300, 10), Some(270));
}

#[test]
fn cost_is_nights_times_price() {
    assert_eq!(compute_cost(0, 100), Some(0));
    assert_eq!(compute_cost(1, 0), Some(0));
    assert_eq!(compute_cost(7, 85), Some(595));
    assert_eq!(compute_cost(-2, 100), Some(-200));
    assert_eq!(compute_cost(2, -100), Some(-200));
}

#[test]
fn cost_beyond_a_price_is_none() {
    assert_eq!(compute_cost(1, i32::MAX), Some(i32::MAX));
    assert_eq!(compute_cost(2, i32::MAX), None);
    assert_eq!(compute_cost(i64::MAX, i32::MAX), None);
    assert_eq!(compute_cost(i64::MIN, i32::MIN), None);
    assert_eq!(compute_cost(1, i32::MIN), Some(i32::MIN));
    assert_eq!(compute_cost(-1, i32::MIN), None);
    assert_eq!(compute_cost(21_474_837, 100), None);
    assert_eq!(compute_cost(21_474_836, 100), Some(2_147_483_600));
}

#[test]
fn discount_is_a_whole_percentage_rounded_toward_zero() {
    assert_eq!(apply_discount(300, 0), Some(300));
    assert_eq!(apply_discount(300, 100), Some(0));
    assert_eq!(apply_discount(300, 5), Some(285));
    assert_eq!(apply_discount(199, 10), Some(180));
    assert_eq!(apply_discount(99, 1), Some(99));
    assert_eq!(apply_discount(-150, 1), Some(-149));
    assert_eq!(apply_discount(-199, 10), Some(-180));
    assert_eq!(apply_discount(150, -1), Some(151));
}

#[test]
fn discount_does_not_overflow_on_the_way() {
    assert_eq!(apply_discount(30_000_000, 100), Some(0));
    assert_eq!(apply_discount(i32::MAX, 100), Some(0));
    assert_eq!(apply_discount(i32::MAX, 0), Some(i32::MAX));
    assert_eq!(apply_discount(i32::MAX, -100), None);
    assert_eq!(apply_discount(i32::MIN, 199), Some(2_126_008_811));
    assert_eq!(apply_discount(i32::MIN, 200), None);
    assert_eq!(apply_discount(i32::MIN, 300), None);
}
