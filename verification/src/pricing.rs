//! What a stay costs: nights times the nightly price, less the loyalty
//! discount.

use vstd::prelude::*;

verus! {

/// A hundredth of `x`, rounded toward zero.
pub open spec fn hundredth(x: int) -> int {
    if x >= 0 {
        x / 100
    } else {
        -((-x) / 100)
    }
}

/// The price of `nights` nights at `price` a night.
pub open spec fn stay_cost(nights: int, price: int) -> int {
    nights * price
}

/// `cost` less `discount` percent of it.
pub open spec fn discounted(cost: int, discount: int) -> int {
    cost - hundredth(cost * discount)
}

/// `x` as a price, where it can be written as one.
pub open spec fn as_price(x: int) -> Option<i32> {
    if i32::MIN <= x <= i32::MAX {
        Some(x as i32)
    } else {
        None
    }
}

/// The price of the stay, or `None` where it is too large to be written as a
/// price. Neither number is judged: a negative count of nights gives a
/// negative cost.
pub fn compute_cost(nights: i64, price: i32) -> (cost: Option<i32>)
    ensures
        cost == as_price(stay_cost(nights as int, price as int)),
{
    assert(-0x4000_0000_0000_0000_0000_0000 <= nights * price <= 0x4000_0000_0000_0000_0000_0000)
        by (nonlinear_arith)
        requires
            -0x8000_0000_0000_0000 <= nights <= 0x8000_0000_0000_0000,
            -0x8000_0000 <= price <= 0x8000_0000,
    ;
    let total: i128 = (nights as i128) * (price as i128);
    if -0x8000_0000 <= total && total <= 0x7fff_ffff {
        Some(total as i32)
    } else {
        None
    }
}

/// `cost` less `discount` percent of it, the percentage rounded toward zero,
/// or `None` where the result is too large to be written as a price.
pub fn apply_discount(cost: i32, discount: i32) -> (reduced: Option<i32>)
    ensures
        reduced == as_price(discounted(cost as int, discount as int)),
{
    assert(-0x4000_0000_0000_0000 <= cost * discount <= 0x4000_0000_0000_0000)
        by (nonlinear_arith)
        requires
            -0x8000_0000 <= cost <= 0x8000_0000,
            -0x8000_0000 <= discount <= 0x8000_0000,
    ;
    let product: i64 = (cost as i64) * (discount as i64);
    let cut: i64 = product / 100;
    let reduced: i64 = (cost as i64) - cut;
    if -0x8000_0000 <= reduced && reduced <= 0x7fff_ffff {
        Some(reduced as i32)
    } else {
        None
    }
}

} // verus!
