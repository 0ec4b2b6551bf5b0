use vstd::prelude::*;

use crate::frequency::CouponPaymentFrequency;

verus! {

/// Integer division rounded toward zero, for a positive divisor.
pub open spec fn div_toward_zero(x: int, d: int) -> int
    recommends
        d > 0,
{
    if x >= 0 {
        x / d
    } else {
        -((-x) / d)
    }
}

/// The coupon for one period: the rate per period is truncated before it is
/// multiplied by the par value, and the product, in basis points, is then
/// truncated to whole units.
pub open spec fn coupon_formula(par_value: int, coupon_rate: int, periods: int) -> int {
    div_toward_zero(par_value * div_toward_zero(coupon_rate, periods), 100)
}

/// The coupon owed at `now`: nothing once `now` is past `maturity`, else the
/// coupon for one period. `now == maturity` still pays.
pub open spec fn coupon_due(
    now: int,
    maturity: int,
    par_value: int,
    coupon_rate: int,
    periods: int,
) -> int {
    if now > maturity {
        0
    } else {
        coupon_formula(par_value, coupon_rate, periods)
    }
}

/// Divides rounding toward zero, as `/` on Rust's signed integers does.
fn quotient(x: i128, d: i128) -> (q: i128)
    requires
        d > 0,
    ensures
        q == div_toward_zero(x as int, d as int),
{
    x / d
}

/// The coupon owed at `now` on an instrument with the given terms.
///
/// Each operand fits in 64 bits, so the product of par value and per-period
/// rate always fits the 128-bit result.
pub fn compute_coupon(
    now: i64,
    maturity: i64,
    par_value: i64,
    coupon_rate: i64,
    frequency: CouponPaymentFrequency,
) -> (r: i128)
    ensures
        r == coupon_due(
            now as int,
            maturity as int,
            par_value as int,
            coupon_rate as int,
            frequency.periods(),
        ),
{
    if now > maturity {
        return 0;
    }
    let periods: i128 = frequency.into_big_int();
    let per_period: i128 = quotient(coupon_rate as i128, periods);
    let par: i128 = par_value as i128;
    proof {
        lemma_product_fits(par as int, coupon_rate as int, per_period as int, periods as int);
    }
    let product: i128 = par * per_period;
    quotient(product, 100)
}

proof fn lemma_product_fits(par: int, rate: int, per_period: int, periods: int)
    requires
        i64::MIN <= par <= i64::MAX,
        i64::MIN <= rate <= i64::MAX,
        periods > 0,
        per_period == div_toward_zero(rate, periods),
    ensures
        i128::MIN <= par * per_period <= i128::MAX,
{
    assert(-0x8000_0000_0000_0000 <= per_period <= 0x8000_0000_0000_0000) by (nonlinear_arith)
        requires
            i64::MIN <= rate <= i64::MAX,
            periods > 0,
            per_period == div_toward_zero(rate, periods),
    ;
    assert(-0x4000_0000_0000_0000_0000_0000_0000_0000 <= par * per_period
        <= 0x4000_0000_0000_0000_0000_0000_0000_0000) by (nonlinear_arith)
        requires
            -0x8000_0000_0000_0000 <= par <= 0x8000_0000_0000_0000,
            -0x8000_0000_0000_0000 <= per_period <= 0x8000_0000_0000_0000,
    ;
}

} // verus!
