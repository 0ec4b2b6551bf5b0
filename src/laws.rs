use vstd::prelude::*;

use crate::contract::{coupon_outcome, issued, yields};
use crate::coupon::coupon_formula;
use crate::frequency::{CouponPaymentFrequency, DebentureError};
use crate::storage::{code_or_zero, int_or_zero, DataKey, Storage, Value};

verus! {

/// Whether the frequency code stored in `m` names a known frequency.
pub open spec fn frequency_known(m: Map<DataKey, Value>) -> bool {
    CouponPaymentFrequency::of_code(code_or_zero(m, DataKey::CouponPaymentFrequency)) is Ok
}

/// Once `now` is past maturity no coupon is owed: the payment is zero.
pub proof fn lemma_matured_pays_nothing(e: Storage, now: int)
    requires
        frequency_known(e@),
        now > int_or_zero(e@, DataKey::Maturity),
    ensures
        coupon_outcome(e@, now) == Ok::<int, DebentureError>(0),
{
}

/// At maturity itself the coupon is still paid, by the full formula.
pub proof fn lemma_pays_at_maturity(e: Storage, now: int)
    requires
        frequency_known(e@),
        now == int_or_zero(e@, DataKey::Maturity),
    ensures
        coupon_outcome(e@, now) == Ok::<int, DebentureError>(
            coupon_formula(
                int_or_zero(e@, DataKey::ParValue),
                int_or_zero(e@, DataKey::CouponRate),
                CouponPaymentFrequency::of_code(
                    code_or_zero(e@, DataKey::CouponPaymentFrequency),
                )->Ok_0.periods(),
            ),
        ),
{
}

/// The coupon payment depends on `now` and the store alone: two queries of
/// one store at one time give the same result.
pub proof fn lemma_coupon_is_pure(
    e: Storage,
    now: int,
    first: Result<i128, DebentureError>,
    second: Result<i128, DebentureError>,
)
    requires
        yields(first, coupon_outcome(e@, now)),
        yields(second, coupon_outcome(e@, now)),
    ensures
        first == second,
{
}

/// After an issue, the maturity and the par value read back exactly as given.
pub proof fn lemma_issue_round_trip(
    e: Storage,
    maturity: i64,
    coupon_rate: i64,
    par_value: i64,
    coupon_payment_frequency: u32,
    debenture_holder: [u8; 32],
)
    ensures
        int_or_zero(
            issued(e@, maturity, coupon_rate, par_value, coupon_payment_frequency, debenture_holder),
            DataKey::Maturity,
        ) == maturity,
        int_or_zero(
            issued(e@, maturity, coupon_rate, par_value, coupon_payment_frequency, debenture_holder),
            DataKey::ParValue,
        ) == par_value,
{
}

/// Before any issue, maturity and par value read as zero, and the coupon owed
/// at any time from zero on is zero.
pub proof fn lemma_default_state(now: int)
    requires
        now >= 0,
    ensures
        int_or_zero(Map::empty(), DataKey::Maturity) == 0,
        int_or_zero(Map::empty(), DataKey::ParValue) == 0,
        coupon_outcome(Map::empty(), now) == Ok::<int, DebentureError>(0),
{
}

/// An unknown frequency code given at issue makes every later coupon query
/// fail with `InvalidFrequencyCode`; it is never read as annual.
pub proof fn lemma_unknown_frequency_fails(
    e: Storage,
    maturity: i64,
    coupon_rate: i64,
    par_value: i64,
    coupon_payment_frequency: u32,
    debenture_holder: [u8; 32],
    now: int,
)
    requires
        CouponPaymentFrequency::of_code(coupon_payment_frequency) is Err,
    ensures
        coupon_outcome(
            issued(e@, maturity, coupon_rate, par_value, coupon_payment_frequency, debenture_holder),
            now,
        ) == Err::<int, DebentureError>(DebentureError::InvalidFrequencyCode),
{
}

} // verus!
