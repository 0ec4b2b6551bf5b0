use vstd::prelude::*;

use crate::coupon::{compute_coupon, coupon_due};
use crate::frequency::{CouponPaymentFrequency, DebentureError};
use crate::storage::{code_or_zero, holder_or_zero, int_or_zero, DataKey, Storage, Value};

verus! {

/// The record after an issue with the given terms over the record `m`.
pub open spec fn issued(
    m: Map<DataKey, Value>,
    maturity: i64,
    coupon_rate: i64,
    par_value: i64,
    coupon_payment_frequency: u32,
    debenture_holder: [u8; 32],
) -> Map<DataKey, Value> {
    m.insert(DataKey::Maturity, Value::Int(maturity)).insert(
        DataKey::CouponRate,
        Value::Int(coupon_rate),
    ).insert(DataKey::ParValue, Value::Int(par_value)).insert(
        DataKey::DebentureHolder,
        Value::Holder(debenture_holder),
    ).insert(DataKey::CouponPaymentFrequency, Value::Code(coupon_payment_frequency))
}

/// The coupon owed at `now` on the record `m`: an error when the stored
/// frequency code is unknown, else the coupon computed from the stored terms.
pub open spec fn coupon_outcome(m: Map<DataKey, Value>, now: int) -> Result<int, DebentureError> {
    match CouponPaymentFrequency::of_code(code_or_zero(m, DataKey::CouponPaymentFrequency)) {
        Ok(f) => Ok(
            coupon_due(
                now,
                int_or_zero(m, DataKey::Maturity),
                int_or_zero(m, DataKey::ParValue),
                int_or_zero(m, DataKey::CouponRate),
                f.periods(),
            ),
        ),
        Err(e) => Err(e),
    }
}

/// Whether `r` is the value of `outcome`, as a 128-bit result.
pub open spec fn yields(r: Result<i128, DebentureError>, outcome: Result<int, DebentureError>) -> bool {
    match r {
        Ok(v) => outcome == Ok::<int, DebentureError>(v as int),
        Err(e) => outcome == Err::<int, DebentureError>(e),
    }
}

fn read_int(e: &Storage, key: DataKey) -> (r: i64)
    ensures
        r == int_or_zero(e@, key),
{
    match e.get(key) {
        Some(Value::Int(v)) => v,
        _ => 0,
    }
}

/// The stored maturity timestamp, or 0 before any issue.
pub fn get_maturity(e: &Storage) -> (r: i64)
    ensures
        r == int_or_zero(e@, DataKey::Maturity),
{
    read_int(e, DataKey::Maturity)
}

/// The stored par value, or 0 before any issue.
pub fn get_par_value(e: &Storage) -> (r: i64)
    ensures
        r == int_or_zero(e@, DataKey::ParValue),
{
    read_int(e, DataKey::ParValue)
}

/// The stored coupon rate in basis points, or 0 before any issue.
pub fn get_coupon_rate(e: &Storage) -> (r: i64)
    ensures
        r == int_or_zero(e@, DataKey::CouponRate),
{
    read_int(e, DataKey::CouponRate)
}

/// The stored payment-frequency code, or 0 (annual) before any issue.
pub fn get_coupon_frequency(e: &Storage) -> (r: u32)
    ensures
        r == code_or_zero(e@, DataKey::CouponPaymentFrequency),
{
    match e.get(DataKey::CouponPaymentFrequency) {
        Some(Value::Code(c)) => c,
        _ => 0,
    }
}

/// The stored holder identity, or 32 zero bytes before any issue.
pub fn get_debenture_holder(e: &Storage) -> (r: [u8; 32])
    ensures
        r@ == holder_or_zero(e@, DataKey::DebentureHolder),
{
    match e.get(DataKey::DebentureHolder) {
        Some(Value::Holder(h)) => h,
        _ => {
            let z = [0u8; 32];
            assert(z@ =~= Seq::new(32, |i: int| 0u8));
            z
        },
    }
}

/// The coupon owed at `timestamp` on the stored instrument.
///
/// The frequency code is decoded first, so an unknown code fails even past
/// maturity.
pub fn get_coupon_payment(e: &Storage, timestamp: i64) -> (r: Result<i128, DebentureError>)
    ensures
        yields(r, coupon_outcome(e@, timestamp as int)),
{
    let maturity = get_maturity(e);
    let par_value = get_par_value(e);
    let coupon_rate = get_coupon_rate(e);
    let frequency = CouponPaymentFrequency::from_code(get_coupon_frequency(e))?;
    Ok(compute_coupon(timestamp, maturity, par_value, coupon_rate, frequency))
}

/// A debenture: an unsecured bond paying a fixed coupon until maturity.
///
/// Every operation works on the instrument's record in the given store.
pub trait Debenture {
    /// Issues the debenture, writing all five fields. The coupon rate is in
    /// basis points per annum; the frequency is stored as given and decoded
    /// when a coupon is asked for.
    fn issue(
        e: &mut Storage,
        maturity: i64,
        coupon_rate: i64,
        par_value: i64,
        coupon_payment_frequency: u32,
        debenture_holder: [u8; 32],
    )
        ensures
            final(e)@ == issued(
                old(e)@,
                maturity,
                coupon_rate,
                par_value,
                coupon_payment_frequency,
                debenture_holder,
            ),
    ;

    /// The maturity timestamp.
    fn maturity(e: &Storage) -> (r: i64)
        ensures
            r == int_or_zero(e@, DataKey::Maturity),
    ;

    /// The par value.
    fn par_value(e: &Storage) -> (r: i64)
        ensures
            r == int_or_zero(e@, DataKey::ParValue),
    ;

    /// The coupon payment owed at `timestamp`.
    fn coupon_payment(e: &Storage, timestamp: i64) -> (r: Result<i128, DebentureError>)
        ensures
            yields(r, coupon_outcome(e@, timestamp as int)),
    ;
}

/// The debenture whose record is the store handed to each operation.
pub struct DebentureContract;

impl Debenture for DebentureContract {
    fn issue(
        e: &mut Storage,
        maturity: i64,
        coupon_rate: i64,
        par_value: i64,
        coupon_payment_frequency: u32,
        debenture_holder: [u8; 32],
    ) {
        e.set(DataKey::Maturity, Value::Int(maturity));
        e.set(DataKey::CouponRate, Value::Int(coupon_rate));
        e.set(DataKey::ParValue, Value::Int(par_value));
        e.set(DataKey::DebentureHolder, Value::Holder(debenture_holder));
        e.set(DataKey::CouponPaymentFrequency, Value::Code(coupon_payment_frequency));
    }

    fn maturity(e: &Storage) -> (r: i64) {
        get_maturity(e)
    }

    fn par_value(e: &Storage) -> (r: i64) {
        get_par_value(e)
    }

    fn coupon_payment(e: &Storage, timestamp: i64) -> (r: Result<i128, DebentureError>) {
        get_coupon_payment(e, timestamp)
    }
}

} // verus!
