use vstd::prelude::*;

verus! {

/// Why an operation on the debenture failed.
#[derive(Clone, Copy, Debug, PartialEq, Eq, Structural)]
pub enum DebentureError {
    /// The stored payment-frequency code names no known frequency.
    InvalidFrequencyCode,
}

/// How often the coupon payment is paid.
///
/// Each variant is stored under its code, the position in this list
/// (`Annually` is 0, `Daily` is 5).
#[derive(Clone, Copy, Debug, PartialEq, Eq, Structural)]
pub enum CouponPaymentFrequency {
    Annually,
    Biannually,
    Quarterly,
    Monthly,
    Weekly,
    Daily,
}

impl CouponPaymentFrequency {
    /// Number of coupon periods in one year.
    pub open spec fn periods(self) -> int {
        match self {
            CouponPaymentFrequency::Annually => 1,
            CouponPaymentFrequency::Biannually => 2,
            CouponPaymentFrequency::Quarterly => 4,
            CouponPaymentFrequency::Monthly => 12,
            CouponPaymentFrequency::Weekly => 52,
            CouponPaymentFrequency::Daily => 365,
        }
    }

    /// The code under which this frequency is stored.
    pub open spec fn code(self) -> u32 {
        match self {
            CouponPaymentFrequency::Annually => 0,
            CouponPaymentFrequency::Biannually => 1,
            CouponPaymentFrequency::Quarterly => 2,
            CouponPaymentFrequency::Monthly => 3,
            CouponPaymentFrequency::Weekly => 4,
            CouponPaymentFrequency::Daily => 5,
        }
    }

    /// The frequency stored under `code`, if any.
    pub open spec fn of_code(code: u32) -> Result<CouponPaymentFrequency, DebentureError> {
        if code == 0 {
            Ok(CouponPaymentFrequency::Annually)
        } else if code == 1 {
            Ok(CouponPaymentFrequency::Biannually)
        } else if code == 2 {
            Ok(CouponPaymentFrequency::Quarterly)
        } else if code == 3 {
            Ok(CouponPaymentFrequency::Monthly)
        } else if code == 4 {
            Ok(CouponPaymentFrequency::Weekly)
        } else if code == 5 {
            Ok(CouponPaymentFrequency::Daily)
        } else {
            Err(DebentureError::InvalidFrequencyCode)
        }
    }

    /// Number of coupon periods per year, as the integer the coupon is
    /// computed with.
    pub fn into_big_int(self) -> (r: i128)
        ensures
            r == self.periods(),
    {
        match self {
            CouponPaymentFrequency::Annually => 1,
            CouponPaymentFrequency::Biannually => 2,
            CouponPaymentFrequency::Quarterly => 4,
            CouponPaymentFrequency::Monthly => 12,
            CouponPaymentFrequency::Weekly => 52,
            CouponPaymentFrequency::Daily => 365,
        }
    }

    /// Decodes a stored frequency code; an unknown code is an error, never a
    /// default.
    pub fn from_code(code: u32) -> (r: Result<CouponPaymentFrequency, DebentureError>)
        ensures
            r == Self::of_code(code),
            r matches Ok(f) ==> f.code() == code,
    {
        match code {
            0 => Ok(CouponPaymentFrequency::Annually),
            1 => Ok(CouponPaymentFrequency::Biannually),
            2 => Ok(CouponPaymentFrequency::Quarterly),
            3 => Ok(CouponPaymentFrequency::Monthly),
            4 => Ok(CouponPaymentFrequency::Weekly),
            5 => Ok(CouponPaymentFrequency::Daily),
            _ => Err(DebentureError::InvalidFrequencyCode),
        }
    }
}

} // verus!
