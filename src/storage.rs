use vstd::prelude::*;

verus! {

/// The identifiers under which the instrument's fields are stored.
#[derive(Clone, Copy, Debug, PartialEq, Eq, Structural)]
pub enum DataKey {
    Maturity,
    CouponRate,
    ParValue,
    DebentureHolder,
    CouponPaymentFrequency,
}

/// A stored field value.
#[derive(Clone, Copy, Debug, PartialEq, Eq)]
pub enum Value {
    /// A timestamp, a rate in basis points or an amount.
    Int(i64),
    /// A payment-frequency code.
    Code(u32),
    /// A 32-byte holder identity.
    Holder([u8; 32]),
}

impl DataKey {
    /// Whether `v` is of the kind stored under this key.
    pub open spec fn accepts(self, v: Value) -> bool {
        match self {
            DataKey::Maturity | DataKey::CouponRate | DataKey::ParValue => v is Int,
            DataKey::DebentureHolder => v is Holder,
            DataKey::CouponPaymentFrequency => v is Code,
        }
    }
}

/// The integer stored under `key` in `m`, or 0 when there is none.
pub open spec fn int_or_zero(m: Map<DataKey, Value>, key: DataKey) -> int {
    if m.contains_key(key) && m[key] is Int {
        m[key]->Int_0 as int
    } else {
        0
    }
}

/// The code stored under `key` in `m`, or 0 when there is none.
pub open spec fn code_or_zero(m: Map<DataKey, Value>, key: DataKey) -> u32 {
    if m.contains_key(key) && m[key] is Code {
        m[key]->Code_0
    } else {
        0
    }
}

/// The identity stored under `key` in `m`, or 32 zero bytes when there is none.
pub open spec fn holder_or_zero(m: Map<DataKey, Value>, key: DataKey) -> Seq<u8> {
    if m.contains_key(key) && m[key] is Holder {
        m[key]->Holder_0@
    } else {
        Seq::new(32, |i: int| 0u8)
    }
}

/// The instrument's persistent record: at most one value per key, each of
/// the kind its key accepts. A key never written reads as its zero value.
pub struct Storage {
    maturity: Option<Value>,
    coupon_rate: Option<Value>,
    par_value: Option<Value>,
    debenture_holder: Option<Value>,
    coupon_payment_frequency: Option<Value>,
}

impl Storage {
    spec fn slot(&self, key: DataKey) -> Option<Value> {
        match key {
            DataKey::Maturity => self.maturity,
            DataKey::CouponRate => self.coupon_rate,
            DataKey::ParValue => self.par_value,
            DataKey::DebentureHolder => self.debenture_holder,
            DataKey::CouponPaymentFrequency => self.coupon_payment_frequency,
        }
    }

    /// The stored values, by key.
    pub closed spec fn view(&self) -> Map<DataKey, Value> {
        Map::new(|k: DataKey| self.slot(k) is Some, |k: DataKey| self.slot(k)->Some_0)
    }

    #[verifier::type_invariant]
    spec fn kinds_match(&self) -> bool {
        &&& self.maturity matches Some(v) ==> DataKey::Maturity.accepts(v)
        &&& self.coupon_rate matches Some(v) ==> DataKey::CouponRate.accepts(v)
        &&& self.par_value matches Some(v) ==> DataKey::ParValue.accepts(v)
        &&& self.debenture_holder matches Some(v) ==> DataKey::DebentureHolder.accepts(v)
        &&& self.coupon_payment_frequency matches Some(v) ==> DataKey::CouponPaymentFrequency.accepts(v)
    }

    /// A store with nothing written.
    pub fn new() -> (r: Storage)
        ensures
            r@ == Map::<DataKey, Value>::empty(),
    {
        let r = Storage {
            maturity: None,
            coupon_rate: None,
            par_value: None,
            debenture_holder: None,
            coupon_payment_frequency: None,
        };
        assert(r@ =~= Map::<DataKey, Value>::empty());
        r
    }

    /// The value stored under `key`, if one was written.
    pub fn get(&self, key: DataKey) -> (r: Option<Value>)
        ensures
            r == (if self@.contains_key(key) {
                Some(self@[key])
            } else {
                None
            }),
    {
        match key {
            DataKey::Maturity => self.maturity,
            DataKey::CouponRate => self.coupon_rate,
            DataKey::ParValue => self.par_value,
            DataKey::DebentureHolder => self.debenture_holder,
            DataKey::CouponPaymentFrequency => self.coupon_payment_frequency,
        }
    }

    /// Stores `value` under `key`, replacing what was there.
    pub fn set(&mut self, key: DataKey, value: Value)
        requires
            key.accepts(value),
        ensures
            final(self)@ == old(self)@.insert(key, value),
    {
        proof {
            use_type_invariant(&*self);
        }
        match key {
            DataKey::Maturity => self.maturity = Some(value),
            DataKey::CouponRate => self.coupon_rate = Some(value),
            DataKey::ParValue => self.par_value = Some(value),
            DataKey::DebentureHolder => self.debenture_holder = Some(value),
            DataKey::CouponPaymentFrequency => self.coupon_payment_frequency = Some(value),
        }
        assert(self@ =~= old(self)@.insert(key, value));
    }
}

} // verus!
