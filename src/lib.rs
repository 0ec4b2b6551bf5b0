//! A single debenture: an unsecured bond with a maturity, a coupon rate in
//! basis points, a par value, a payment frequency and a holder.
//!
//! The instrument's fields live in a [`Storage`] keyed by [`DataKey`]; the
//! coupon owed at a given time is derived from them with integer arithmetic
//! only.

pub mod contract;
pub mod coupon;
pub mod frequency;
pub mod laws;
pub mod storage;

pub use frequency::{CouponPaymentFrequency, DebentureError};
pub use storage::{DataKey, Storage, Value};
pub use contract::{
    get_coupon_frequency, get_coupon_payment, get_coupon_rate, get_debenture_holder, get_maturity,
    get_par_value, Debenture, DebentureContract,
};
pub use coupon::compute_coupon;
