use debenture::{
    compute_coupon, get_coupon_frequency, get_coupon_payment, get_coupon_rate,
    get_debenture_holder, get_maturity, get_par_value, CouponPaymentFrequency, DataKey, Debenture,
    DebentureContract, DebentureError, Storage, Value,
};
use rand::{thread_rng, RngCore};

fn generate_contract_id() -> [u8; 32] {
    let mut id: [u8; 32] = Default::default();
    thread_rng().fill_bytes(&mut id);
    id
}

fn issued(maturity: i64, coupon_rate: i64, par_value: i64, frequency: u32) -> Storage {
    let mut store = Storage::new();
    DebentureContract::issue(&mut store, maturity, coupon_rate, par_value, frequency, [7u8; 32]);
    store
}

#[test]
fn test() {
    let mut store = Storage::new();

    let maturity = (chrono::Utc::now() + chrono::Duration::days(365)).timestamp();
    let coupon_rate: i64 = 750;
    let par_value: i64 = 1e5 as i64;
    let debenture_holder = generate_contract_id();

    DebentureContract::issue(
        &mut store,
        maturity,
        coupon_rate,
        par_value,
        CouponPaymentFrequency::Annually as u32,
        debenture_holder,
    );

    // return the maturity of the debenture
    let retrieved_maturity = DebentureContract::maturity(&store);

    // assert the maturity is correct
    assert_eq!(maturity, retrieved_maturity, "maturity is incorrect");
}

#[test]
fn matured_instrument_pays_nothing() {
    let store = issued(1_000, 750, 100_000, CouponPaymentFrequency::Quarterly as u32);
    assert_eq!(DebentureContract::coupon_payment(&store, 1_001), Ok(0));
    assert_eq!(DebentureContract::coupon_payment(&store, i64::MAX), Ok(0));
}

#[test]
fn maturity_itself_still_pays() {
    let store = issued(1_000, 750, 100_000, CouponPaymentFrequency::Quarterly as u32);
    assert_eq!(DebentureContract::coupon_payment(&store, 1_000), Ok(187_000));
    assert_eq!(DebentureContract::coupon_payment(&store, 999), Ok(187_000));
}

#[test]
fn repeated_query_gives_same_result() {
    let store = issued(5_000, 1_200, 250_000, CouponPaymentFrequency::Monthly as u32);
    let first = DebentureContract::coupon_payment(&store, 4_000);
    let second = DebentureContract::coupon_payment(&store, 4_000);
    assert_eq!(first, second);
    assert_eq!(first, Ok(250_000));
}

#[test]
fn issue_round_trip() {
    let store = issued(-42, 300, 987_654_321, CouponPaymentFrequency::Daily as u32);
    assert_eq!(DebentureContract::maturity(&store), -42);
    assert_eq!(DebentureContract::par_value(&store), 987_654_321);
    assert_eq!(get_coupon_rate(&store), 300);
    assert_eq!(get_coupon_frequency(&store), 5);
    assert_eq!(get_debenture_holder(&store), [7u8; 32]);
}

#[test]
fn default_state_reads_zero() {
    let store = Storage::new();
    assert_eq!(DebentureContract::maturity(&store), 0);
    assert_eq!(DebentureContract::par_value(&store), 0);
    assert_eq!(get_coupon_rate(&store), 0);
    assert_eq!(get_coupon_frequency(&store), 0);
    assert_eq!(get_debenture_holder(&store), [0u8; 32]);
    assert_eq!(DebentureContract::coupon_payment(&store, 0), Ok(0));
    assert_eq!(DebentureContract::coupon_payment(&store, 1), Ok(0));
    assert_eq!(DebentureContract::coupon_payment(&store, 1_700_000_000), Ok(0));
}

#[test]
fn annual_coupon_multiplies_whole_rate() {
    let now = chrono::Utc::now().timestamp();
    let maturity = (chrono::Utc::now() + chrono::Duration::days(3650)).timestamp();
    let store = issued(maturity, 750, 100_000, CouponPaymentFrequency::Annually as u32);
    // (100000 * (750 / 1)) / 100
    assert_eq!(DebentureContract::coupon_payment(&store, now), Ok(750_000));
}

#[test]
fn quarterly_rate_is_truncated_before_multiplying() {
    let store = issued(10, 750, 100_000, CouponPaymentFrequency::Quarterly as u32);
    // 750 / 4 = 187, then (100000 * 187) / 100; multiplying first would give 187500
    assert_eq!(DebentureContract::coupon_payment(&store, 0), Ok(187_000));
}

#[test]
fn unknown_frequency_code_fails() {
    let store = issued(10, 750, 100_000, 99);
    assert_eq!(
        DebentureContract::coupon_payment(&store, 0),
        Err(DebentureError::InvalidFrequencyCode)
    );
    // the code is decoded before maturity is looked at
    assert_eq!(
        DebentureContract::coupon_payment(&store, 11),
        Err(DebentureError::InvalidFrequencyCode)
    );
    let store = issued(10, 750, 100_000, 6);
    assert_eq!(
        get_coupon_payment(&store, 0),
        Err(DebentureError::InvalidFrequencyCode)
    );
}

#[test]
fn frequency_codes_decode_in_order() {
    let all = [
        CouponPaymentFrequency::Annually,
        CouponPaymentFrequency::Biannually,
        CouponPaymentFrequency::Quarterly,
        CouponPaymentFrequency::Monthly,
        CouponPaymentFrequency::Weekly,
        CouponPaymentFrequency::Daily,
    ];
    for (code, f) in all.iter().enumerate() {
        assert_eq!(CouponPaymentFrequency::from_code(code as u32), Ok(*f));
        assert_eq!(*f as u32, code as u32);
    }
    assert_eq!(
        CouponPaymentFrequency::from_code(6),
        Err(DebentureError::InvalidFrequencyCode)
    );
    assert_eq!(
        CouponPaymentFrequency::from_code(u32::MAX),
        Err(DebentureError::InvalidFrequencyCode)
    );
}

#[test]
fn periods_per_year() {
    assert_eq!(CouponPaymentFrequency::Annually.into_big_int(), 1);
    assert_eq!(CouponPaymentFrequency::Biannually.into_big_int(), 2);
    assert_eq!(CouponPaymentFrequency::Quarterly.into_big_int(), 4);
    assert_eq!(CouponPaymentFrequency::Monthly.into_big_int(), 12);
    assert_eq!(CouponPaymentFrequency::Weekly.into_big_int(), 52);
    assert_eq!(CouponPaymentFrequency::Daily.into_big_int(), 365);
}

#[test]
fn coupon_for_each_frequency() {
    let f = |freq| compute_coupon(0, 1, 1_000_000, 1_000, freq);
    assert_eq!(f(CouponPaymentFrequency::Annually), 10_000_000);
    assert_eq!(f(CouponPaymentFrequency::Biannually), 5_000_000);
    assert_eq!(f(CouponPaymentFrequency::Quarterly), 2_500_000);
    // 1000 / 12 = 83
    assert_eq!(f(CouponPaymentFrequency::Monthly), 830_000);
    // 1000 / 52 = 19
    assert_eq!(f(CouponPaymentFrequency::Weekly), 190_000);
    // 1000 / 365 = 2
    assert_eq!(f(CouponPaymentFrequency::Daily), 20_000);
}

#[test]
fn small_rate_at_high_frequency_truncates_to_zero() {
    // 300 / 365 = 0, so no coupon at all, though 1000000 * 300 / 365 / 100 is 8219
    assert_eq!(
        compute_coupon(0, 1, 1_000_000, 300, CouponPaymentFrequency::Daily),
        0
    );
}

#[test]
fn final_division_truncates_toward_zero() {
    // (150 * 1) / 100 = 1
    assert_eq!(compute_coupon(0, 0, 150, 1, CouponPaymentFrequency::Annually), 1);
    // (-150 * 1) / 100 = -1, not -2
    assert_eq!(compute_coupon(0, 0, -150, 1, CouponPaymentFrequency::Annually), -1);
    // -750 / 4 = -187
    assert_eq!(
        compute_coupon(0, 0, 100_000, -750, CouponPaymentFrequency::Quarterly),
        -187_000
    );
}

#[test]
fn largest_inputs_do_not_overflow() {
    let expected = (i64::MAX as i128) * (i64::MAX as i128) / 100;
    assert_eq!(
        compute_coupon(i64::MIN, i64::MAX, i64::MAX, i64::MAX, CouponPaymentFrequency::Annually),
        expected
    );
    let expected = (i64::MIN as i128) * (i64::MIN as i128) / 100;
    assert_eq!(
        compute_coupon(0, 0, i64::MIN, i64::MIN, CouponPaymentFrequency::Annually),
        expected
    );
}

#[test]
fn store_get_and_set_by_key() {
    let mut store = Storage::new();
    assert_eq!(store.get(DataKey::Maturity), None);
    store.set(DataKey::Maturity, Value::Int(12));
    store.set(DataKey::CouponPaymentFrequency, Value::Code(3));
    assert_eq!(store.get(DataKey::Maturity), Some(Value::Int(12)));
    assert_eq!(store.get(DataKey::CouponPaymentFrequency), Some(Value::Code(3)));
    assert_eq!(store.get(DataKey::ParValue), None);
    store.set(DataKey::Maturity, Value::Int(13));
    assert_eq!(get_maturity(&store), 13);
    assert_eq!(get_par_value(&store), 0);
}

#[test]
fn reissue_replaces_every_field() {
    let mut store = issued(10, 750, 100_000, 99);
    DebentureContract::issue(&mut store, 20, 400, 50_000, 1, [9u8; 32]);
    assert_eq!(DebentureContract::maturity(&store), 20);
    assert_eq!(DebentureContract::par_value(&store), 50_000);
    assert_eq!(get_debenture_holder(&store), [9u8; 32]);
    // 400 / 2 = 200; 50000 * 200 / 100
    assert_eq!(DebentureContract::coupon_payment(&store, 20), Ok(100_000));
}
