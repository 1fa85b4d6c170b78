use datachain_ai::errors::DataChainError;
use datachain_ai::identity::Identity;
use datachain_ai::settlement::{checked_sum, exceeds, split_payment, text_len};

#[test]
fn fee_split_of_two_percent() {
    let s = split_payment(1000, 2).unwrap();
    assert_eq!(s.platform_fee, 20);
    assert_eq!(s.seller_amount, 980);
}

#[test]
fn fee_split_rounds_down() {
    let s = split_payment(999, 2).unwrap();
    assert_eq!(s.platform_fee, 19);
    assert_eq!(s.seller_amount, 980);
    let s = split_payment(1, 15).unwrap();
    assert_eq!(s.platform_fee, 0);
    assert_eq!(s.seller_amount, 1);
}

#[test]
fn fee_split_edges() {
    let s = split_payment(1000, 0).unwrap();
    assert_eq!((s.platform_fee, s.seller_amount), (0, 1000));
    let s = split_payment(1000, 100).unwrap();
    assert_eq!((s.platform_fee, s.seller_amount), (1000, 0));
    let s = split_payment(u64::MAX, 100).unwrap();
    assert_eq!((s.platform_fee, s.seller_amount), (u64::MAX, 0));
    let s = split_payment(u64::MAX, 15).unwrap();
    assert_eq!(s.platform_fee as u128, (u64::MAX as u128) * 15 / 100);
    assert_eq!(s.platform_fee + s.seller_amount, u64::MAX);
}

#[test]
fn fee_split_conserves_price() {
    for price in [1u64, 7, 99, 100, 101, 12345, 1_000_000_007] {
        for pct in 0u8..=100 {
            let s = split_payment(price, pct).unwrap();
            assert_eq!(s.platform_fee + s.seller_amount, price);
            assert_eq!(s.platform_fee as u128, (price as u128) * (pct as u128) / 100);
        }
    }
}

#[test]
fn fee_above_price_is_refused() {
    assert_eq!(split_payment(100, 255).unwrap_err(), DataChainError::InvalidParameters);
    let s = split_payment(1, 101).unwrap();
    assert_eq!((s.platform_fee, s.seller_amount), (1, 0));
}

#[test]
fn checked_sum_overflow() {
    assert_eq!(checked_sum(2, 3), Ok(5));
    assert_eq!(checked_sum(u64::MAX - 1, 1), Ok(u64::MAX));
    assert_eq!(checked_sum(u64::MAX, 1), Err(DataChainError::InvalidParameters));
}

#[test]
fn text_lengths_count_bytes() {
    assert_eq!(text_len(&String::from("abc")), 3);
    assert_eq!(text_len(&String::from("é")), 2);
    assert!(!exceeds(&None, 0));
    assert!(exceeds(&Some("ééé".to_string()), 5));
    assert!(!exceeds(&Some("ééé".to_string()), 6));
}

#[test]
fn identities_compare_bytewise() {
    let a = Identity::new([1; 32]);
    let mut bytes = [1u8; 32];
    bytes[31] = 2;
    let b = Identity::new(bytes);
    assert!(a.same(&a));
    assert!(!a.same(&b));
    assert!(a == Identity::new([1; 32]));
    assert!(a != b);
}
