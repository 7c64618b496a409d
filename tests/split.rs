use cashu_client::amount::{split_amount, Amount};

#[test]
fn test_split_amount() {
    assert_eq!(split_amount(Amount::from_sat(1)), vec![Amount::from_sat(1)]);
    assert_eq!(split_amount(Amount::from_sat(2)), vec![Amount::from_sat(2)]);
    assert_eq!(
        split_amount(Amount::from_sat(3)),
        vec![Amount::from_sat(1), Amount::from_sat(2)]
    );
    let amounts: Vec<Amount> = vec![1, 2, 8].iter().map(|a| Amount::from_sat(*a)).collect();
    assert_eq!(split_amount(Amount::from_sat(11)), amounts);
    let amounts: Vec<Amount> = vec![1, 2, 4, 8, 16, 32, 64, 128]
        .iter()
        .map(|a| Amount::from_sat(*a))
        .collect();
    assert_eq!(split_amount(Amount::from_sat(255)), amounts);
}

#[test]
fn split_of_zero_is_empty() {
    assert!(split_amount(Amount::from_sat(0)).is_empty());
}

#[test]
fn split_of_largest_amount_has_every_bit() {
    let parts = split_amount(Amount::from_sat(u64::MAX));
    assert_eq!(parts.len(), 64);
    assert_eq!(parts[0].to_sat(), 1);
    assert_eq!(parts[63].to_sat(), 1u64 << 63);
}

#[test]
fn split_sums_and_ascends() {
    for v in [5u64, 1000, 123_456_789, (1u64 << 63) - 1, 1u64 << 40] {
        let parts = split_amount(Amount::from_sat(v));
        let total: u64 = parts.iter().map(|a| a.to_sat()).sum();
        assert_eq!(total, v);
        for p in &parts {
            assert!(p.to_sat().is_power_of_two());
        }
        for w in parts.windows(2) {
            assert!(w[0].to_sat() < w[1].to_sat());
        }
    }
}
