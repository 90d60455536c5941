use solanagigs::fees::{compute_fee, compute_refund_split, FEE_RATE_DENOMINATOR, MAX_FEE_RATE};

#[test]
fn fee_basic_scenario() {
    // gross 1,000,000 at 250 basis points (2.5%)
    let (fee, net) = compute_fee(1_000_000, 250);
    assert_eq!(fee, 25_000);
    assert_eq!(net, 975_000);
    assert_eq!(fee + net, 1_000_000);
}

#[test]
fn fee_zero_amount() {
    let (fee, net) = compute_fee(0, 250);
    assert_eq!(fee, 0);
    assert_eq!(net, 0);
}

#[test]
fn fee_zero_rate() {
    let (fee, net) = compute_fee(123_456_789, 0);
    assert_eq!(fee, 0);
    assert_eq!(net, 123_456_789);
}

#[test]
fn fee_full_rate() {
    let (fee, net) = compute_fee(987_654, MAX_FEE_RATE);
    assert_eq!(fee, 987_654);
    assert_eq!(net, 0);
}

#[test]
fn fee_max_amount_no_overflow() {
    // the largest representable amount still splits exactly
    let (fee, net) = compute_fee(u64::MAX, 250);
    assert_eq!(fee, u64::MAX / (FEE_RATE_DENOMINATOR / 250));
    assert_eq!(fee as u128 + net as u128, u64::MAX as u128);
}

#[test]
fn fee_rounds_down() {
    // 99 * 250 / 10000 = 2.475 -> 2
    let (fee, net) = compute_fee(99, 250);
    assert_eq!(fee, 2);
    assert_eq!(net, 97);
}

#[test]
fn fee_partition_exhaustive_small() {
    for amount in 0u64..=1000 {
        for rate in [0u16, 1, 250, 999, 10_000] {
            let (fee, net) = compute_fee(amount, rate);
            assert_eq!(fee + net, amount);
            assert!(fee <= amount);
        }
    }
}

#[test]
fn refund_split_scenario() {
    // 40% of 500,000
    let (refund, payout) = compute_refund_split(500_000, 40);
    assert_eq!(refund, 200_000);
    assert_eq!(payout, 300_000);
}

#[test]
fn refund_split_bounds() {
    let (refund, payout) = compute_refund_split(999_999, 0);
    assert_eq!(refund, 0);
    assert_eq!(payout, 999_999);
    let (refund, payout) = compute_refund_split(999_999, 100);
    assert_eq!(refund, 999_999);
    assert_eq!(payout, 0);
}

#[test]
fn refund_split_partitions() {
    for amount in [0u64, 1, 7, 1000, u64::MAX] {
        for pct in 0u8..=100 {
            let (refund, payout) = compute_refund_split(amount, pct);
            assert_eq!(refund as u128 + payout as u128, amount as u128);
            assert!(refund <= amount);
        }
    }
}
