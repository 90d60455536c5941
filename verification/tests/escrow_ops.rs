use solanagigs::errors::SolanaGigsError;
use solanagigs::escrow::Escrow;

fn funded_escrow(amount: u64, fee_rate: u16) -> Escrow {
    let mut e = Escrow::new(7, 100, 200, 50);
    e.fund(amount, fee_rate, 1_000_000, true).unwrap();
    e
}

#[test]
fn fund_rejects_zero_amount() {
    let mut e = Escrow::new(7, 100, 200, 50);
    assert_eq!(e.fund(0, 250, 1_000_000, true), Err(SolanaGigsError::InvalidTokenAmount));
    assert!(!e.funded);
}

#[test]
fn fund_rejects_bad_fee_rate() {
    let mut e = Escrow::new(7, 100, 200, 50);
    assert_eq!(e.fund(1000, 10_001, 1_000_000, true), Err(SolanaGigsError::InvalidPlatformFee));
}

#[test]
fn fund_rejects_top_up() {
    let mut e = funded_escrow(1000, 250);
    assert_eq!(e.fund(1000, 250, 1_000_000, true), Err(SolanaGigsError::InvalidEscrowState));
    assert_eq!(e.amount, 1000);
}

#[test]
fn release_pays_net_and_fee() {
    let mut e = funded_escrow(1_000_000, 250);
    let (net, fee) = e.release(2_000_000).unwrap();
    assert_eq!(net, 975_000);
    assert_eq!(fee, 25_000);
    assert_eq!(e.amount, 0);
    assert_eq!(e.released_at, Some(2_000_000));
    assert!(e.refunded_at.is_none());
    assert_eq!(e.seller_net, 975_000);
    assert_eq!(e.platform_fee, 25_000);
}

#[test]
fn release_succeeds_at_most_once() {
    let mut e = funded_escrow(1_000_000, 250);
    e.release(2_000_000).unwrap();
    let before = e.amount;
    assert_eq!(e.release(3_000_000), Err(SolanaGigsError::EscrowAlreadyReleased));
    assert_eq!(e.amount, before);
    assert_eq!(e.released_at, Some(2_000_000));
}

#[test]
fn refund_succeeds_at_most_once() {
    let mut e = funded_escrow(40_000, 250);
    assert_eq!(e.refund(99).unwrap(), 40_000);
    assert_eq!(e.amount, 0);
    assert_eq!(e.refund(100), Err(SolanaGigsError::EscrowAlreadyReleased));
}

#[test]
fn no_refund_after_release() {
    let mut e = funded_escrow(40_000, 250);
    e.release(99).unwrap();
    assert_eq!(e.refund(100), Err(SolanaGigsError::EscrowAlreadyReleased));
    assert!(e.refunded_at.is_none());
}

#[test]
fn no_release_after_refund() {
    let mut e = funded_escrow(40_000, 250);
    e.refund(99).unwrap();
    assert_eq!(e.release(100), Err(SolanaGigsError::EscrowAlreadyReleased));
    assert!(e.released_at.is_none());
}

#[test]
fn split_release_succeeds_at_most_once() {
    let mut e = funded_escrow(500_000, 250);
    e.split_release(200_000, 300_000, 77).unwrap();
    assert_eq!(e.amount, 0);
    assert_eq!(e.released_at, Some(77));
    assert_eq!(
        e.split_release(1, 1, 78),
        Err(SolanaGigsError::EscrowAlreadyReleased)
    );
    assert_eq!(e.release(79), Err(SolanaGigsError::EscrowAlreadyReleased));
    assert_eq!(e.refund(80), Err(SolanaGigsError::EscrowAlreadyReleased));
}

#[test]
fn split_release_forfeits_remainder_to_platform() {
    let mut e = funded_escrow(500_000, 250);
    e.split_release(100_000, 300_000, 77).unwrap();
    assert_eq!(e.platform_fee, 100_000);
    assert_eq!(e.seller_net, 300_000);
}

#[test]
fn split_release_rejects_overdraw() {
    let mut e = funded_escrow(500_000, 250);
    assert_eq!(
        e.split_release(400_000, 200_000, 77),
        Err(SolanaGigsError::InsufficientFunds)
    );
    assert_eq!(e.amount, 500_000);
    // a sum that overflows u64 is an overdraw too
    assert_eq!(
        e.split_release(u64::MAX, u64::MAX, 77),
        Err(SolanaGigsError::InsufficientFunds)
    );
    assert_eq!(e.amount, 500_000);
}

#[test]
fn locked_escrow_blocks_release_and_refund() {
    let mut e = funded_escrow(500_000, 250);
    e.lock();
    assert_eq!(e.release(1), Err(SolanaGigsError::InvalidEscrowState));
    assert_eq!(e.refund(2), Err(SolanaGigsError::InvalidEscrowState));
    // the dispute path still may split
    e.split_release(250_000, 250_000, 3).unwrap();
    assert_eq!(e.amount, 0);
}

#[test]
fn unfunded_escrow_cannot_disburse() {
    let mut e = Escrow::new(7, 100, 200, 50);
    assert_eq!(e.release(1), Err(SolanaGigsError::InvalidEscrowState));
    assert_eq!(e.refund(1), Err(SolanaGigsError::InvalidEscrowState));
    assert_eq!(e.split_release(0, 0, 1), Err(SolanaGigsError::InvalidEscrowState));
}

#[test]
fn partial_release_keeps_running_total() {
    let mut e = funded_escrow(1_000_000, 250);
    let (net, fee) = e.partial_release(400_000).unwrap();
    assert_eq!(net, 390_000);
    assert_eq!(fee, 10_000);
    assert_eq!(e.amount, 600_000);
    assert_eq!(e.milestones_released, 400_000);
    let (net2, fee2) = e.partial_release(600_000).unwrap();
    assert_eq!(net2 + fee2, 600_000);
    assert_eq!(e.amount, 0);
    assert_eq!(e.milestones_released, 1_000_000);
    assert_eq!(e.milestones_released, e.gross);
    // nothing left to pay out
    assert_eq!(e.partial_release(1), Err(SolanaGigsError::InsufficientFunds));
}

#[test]
fn can_auto_release_gates() {
    let mut e = funded_escrow(1_000, 250);
    assert!(!e.can_auto_release(1_000_000)); // not yet past the deadline
    assert!(e.can_auto_release(1_000_001));
    e.lock();
    assert!(!e.can_auto_release(1_000_001));
    e.unlock();
    e.release(1_000_002).unwrap();
    assert!(!e.can_auto_release(1_000_003)); // already disbursed
}

#[test]
fn escrow_getters() {
    let mut e = funded_escrow(1_000, 250);
    assert!(!e.is_released());
    assert!(!e.is_refunded());
    assert_eq!(e.remaining_dispute_time(999_990), 10);
    assert_eq!(e.remaining_dispute_time(1_000_000), 0);
    assert_eq!(e.remaining_dispute_time(2_000_000), 0);
    e.release(5).unwrap();
    assert!(e.is_released());
    assert!(!e.is_refunded());
}
