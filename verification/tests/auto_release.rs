use solanagigs::errors::SolanaGigsError;
use solanagigs::escrow::Escrow;
use solanagigs::listing::Listing;
use solanagigs::order::{Order, OrderStatus};

const SELLER: u64 = 10;
const BUYER: u64 = 20;
const THIRD_PARTY: u64 = 77;

fn in_progress_order(price: u64) -> (Order, Escrow) {
    let l = Listing::new(1, SELLER, "t".to_string(), "d".to_string(), price, 7, 2, vec![]).unwrap();
    let (mut o, e) = Order::create(&l, 5, BUYER, String::new(), 250, true, 1000).unwrap();
    o.accept(SELLER, 1500).unwrap();
    o.start_work(SELLER).unwrap();
    (o, e)
}

#[test]
fn auto_release_scenario() {
    // order in progress, deadline passed, buyer never cancels; a third
    // party calls auto_release after the dispute deadline
    let (mut o, mut e) = in_progress_order(1_000_000);
    let _ = THIRD_PARTY; // auto_release takes no caller: anyone may trigger it
    let after = e.dispute_deadline + 1;
    let payout = o.auto_release(&mut e, after).unwrap();
    assert_eq!(payout, Some((975_000, 25_000)));
    assert_eq!(o.status, OrderStatus::Completed);
    assert_eq!(o.completed_at, Some(after));
    assert_eq!(e.amount, 0);
    assert!(e.is_released());
    // the escrow disbursed exactly once: calling again is a no-op
    let again = o.auto_release(&mut e, after + 10).unwrap();
    assert_eq!(again, None);
    assert_eq!(o.status, OrderStatus::Completed);
    assert_eq!(o.completed_at, Some(after));
    assert_eq!(e.amount, 0);
    assert_eq!(e.released_at, Some(after));
}

#[test]
fn auto_release_before_deadline_fails() {
    let (mut o, mut e) = in_progress_order(1_000_000);
    let at_deadline = e.dispute_deadline;
    let r = o.auto_release(&mut e, at_deadline);
    assert_eq!(r.err(), Some(SolanaGigsError::InvalidEscrowState));
    assert_eq!(o.status, OrderStatus::InProgress);
    assert_eq!(e.amount, 1_000_000);
}

#[test]
fn auto_release_blocked_by_dispute() {
    let (mut o, mut e) = in_progress_order(1_000_000);
    o.raise_dispute(&mut e, BUYER, "work not as described".to_string(), vec![], 2500)
        .unwrap();
    let past = e.dispute_deadline + 1;
    let r = o.auto_release(&mut e, past);
    assert_eq!(r.err(), Some(SolanaGigsError::InvalidEscrowState));
    assert_eq!(o.status, OrderStatus::Disputed);
    assert_eq!(e.amount, 1_000_000);
}

#[test]
fn auto_release_noop_after_cancellation() {
    let l = Listing::new(1, SELLER, "t".to_string(), "d".to_string(), 1_000, 7, 2, vec![]).unwrap();
    let (mut o, mut e) = Order::create(&l, 5, BUYER, String::new(), 250, true, 1000).unwrap();
    o.cancel(&mut e, BUYER, 1200).unwrap();
    // the escrow was refunded: auto-release finds it disbursed, a no-op
    let past = e.dispute_deadline + 1;
    let r = o.auto_release(&mut e, past).unwrap();
    assert_eq!(r, None);
    assert_eq!(o.status, OrderStatus::Cancelled);
}

#[test]
fn auto_release_respects_disabled_flag() {
    let l = Listing::new(1, SELLER, "t".to_string(), "d".to_string(), 1_000, 7, 2, vec![]).unwrap();
    let (mut o, mut e) = Order::create(&l, 5, BUYER, String::new(), 250, false, 1000).unwrap();
    o.accept(SELLER, 1500).unwrap();
    let past = e.dispute_deadline + 1;
    let r = o.auto_release(&mut e, past);
    assert_eq!(r.err(), Some(SolanaGigsError::InvalidEscrowState));
    assert_eq!(e.amount, 1_000);
}
