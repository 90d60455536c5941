use solanagigs::errors::SolanaGigsError;
use solanagigs::escrow::Escrow;
use solanagigs::listing::Listing;
use solanagigs::order::{Order, OrderStatus, DISPUTE_PERIOD_SECONDS, SECONDS_PER_DAY};

const SELLER: u64 = 10;
const BUYER: u64 = 20;
const STRANGER: u64 = 99;

fn listing(price: u64, max_revisions: u8) -> Listing {
    Listing::new(
        1,
        SELLER,
        "logo design".to_string(),
        "a vector logo".to_string(),
        price,
        7,
        max_revisions,
        vec!["design".to_string()],
    )
    .unwrap()
}

fn new_order(price: u64, max_revisions: u8, now: i64) -> (Order, Escrow) {
    Order::create(&listing(price, max_revisions), 5, BUYER, "blue tones".to_string(), 250, true, now)
        .unwrap()
}

#[test]
fn create_sets_up_order_and_escrow() {
    let (o, e) = new_order(1_000_000, 2, 1000);
    assert_eq!(o.status, OrderStatus::Created);
    assert_eq!(o.buyer, BUYER);
    assert_eq!(o.seller, SELLER);
    assert_eq!(o.amount, 1_000_000);
    assert_eq!(o.deadline, 1000 + 7 * SECONDS_PER_DAY);
    assert_eq!(o.revision_count, 0);
    assert_eq!(o.max_revisions, 2);
    assert!(e.funded);
    assert_eq!(e.amount, 1_000_000);
    assert_eq!(e.gross, 1_000_000);
    assert_eq!(e.fee_rate, 250);
    assert_eq!(e.dispute_deadline, o.deadline + DISPUTE_PERIOD_SECONDS);
}

#[test]
fn create_rejects_inactive_listing() {
    let mut l = listing(1000, 2);
    l.update(SELLER, None, None, None, None, Some(false)).unwrap();
    let r = Order::create(&l, 5, BUYER, String::new(), 250, true, 1000);
    assert_eq!(r.err(), Some(SolanaGigsError::GigIsNotActive));
}

#[test]
fn create_rejects_self_purchase() {
    let l = listing(1000, 2);
    let r = Order::create(&l, 5, SELLER, String::new(), 250, true, 1000);
    assert_eq!(r.err(), Some(SolanaGigsError::SellerCannotBuyOwnGig));
}

#[test]
fn create_rejects_oversized_requirements() {
    let l = listing(1000, 2);
    let long = "x".repeat(501);
    let r = Order::create(&l, 5, BUYER, long, 250, true, 1000);
    assert_eq!(r.err(), Some(SolanaGigsError::RequirementsTooLong));
}

#[test]
fn accept_requires_seller_and_created() {
    let (mut o, _e) = new_order(1000, 2, 1000);
    assert_eq!(o.accept(BUYER, 1500), Err(SolanaGigsError::Unauthorized));
    assert_eq!(o.status, OrderStatus::Created);
    o.accept(SELLER, 1500).unwrap();
    assert_eq!(o.status, OrderStatus::Accepted);
    assert_eq!(o.accepted_at, Some(1500));
    assert_eq!(o.accept(SELLER, 1600), Err(SolanaGigsError::InvalidOrderStatus));
}

#[test]
fn deliver_requires_seller() {
    let (mut o, mut e) = new_order(1000, 2, 1000);
    o.accept(SELLER, 1500).unwrap();
    assert_eq!(
        o.deliver(&mut e, BUYER, "done".to_string(), vec![], 2000),
        Err(SolanaGigsError::Unauthorized)
    );
    o.deliver(&mut e, SELLER, "done".to_string(), vec!["a.zip".to_string()], 2000)
        .unwrap();
    assert_eq!(o.status, OrderStatus::Delivered);
    assert_eq!(o.delivered_at, Some(2000));
    assert_eq!(o.delivery_notes.as_deref(), Some("done"));
    // delivery restarts the dispute window
    assert_eq!(e.dispute_deadline, 2000 + DISPUTE_PERIOD_SECONDS);
}

#[test]
fn deliver_validates_payload() {
    let (mut o, mut e) = new_order(1000, 2, 1000);
    o.accept(SELLER, 1500).unwrap();
    let long = "x".repeat(1001);
    assert_eq!(
        o.deliver(&mut e, SELLER, long, vec![], 2000),
        Err(SolanaGigsError::DeliveryMessageTooLong)
    );
    let many: Vec<String> = (0..11).map(|i| format!("f{i}")).collect();
    assert_eq!(
        o.deliver(&mut e, SELLER, String::new(), many, 2000),
        Err(SolanaGigsError::TooManyFiles)
    );
    assert_eq!(o.status, OrderStatus::Accepted);
}

#[test]
fn complete_scenario() {
    // order created, delivered, buyer calls complete
    let (mut o, mut e) = new_order(1_000_000, 2, 1000);
    o.accept(SELLER, 1500).unwrap();
    o.deliver(&mut e, SELLER, "done".to_string(), vec![], 2000).unwrap();
    let (review, net, fee) = o
        .complete(&mut e, BUYER, 5, "great work".to_string(), 3000)
        .unwrap();
    assert_eq!(o.status, OrderStatus::Completed);
    assert_eq!(o.completed_at, Some(3000));
    assert_eq!(e.amount, 0);
    assert_eq!(net, 975_000);
    assert_eq!(fee, 25_000);
    // exactly one review record for (order, buyer)
    assert_eq!(review.order_id, o.id);
    assert_eq!(review.reviewer, BUYER);
    assert_eq!(review.reviewee, SELLER);
    assert_eq!(review.rating, 5);
    assert_eq!(review.comment, "great work");
    // a replay cannot produce a second review or payout
    assert_eq!(
        o.complete(&mut e, BUYER, 5, "again".to_string(), 3500).err(),
        Some(SolanaGigsError::InvalidOrderStatus)
    );
}

#[test]
fn complete_validates_rating_and_review() {
    let (mut o, mut e) = new_order(1000, 2, 1000);
    o.accept(SELLER, 1500).unwrap();
    o.deliver(&mut e, SELLER, String::new(), vec![], 2000).unwrap();
    assert_eq!(
        o.complete(&mut e, BUYER, 0, String::new(), 3000).err(),
        Some(SolanaGigsError::InvalidRating)
    );
    assert_eq!(
        o.complete(&mut e, BUYER, 6, String::new(), 3000).err(),
        Some(SolanaGigsError::InvalidRating)
    );
    let long = "x".repeat(501);
    assert_eq!(
        o.complete(&mut e, BUYER, 4, long, 3000).err(),
        Some(SolanaGigsError::ReviewTooLong)
    );
    assert_eq!(
        o.complete(&mut e, STRANGER, 4, String::new(), 3000).err(),
        Some(SolanaGigsError::Unauthorized)
    );
    assert_eq!(o.status, OrderStatus::Delivered);
    assert_eq!(e.amount, 1000);
}

#[test]
fn revision_flow_and_limit() {
    let (mut o, mut e) = new_order(1000, 1, 1000);
    o.accept(SELLER, 1500).unwrap();
    o.deliver(&mut e, SELLER, String::new(), vec![], 2000).unwrap();
    // only the buyer may ask for a revision
    assert_eq!(o.request_revision(SELLER), Err(SolanaGigsError::Unauthorized));
    o.request_revision(BUYER).unwrap();
    assert_eq!(o.status, OrderStatus::InProgress);
    assert_eq!(o.revision_count, 1);
    o.deliver(&mut e, SELLER, "v2".to_string(), vec![], 2500).unwrap();
    // the allowance (1) is exhausted: the request fails, nothing changes
    let before_status = o.status;
    assert_eq!(o.request_revision(BUYER), Err(SolanaGigsError::RevisionLimitExceeded));
    assert_eq!(o.status, before_status);
    assert_eq!(o.revision_count, 1);
    assert!(o.revision_count <= o.max_revisions);
}

#[test]
fn cancel_from_created_refunds_buyer() {
    let (mut o, mut e) = new_order(40_000, 2, 1000);
    let refunded = o.cancel(&mut e, BUYER, 1200).unwrap();
    assert_eq!(refunded, 40_000);
    assert_eq!(o.status, OrderStatus::Cancelled);
    assert_eq!(o.cancelled_at, Some(1200));
    assert_eq!(e.amount, 0);
    assert_eq!(e.refunded_at, Some(1200));
    // cancellation is terminal
    assert_eq!(o.cancel(&mut e, BUYER, 1300), Err(SolanaGigsError::InvalidOrderStatus));
}

#[test]
fn cancel_in_progress_only_past_deadline() {
    let (mut o, mut e) = new_order(40_000, 2, 1000);
    o.accept(SELLER, 1500).unwrap();
    o.start_work(SELLER).unwrap();
    assert_eq!(o.status, OrderStatus::InProgress);
    assert_eq!(o.cancel(&mut e, BUYER, o.deadline), Err(SolanaGigsError::CannotCancelOrder));
    assert_eq!(o.status, OrderStatus::InProgress);
    let refunded = o.cancel(&mut e, BUYER, o.deadline + 1).unwrap();
    assert_eq!(refunded, 40_000);
    assert_eq!(o.status, OrderStatus::Cancelled);
}

#[test]
fn cancel_requires_a_party() {
    let (mut o, mut e) = new_order(40_000, 2, 1000);
    assert_eq!(o.cancel(&mut e, STRANGER, 1200), Err(SolanaGigsError::Unauthorized));
    assert_eq!(o.status, OrderStatus::Created);
    assert_eq!(e.amount, 40_000);
}

#[test]
fn delivered_order_cannot_be_cancelled() {
    let (mut o, mut e) = new_order(40_000, 2, 1000);
    o.accept(SELLER, 1500).unwrap();
    o.deliver(&mut e, SELLER, String::new(), vec![], 2000).unwrap();
    assert_eq!(o.cancel(&mut e, BUYER, 2500), Err(SolanaGigsError::InvalidOrderStatus));
}

#[test]
fn status_helpers() {
    let (mut o, mut e) = new_order(1000, 2, 1000);
    assert!(o.is_active());
    assert!(o.can_be_cancelled(1100));
    assert!(!o.can_raise_dispute()); // not yet accepted
    assert!(!o.is_overdue(o.deadline));
    assert!(o.is_overdue(o.deadline + 1));
    o.accept(SELLER, 1500).unwrap();
    assert!(o.can_raise_dispute());
    o.deliver(&mut e, SELLER, String::new(), vec![], 2000).unwrap();
    assert!(o.can_be_completed());
    assert!(o.can_request_revision());
    assert_eq!(o.progress_percentage(), 50);
    o.complete(&mut e, BUYER, 5, String::new(), 3000).unwrap();
    assert!(!o.is_active());
    assert!(o.status.is_terminal());
    assert_eq!(o.progress_percentage(), 100);
}
