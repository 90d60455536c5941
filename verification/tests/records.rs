use solanagigs::errors::SolanaGigsError;
use solanagigs::listing::Listing;
use solanagigs::marketplace::Marketplace;
use solanagigs::profile::Profile;

const SELLER: u64 = 10;
const AUTHORITY: u64 = 1;

fn listing() -> Listing {
    Listing::new(
        1,
        SELLER,
        "logo design".to_string(),
        "a vector logo".to_string(),
        1_000_000,
        7,
        2,
        vec!["design".to_string(), "logo".to_string()],
    )
    .unwrap()
}

#[test]
fn listing_new_validates() {
    let long_title = "x".repeat(101);
    assert_eq!(
        Listing::new(1, SELLER, long_title, String::new(), 1, 7, 2, vec![]).err(),
        Some(SolanaGigsError::TitleTooLong)
    );
    let long_desc = "x".repeat(1001);
    assert_eq!(
        Listing::new(1, SELLER, String::new(), long_desc, 1, 7, 2, vec![]).err(),
        Some(SolanaGigsError::DescriptionTooLong)
    );
    assert_eq!(
        Listing::new(1, SELLER, String::new(), String::new(), 0, 7, 2, vec![]).err(),
        Some(SolanaGigsError::InvalidPrice)
    );
    assert_eq!(
        Listing::new(1, SELLER, String::new(), String::new(), 1, 0, 2, vec![]).err(),
        Some(SolanaGigsError::InvalidDeliveryTime)
    );
    assert_eq!(
        Listing::new(1, SELLER, String::new(), String::new(), 1, 366, 2, vec![]).err(),
        Some(SolanaGigsError::InvalidDeliveryTime)
    );
    assert_eq!(
        Listing::new(1, SELLER, String::new(), String::new(), 1, 7, 11, vec![]).err(),
        Some(SolanaGigsError::TooManyRevisions)
    );
    let many: Vec<String> = (0..11).map(|i| format!("t{i}")).collect();
    assert_eq!(
        Listing::new(1, SELLER, String::new(), String::new(), 1, 7, 2, many).err(),
        Some(SolanaGigsError::TooManyTags)
    );
}

#[test]
fn listing_update_is_all_or_nothing() {
    let mut l = listing();
    // one bad field rejects the whole update
    let r = l.update(
        SELLER,
        Some("new title".to_string()),
        None,
        Some(0),
        None,
        Some(false),
    );
    assert_eq!(r.err(), Some(SolanaGigsError::InvalidPrice));
    assert_eq!(l.title, "logo design");
    assert_eq!(l.price, 1_000_000);
    assert!(l.is_active);
    // a good update applies every given field
    l.update(
        SELLER,
        Some("new title".to_string()),
        None,
        Some(2_000_000),
        Some(14),
        Some(false),
    )
    .unwrap();
    assert_eq!(l.title, "new title");
    assert_eq!(l.description, "a vector logo");
    assert_eq!(l.price, 2_000_000);
    assert_eq!(l.delivery_time, 14);
    assert!(!l.is_active);
}

#[test]
fn listing_update_requires_seller() {
    let mut l = listing();
    assert_eq!(
        l.update(99, None, None, None, None, Some(false)).err(),
        Some(SolanaGigsError::Unauthorized)
    );
    assert!(l.is_active);
}

#[test]
fn listing_rating_average() {
    let mut l = listing();
    assert_eq!(l.average_rating_x100(), 0);
    l.record_rating(5).unwrap();
    l.record_rating(4).unwrap();
    assert_eq!(l.rating_sum, 9);
    assert_eq!(l.rating_count, 2);
    assert_eq!(l.average_rating_x100(), 450);
    l.record_order().unwrap();
    assert_eq!(l.total_orders, 1);
}

#[test]
fn marketplace_config() {
    assert_eq!(
        Marketplace::new(AUTHORITY, 10_001).err(),
        Some(SolanaGigsError::InvalidPlatformFee)
    );
    let mut m = Marketplace::new(AUTHORITY, 250).unwrap();
    assert_eq!(m.fee_rate, 250);
    assert_eq!(
        m.set_fee_rate(SELLER, 300),
        Err(SolanaGigsError::Unauthorized)
    );
    assert_eq!(
        m.set_fee_rate(AUTHORITY, 20_000),
        Err(SolanaGigsError::InvalidPlatformFee)
    );
    m.set_fee_rate(AUTHORITY, 300).unwrap();
    assert_eq!(m.fee_rate, 300);
    m.record_listing().unwrap();
    m.record_order(1_000_000).unwrap();
    m.record_order(500_000).unwrap();
    assert_eq!(m.total_listings, 1);
    assert_eq!(m.total_orders, 2);
    assert_eq!(m.total_volume, 1_500_000);
}

#[test]
fn marketplace_volume_overflow_rejected() {
    let mut m = Marketplace::new(AUTHORITY, 250).unwrap();
    m.record_order(u64::MAX).unwrap();
    assert_eq!(m.record_order(1), Err(SolanaGigsError::ArithmeticOverflow));
    assert_eq!(m.total_orders, 1);
    assert_eq!(m.total_volume, u64::MAX);
}

#[test]
fn profile_reputation_running_average() {
    let mut p = Profile::new(SELLER);
    assert_eq!(p.average_rating_x100(), 0);
    p.record_completion(5).unwrap();
    p.record_completion(4).unwrap();
    p.record_completion(4).unwrap();
    assert_eq!(p.total_reviews, 3);
    assert_eq!(p.total_orders_completed, 3);
    assert_eq!(p.average_rating_x100(), 433); // 13 * 100 / 3, rounded down
    p.record_earnings(975_000).unwrap();
    p.record_earnings(25_000).unwrap();
    assert_eq!(p.total_earnings, 1_000_000);
}

#[test]
fn profile_earnings_overflow_rejected() {
    let mut p = Profile::new(SELLER);
    p.record_earnings(u64::MAX).unwrap();
    assert_eq!(p.record_earnings(1), Err(SolanaGigsError::ArithmeticOverflow));
    assert_eq!(p.total_earnings, u64::MAX);
}

#[test]
fn error_messages_exist() {
    assert_eq!(SolanaGigsError::Unauthorized.message(), "Unauthorized access");
    assert_eq!(
        SolanaGigsError::EscrowAlreadyReleased.message(),
        "Escrow already released"
    );
    assert_eq!(
        SolanaGigsError::DisputePeriodExpired.message(),
        "Dispute period expired"
    );
    assert_eq!(
        SolanaGigsError::RevisionLimitExceeded.message(),
        "Revision limit exceeded"
    );
}
