//! The error taxonomy. Every failed operation returns one of these and
//! leaves the records it was handed exactly as they were: validation
//! errors for out-of-range or oversized input, state errors for an
//! operation invalid in the current status, authorization errors for a
//! caller who is not a permitted party, arithmetic errors where a counter
//! would overflow, and resource errors where custody could not cover a
//! requested split.

use vstd::prelude::*;

verus! {

#[derive(Clone, Copy, Debug, PartialEq, Eq, Structural)]
pub enum SolanaGigsError {
    /// The caller is not a permitted party for the requested transition.
    Unauthorized,
    /// A title exceeds its length cap.
    TitleTooLong,
    /// A description exceeds its length cap.
    DescriptionTooLong,
    /// Order requirements exceed their length cap.
    RequirementsTooLong,
    /// A delivery message exceeds its length cap.
    DeliveryMessageTooLong,
    /// Too many delivery files were attached.
    TooManyFiles,
    /// Too many tags were given for a listing.
    TooManyTags,
    /// The revision allowance of a listing exceeds its cap.
    TooManyRevisions,
    /// A price of zero was given.
    InvalidPrice,
    /// A delivery time outside the accepted range was given.
    InvalidDeliveryTime,
    /// A rating outside 1 to 5 was given.
    InvalidRating,
    /// A review comment exceeds its length cap.
    ReviewTooLong,
    /// A dispute reason outside its length bounds was given.
    InvalidDisputeReason,
    /// A dispute resolution text exceeds its length cap.
    InvalidDisputeResolution,
    /// A refund percentage above 100 was given.
    InvalidRefundPercentage,
    /// The listing is not active.
    GigIsNotActive,
    /// A buyer may not purchase their own listing.
    SellerCannotBuyOwnGig,
    /// The operation is not valid for the order's current status.
    InvalidOrderStatus,
    /// The order may not be cancelled now: in progress and not yet
    /// past its deadline.
    CannotCancelOrder,
    /// The order's revision allowance is exhausted.
    RevisionLimitExceeded,
    /// The escrow is not in a state that permits the operation:
    /// not funded, locked by a dispute, or (for auto-release) not
    /// yet past its dispute deadline or not enabled for it.
    InvalidEscrowState,
    /// The escrow has already been disbursed, by a release or a refund.
    EscrowAlreadyReleased,
    /// A deposit of zero was given.
    InvalidTokenAmount,
    /// A dispute is already open for this order.
    DisputeAlreadyExists,
    /// The post-delivery dispute window has elapsed.
    DisputePeriodExpired,
    /// The operation is not valid for the dispute's current status.
    InvalidDisputeStatus,
    /// The operation is not valid for the milestone's current status.
    InvalidMilestoneStatus,
    /// The milestone does not belong to the order, or the order's
    /// milestone counters cannot admit another approval.
    InvalidMilestoneCount,
    /// A plain completion was requested while milestones remain open.
    AllMilestonesMustBeCompleted,
    /// A fee rate above the basis-point denominator was given.
    InvalidPlatformFee,
    /// The escrow does not hold enough to cover the requested split.
    InsufficientFunds,
    /// A counter or timestamp computation would overflow.
    ArithmeticOverflow,
}

impl SolanaGigsError {
    /// A human-readable description of the error.
    pub fn message(&self) -> &'static str {
        match self {
            SolanaGigsError::Unauthorized => "Unauthorized access",
            SolanaGigsError::TitleTooLong => "Title too long",
            SolanaGigsError::DescriptionTooLong => "Description too long",
            SolanaGigsError::RequirementsTooLong => "Requirements too long",
            SolanaGigsError::DeliveryMessageTooLong => "Delivery message too long",
            SolanaGigsError::TooManyFiles => "Too many files",
            SolanaGigsError::TooManyTags => "Too many tags",
            SolanaGigsError::TooManyRevisions => "Too many revisions",
            SolanaGigsError::InvalidPrice => "Invalid price",
            SolanaGigsError::InvalidDeliveryTime => "Invalid delivery time",
            SolanaGigsError::InvalidRating => "Invalid rating value",
            SolanaGigsError::ReviewTooLong => "Review too long",
            SolanaGigsError::InvalidDisputeReason => "Invalid dispute reason",
            SolanaGigsError::InvalidDisputeResolution => "Invalid dispute resolution",
            SolanaGigsError::InvalidRefundPercentage => "Invalid refund percentage",
            SolanaGigsError::GigIsNotActive => "Gig is not active",
            SolanaGigsError::SellerCannotBuyOwnGig => "Seller cannot buy own gig",
            SolanaGigsError::InvalidOrderStatus => "Invalid order status",
            SolanaGigsError::CannotCancelOrder => "Cannot cancel order",
            SolanaGigsError::RevisionLimitExceeded => "Revision limit exceeded",
            SolanaGigsError::InvalidEscrowState => "Invalid escrow state",
            SolanaGigsError::EscrowAlreadyReleased => "Escrow already released",
            SolanaGigsError::InvalidTokenAmount => "Invalid token amount",
            SolanaGigsError::DisputeAlreadyExists => "Dispute already exists",
            SolanaGigsError::DisputePeriodExpired => "Dispute period expired",
            SolanaGigsError::InvalidDisputeStatus => "Invalid dispute status",
            SolanaGigsError::InvalidMilestoneStatus => "Invalid milestone status",
            SolanaGigsError::InvalidMilestoneCount => "Invalid milestone count",
            SolanaGigsError::AllMilestonesMustBeCompleted => "All milestones must be completed",
            SolanaGigsError::InvalidPlatformFee => "Invalid platform fee",
            SolanaGigsError::InsufficientFunds => "Insufficient funds",
            SolanaGigsError::ArithmeticOverflow => "Arithmetic overflow",
        }
    }
}

} // verus!
