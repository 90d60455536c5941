//! The order state machine. An order moves through
//! `Created -> Accepted -> InProgress -> Delivered` and from there to
//! `Completed` (buyer approval or auto-release), back to `InProgress`
//! (revision), or to `Disputed` and on to `Resolved`; `Cancelled` is
//! reachable from `Created` and `Accepted` always and from `InProgress`
//! once the deadline has passed. Every transition re-checks the current
//! status and the caller, so a duplicate call replayed after another
//! commit fails with a state error: this is the at-most-once guarantee.

use vstd::prelude::*;

use crate::dispute::{Dispute, DisputeStatus};
use crate::errors::SolanaGigsError;
use crate::escrow::{AccountId, Escrow};
use crate::fees::{fee_of, net_of, MAX_FEE_RATE};
use crate::listing::Listing;
use crate::review::Review;

verus! {

pub const SECONDS_PER_DAY: i64 = 86400;

/// The post-delivery window during which a dispute may be raised: 7
/// days. Auto-release opens once it has elapsed.
pub const DISPUTE_PERIOD_SECONDS: i64 = 7 * 86400;

/// The last timestamp the engine accepts (end of year 9999), so that
/// deadline arithmetic stays far from the integer bounds.
pub const MAX_TIMESTAMP: i64 = 253402300799;

pub const MAX_REQUIREMENTS_LEN: usize = 500;

pub const MAX_DELIVERY_NOTES_LEN: usize = 1000;

pub const MAX_DELIVERY_FILES: usize = 10;

pub const MIN_DISPUTE_REASON_LEN: usize = 10;

pub const MAX_DISPUTE_REASON_LEN: usize = 500;

pub const MAX_DISPUTE_EVIDENCE: usize = 5;

pub const MAX_REVIEW_LEN: usize = 500;

/// The cap on milestones per order.
pub const MAX_MILESTONES: u8 = 10;

#[derive(Clone, Copy, Debug, PartialEq, Eq, Structural)]
pub enum OrderStatus {
    /// Purchased and funded; awaiting the seller.
    Created,
    /// The seller has taken the order on.
    Accepted,
    /// Work (or rework after a revision request) is under way.
    InProgress,
    /// The seller has delivered; the dispute window is open.
    Delivered,
    /// Terminal: the buyer approved (or auto-release fired) and the
    /// escrow was released to the seller.
    Completed,
    /// Terminal: cancelled and the escrow refunded to the buyer.
    Cancelled,
    /// A dispute is open; the escrow is frozen.
    Disputed,
    /// Terminal: a dispute was resolved and the escrow split.
    Resolved,
    /// Terminal: the escrow went back to the buyer in full outside the
    /// plain cancellation path.
    Refunded,
}

impl OrderStatus {
    /// No transition leaves a terminal status.
    pub open spec fn spec_is_terminal(self) -> bool {
        self is Completed || self is Cancelled || self is Resolved || self is Refunded
    }

    pub fn is_terminal(&self) -> (r: bool)
        ensures
            r == self.spec_is_terminal(),
    {
        match self {
            OrderStatus::Completed => true,
            OrderStatus::Cancelled => true,
            OrderStatus::Resolved => true,
            OrderStatus::Refunded => true,
            _ => false,
        }
    }
}

#[derive(Clone, Debug)]
pub struct Order {
    pub id: u64,
    pub buyer: AccountId,
    pub seller: AccountId,
    /// The listing this order was placed against.
    pub listing_id: u64,
    /// The gross amount the buyer paid into escrow.
    pub amount: u64,
    pub status: OrderStatus,
    pub created_at: i64,
    pub accepted_at: Option<i64>,
    pub delivered_at: Option<i64>,
    pub completed_at: Option<i64>,
    pub cancelled_at: Option<i64>,
    pub disputed_at: Option<i64>,
    /// The seller must deliver by this time; afterwards the buyer may
    /// cancel an in-progress order.
    pub deadline: i64,
    pub requirements: String,
    pub delivery_notes: Option<String>,
    pub delivery_files: Vec<String>,
    /// How many revisions the buyer has requested; never exceeds
    /// `max_revisions`.
    pub revision_count: u8,
    pub max_revisions: u8,
    /// Where the order stood when the open dispute was raised; `Some`
    /// exactly while the status is `Disputed`, so a dismissal can put
    /// the order back.
    pub status_before_dispute: Option<OrderStatus>,
    pub arbiter: Option<AccountId>,
    pub buyer_rating: Option<u8>,
    pub buyer_review: Option<String>,
    /// How many milestones the order was split into (0 for a plain
    /// order).
    pub milestone_count: u8,
    /// How many milestones have been approved; never exceeds
    /// `milestone_count`.
    pub completed_milestones: u8,
}

impl Order {
    pub open spec fn wf(self) -> bool {
        &&& self.buyer != self.seller
        &&& self.revision_count <= self.max_revisions
        &&& self.max_revisions <= crate::listing::MAX_REVISIONS
        &&& self.completed_milestones <= self.milestone_count
        &&& self.milestone_count <= MAX_MILESTONES
        &&& self.amount > 0
        &&& self.requirements@.len() <= MAX_REQUIREMENTS_LEN
        &&& (self.delivery_notes matches Some(n) ==> n@.len() <= MAX_DELIVERY_NOTES_LEN)
        &&& self.delivery_files@.len() <= MAX_DELIVERY_FILES
        &&& (self.buyer_rating matches Some(rt) ==> 1 <= rt <= 5)
        &&& (self.buyer_review matches Some(rv) ==> rv@.len() <= MAX_REVIEW_LEN)
        &&& (self.status is Disputed <==> self.status_before_dispute is Some)
        &&& (self.status_before_dispute matches Some(s) ==> (s is Accepted || s is InProgress || (
        s is Delivered && self.delivered_at is Some)))
        &&& (self.status is Completed <==> self.completed_at is Some)
        &&& (self.status is Cancelled <==> self.cancelled_at is Some)
        &&& (self.status is Delivered ==> self.delivered_at is Some)
        &&& (self.status is Disputed ==> self.disputed_at is Some)
    }

    /// Purchase: a new order against an active listing, with a freshly
    /// funded escrow holding the listing's price at the marketplace's
    /// current fee rate. Fails if the listing is inactive, the buyer is
    /// the seller, or the requirements exceed their length cap. The
    /// delivery deadline is `now` plus the listing's delivery time; the
    /// escrow's dispute deadline lies one dispute window beyond it.
    pub fn create(
        listing: &Listing,
        order_id: u64,
        buyer: AccountId,
        requirements: String,
        fee_rate: u16,
        auto_release_enabled: bool,
        now: i64,
    ) -> (r: Result<(Order, Escrow), SolanaGigsError>)
        requires
            listing.wf(),
            fee_rate <= MAX_FEE_RATE,
            0 <= now <= MAX_TIMESTAMP,
        ensures
            match r {
                Ok((o, e)) => listing.is_active && buyer != listing.seller && requirements@.len()
                    <= MAX_REQUIREMENTS_LEN && o.wf() && e.wf() && o.id == order_id && o.buyer
                    == buyer && o.seller == listing.seller && o.listing_id == listing.id && o.amount
                    == listing.price && o.status is Created && o.created_at == now
                    && o.accepted_at is None && o.delivered_at is None && o.completed_at is None
                    && o.cancelled_at is None && o.disputed_at is None && o.deadline == now
                    + listing.delivery_time * SECONDS_PER_DAY && o.requirements == requirements
                    && o.delivery_notes is None && o.delivery_files@.len() == 0 && o.revision_count
                    == 0 && o.max_revisions == listing.max_revisions
                    && o.status_before_dispute is None && o.arbiter is None
                    && o.buyer_rating is None && o.buyer_review is None && o.milestone_count == 0
                    && o.completed_milestones == 0 && e == (Escrow {
                    order_id,
                    buyer,
                    seller: listing.seller,
                    amount: listing.price,
                    gross: listing.price,
                    fee_rate,
                    platform_fee: 0u64,
                    seller_net: 0u64,
                    milestones_released: 0u64,
                    funded: true,
                    locked: false,
                    auto_release_enabled,
                    dispute_deadline: (now + listing.delivery_time * SECONDS_PER_DAY
                        + DISPUTE_PERIOD_SECONDS) as i64,
                    created_at: now,
                    released_at: None::<i64>,
                    refunded_at: None::<i64>,
                }),
                Err(err) => (err == SolanaGigsError::GigIsNotActive && !listing.is_active) || (err
                    == SolanaGigsError::SellerCannotBuyOwnGig && listing.is_active && buyer
                    == listing.seller) || (err == SolanaGigsError::RequirementsTooLong
                    && listing.is_active && buyer != listing.seller && requirements@.len()
                    > MAX_REQUIREMENTS_LEN),
            },
    {
        if !listing.is_active {
            return Err(SolanaGigsError::GigIsNotActive);
        }
        if buyer == listing.seller {
            return Err(SolanaGigsError::SellerCannotBuyOwnGig);
        }
        if requirements.as_str().unicode_len() > MAX_REQUIREMENTS_LEN {
            return Err(SolanaGigsError::RequirementsTooLong);
        }
        let deadline: i64 = now + (listing.delivery_time as i64) * SECONDS_PER_DAY;
        let dispute_deadline: i64 = deadline + DISPUTE_PERIOD_SECONDS;
        let mut escrow = Escrow::new(order_id, buyer, listing.seller, now);
        let funded = escrow.fund(listing.price, fee_rate, dispute_deadline, auto_release_enabled);
        match funded {
            Ok(()) => {},
            Err(e) => {
                // a fresh escrow takes a positive deposit at a valid rate
                return Err(e);
            },
        }
        let order = Order {
            id: order_id,
            buyer,
            seller: listing.seller,
            listing_id: listing.id,
            amount: listing.price,
            status: OrderStatus::Created,
            created_at: now,
            accepted_at: None,
            delivered_at: None,
            completed_at: None,
            cancelled_at: None,
            disputed_at: None,
            deadline,
            requirements,
            delivery_notes: None,
            delivery_files: Vec::new(),
            revision_count: 0,
            max_revisions: listing.max_revisions,
            status_before_dispute: None,
            arbiter: None,
            buyer_rating: None,
            buyer_review: None,
            milestone_count: 0,
            completed_milestones: 0,
        };
        Ok((order, escrow))
    }

    /// The seller takes the order on: valid only from `Created`, only
    /// for the order's seller.
    pub fn accept(&mut self, caller: AccountId, now: i64) -> (r: Result<(), SolanaGigsError>)
        requires
            old(self).wf(),
        ensures
            final(self).wf(),
            match r {
                Ok(()) => old(self).status is Created && caller == old(self).seller && *final(self)
                    == (Order {
                    status: OrderStatus::Accepted,
                    accepted_at: Some(now),
                    ..*old(self)
                }),
                Err(e) => *final(self) == *old(self) && ((e == SolanaGigsError::InvalidOrderStatus
                    && !(old(self).status is Created)) || (e == SolanaGigsError::Unauthorized && old(
                self).status is Created && caller != old(self).seller)),
            },
    {
        match self.status {
            OrderStatus::Created => {},
            _ => {
                return Err(SolanaGigsError::InvalidOrderStatus);
            },
        }
        if caller != self.seller {
            return Err(SolanaGigsError::Unauthorized);
        }
        self.status = OrderStatus::Accepted;
        self.accepted_at = Some(now);
        Ok(())
    }

    /// The seller starts (or resumes) the work: valid only from
    /// `Accepted`.
    pub fn start_work(&mut self, caller: AccountId) -> (r: Result<(), SolanaGigsError>)
        requires
            old(self).wf(),
        ensures
            final(self).wf(),
            match r {
                Ok(()) => old(self).status is Accepted && caller == old(self).seller && *final(self) == (Order { status: OrderStatus::InProgress, ..*old(self) }),
                Err(e) => *final(self) == *old(self) && ((e == SolanaGigsError::InvalidOrderStatus
                    && !(old(self).status is Accepted)) || (e == SolanaGigsError::Unauthorized
                    && old(self).status is Accepted && caller != old(self).seller)),
            },
    {
        match self.status {
            OrderStatus::Accepted => {},
            _ => {
                return Err(SolanaGigsError::InvalidOrderStatus);
            },
        }
        if caller != self.seller {
            return Err(SolanaGigsError::Unauthorized);
        }
        self.status = OrderStatus::InProgress;
        Ok(())
    }

    /// Delivery: the seller hands the work over, the order moves to
    /// `Delivered`, and the dispute window starts: the escrow's dispute
    /// deadline becomes `now` plus the window. Valid from `Accepted`
    /// and `InProgress`.
    pub fn deliver(
        &mut self,
        escrow: &mut Escrow,
        caller: AccountId,
        notes: String,
        files: Vec<String>,
        now: i64,
    ) -> (r: Result<(), SolanaGigsError>)
        requires
            old(self).wf(),
            old(escrow).wf(),
            old(escrow).order_id == old(self).id,
            0 <= now <= MAX_TIMESTAMP,
        ensures
            final(self).wf(),
            final(escrow).wf(),
            match r {
                Ok(()) => notes@.len() <= MAX_DELIVERY_NOTES_LEN && files@.len()
                    <= MAX_DELIVERY_FILES && (old(self).status is Accepted || old(self).status is InProgress) && caller == old(self).seller && *final(self) == (Order {
                    status: OrderStatus::Delivered,
                    delivered_at: Some(now),
                    delivery_notes: Some(notes),
                    delivery_files: files,
                    ..*old(self)
                }) && *final(escrow) == (Escrow {
                    dispute_deadline: (now + DISPUTE_PERIOD_SECONDS) as i64,
                    ..*old(escrow)
                }),
                Err(e) => *final(self) == *old(self) && *final(escrow) == *old(escrow) && ((e
                    == SolanaGigsError::DeliveryMessageTooLong && notes@.len()
                    > MAX_DELIVERY_NOTES_LEN) || (e == SolanaGigsError::TooManyFiles && notes@.len()
                    <= MAX_DELIVERY_NOTES_LEN && files@.len() > MAX_DELIVERY_FILES) || (e
                    == SolanaGigsError::InvalidOrderStatus && notes@.len()
                    <= MAX_DELIVERY_NOTES_LEN && files@.len() <= MAX_DELIVERY_FILES && !(old(self).status is Accepted || old(self).status is InProgress)) || (e
                    == SolanaGigsError::Unauthorized && notes@.len() <= MAX_DELIVERY_NOTES_LEN
                    && files@.len() <= MAX_DELIVERY_FILES && (old(self).status is Accepted || old(self).status is InProgress) && caller != old(self).seller)),
            },
    {
        if notes.as_str().unicode_len() > MAX_DELIVERY_NOTES_LEN {
            return Err(SolanaGigsError::DeliveryMessageTooLong);
        }
        if files.len() > MAX_DELIVERY_FILES {
            return Err(SolanaGigsError::TooManyFiles);
        }
        match self.status {
            OrderStatus::Accepted => {},
            OrderStatus::InProgress => {},
            _ => {
                return Err(SolanaGigsError::InvalidOrderStatus);
            },
        }
        if caller != self.seller {
            return Err(SolanaGigsError::Unauthorized);
        }
        self.status = OrderStatus::Delivered;
        self.delivered_at = Some(now);
        self.delivery_notes = Some(notes);
        self.delivery_files = files;
        escrow.set_dispute_deadline(now + DISPUTE_PERIOD_SECONDS);
        Ok(())
    }

    /// Revision request: valid only from `Delivered`, only for the
    /// buyer, and only while the revision allowance is not exhausted —
    /// at the limit it fails with `RevisionLimitExceeded` and changes
    /// nothing. The order returns to `InProgress` for rework.
    pub fn request_revision(&mut self, caller: AccountId) -> (r: Result<(), SolanaGigsError>)
        requires
            old(self).wf(),
        ensures
            final(self).wf(),
            final(self).revision_count <= final(self).max_revisions,
            match r {
                Ok(()) => old(self).status is Delivered && caller == old(self).buyer && old(self).revision_count < old(self).max_revisions && *final(self) == (Order {
                    status: OrderStatus::InProgress,
                    revision_count: (old(self).revision_count + 1) as u8,
                    ..*old(self)
                }),
                Err(e) => *final(self) == *old(self) && ((e == SolanaGigsError::InvalidOrderStatus
                    && !(old(self).status is Delivered)) || (e == SolanaGigsError::Unauthorized
                    && old(self).status is Delivered && caller != old(self).buyer) || (e
                    == SolanaGigsError::RevisionLimitExceeded && old(self).status is Delivered
                    && caller == old(self).buyer && old(self).revision_count == old(self).max_revisions)),
            },
    {
        match self.status {
            OrderStatus::Delivered => {},
            _ => {
                return Err(SolanaGigsError::InvalidOrderStatus);
            },
        }
        if caller != self.buyer {
            return Err(SolanaGigsError::Unauthorized);
        }
        if self.revision_count >= self.max_revisions {
            return Err(SolanaGigsError::RevisionLimitExceeded);
        }
        self.status = OrderStatus::InProgress;
        self.revision_count = self.revision_count + 1;
        Ok(())
    }

    /// Buyer approval: valid only from `Delivered`, only for the buyer,
    /// with a rating of 1 to 5 and a review within its cap; a
    /// milestone-billed order must have every milestone approved first.
    /// Releases the escrow to the seller net of the platform fee, moves
    /// the order to `Completed`, and writes the one review record for
    /// (order, buyer). Returns the review and `(seller_net,
    /// platform_fee)`.
    pub fn complete(
        &mut self,
        escrow: &mut Escrow,
        caller: AccountId,
        rating: u8,
        review: String,
        now: i64,
    ) -> (r: Result<(Review, u64, u64), SolanaGigsError>)
        requires
            old(self).wf(),
            old(escrow).wf(),
            old(escrow).order_id == old(self).id,
        ensures
            final(self).wf(),
            final(escrow).wf(),
            match r {
                Ok((rev, seller_net, platform_fee)) => {
                    &&& 1 <= rating <= 5
                    &&& review@.len() <= MAX_REVIEW_LEN
                    &&& old(self).status is Delivered
                    &&& caller == old(self).buyer
                    &&& (old(self).milestone_count > 0 ==> old(self).completed_milestones == old(self).milestone_count)
                    &&& seller_net == net_of(old(escrow).amount, old(escrow).fee_rate)
                    &&& platform_fee == fee_of(old(escrow).amount, old(escrow).fee_rate)
                    &&& seller_net + platform_fee == old(escrow).amount
                    &&& *final(escrow) == old(escrow).release_state(now)
                    &&& final(escrow).spec_disbursed()
                    &&& final(escrow).amount == 0
                    &&& *final(self) == (Order {
                        status: OrderStatus::Completed,
                        completed_at: Some(now),
                        buyer_rating: Some(rating),
                        buyer_review: Some(review),
                        ..*old(self)
                    })
                    &&& rev == (Review {
                        order_id: old(self).id,
                        reviewer: old(self).buyer,
                        reviewee: old(self).seller,
                        rating,
                        comment: review,
                        created_at: now,
                    })
                    &&& rev.wf()
                },
                Err(e) => *final(self) == *old(self) && *final(escrow) == *old(escrow) && ((e
                    == SolanaGigsError::InvalidRating && !(1 <= rating <= 5)) || (e
                    == SolanaGigsError::ReviewTooLong && 1 <= rating <= 5 && review@.len()
                    > MAX_REVIEW_LEN) || (e == SolanaGigsError::InvalidOrderStatus && 1 <= rating
                    <= 5 && review@.len() <= MAX_REVIEW_LEN && !(old(self).status is Delivered))
                    || (e == SolanaGigsError::Unauthorized && 1 <= rating <= 5 && review@.len()
                    <= MAX_REVIEW_LEN && old(self).status is Delivered && caller != old(self).buyer) || (e == SolanaGigsError::AllMilestonesMustBeCompleted && 1 <= rating <= 5
                    && review@.len() <= MAX_REVIEW_LEN && old(self).status is Delivered && caller
                    == old(self).buyer && old(self).milestone_count > 0 && old(self).completed_milestones < old(self).milestone_count) || (old(escrow).release_result() matches Err(ee) && e == ee && 1 <= rating <= 5 && review@.len()
                    <= MAX_REVIEW_LEN && old(self).status is Delivered && caller == old(self).buyer
                    && (old(self).milestone_count > 0 ==> old(self).completed_milestones == old(self).milestone_count))),
            },
    {
        if rating < 1 || rating > 5 {
            return Err(SolanaGigsError::InvalidRating);
        }
        if review.as_str().unicode_len() > MAX_REVIEW_LEN {
            return Err(SolanaGigsError::ReviewTooLong);
        }
        match self.status {
            OrderStatus::Delivered => {},
            _ => {
                return Err(SolanaGigsError::InvalidOrderStatus);
            },
        }
        if caller != self.buyer {
            return Err(SolanaGigsError::Unauthorized);
        }
        if self.milestone_count > 0 && self.completed_milestones < self.milestone_count {
            return Err(SolanaGigsError::AllMilestonesMustBeCompleted);
        }
        let (seller_net, platform_fee) = match escrow.release(now) {
            Ok(p) => p,
            Err(e) => {
                return Err(e);
            },
        };
        proof {
            crate::fees::lemma_fee_split_exact(old(escrow).amount, old(escrow).fee_rate);
        }
        self.status = OrderStatus::Completed;
        self.completed_at = Some(now);
        self.buyer_rating = Some(rating);
        self.buyer_review = Some(review.clone());
        let rev = Review {
            order_id: self.id,
            reviewer: self.buyer,
            reviewee: self.seller,
            rating,
            comment: review,
            created_at: now,
        };
        Ok((rev, seller_net, platform_fee))
    }

    /// Cancellation with a full refund to the buyer: either party may
    /// cancel from `Created` and `Accepted` always, and from
    /// `InProgress` only once the deadline has passed. Returns the
    /// refunded amount.
    pub fn cancel(&mut self, escrow: &mut Escrow, caller: AccountId, now: i64) -> (r: Result<
        u64,
        SolanaGigsError,
    >)
        requires
            old(self).wf(),
            old(escrow).wf(),
            old(escrow).order_id == old(self).id,
        ensures
            final(self).wf(),
            final(escrow).wf(),
            match r {
                Ok(refunded) => {
                    &&& (old(self).status is Created || old(self).status is Accepted || (old(self).status is InProgress && now > old(self).deadline))
                    &&& (caller == old(self).buyer || caller == old(self).seller)
                    &&& refunded == old(escrow).amount
                    &&& *final(escrow) == old(escrow).refund_state(now)
                    &&& final(escrow).spec_disbursed()
                    &&& final(escrow).amount == 0
                    &&& *final(self) == (Order {
                        status: OrderStatus::Cancelled,
                        cancelled_at: Some(now),
                        ..*old(self)
                    })
                },
                Err(e) => *final(self) == *old(self) && *final(escrow) == *old(escrow) && ((e
                    == SolanaGigsError::InvalidOrderStatus && !(old(self).status is Created || old(self).status is Accepted || old(self).status is InProgress)) || (e
                    == SolanaGigsError::CannotCancelOrder && old(self).status is InProgress && now
                    <= old(self).deadline) || (e == SolanaGigsError::Unauthorized && (old(self).status is Created || old(self).status is Accepted || (old(self).status is InProgress && now > old(self).deadline)) && caller != old(self).buyer
                    && caller != old(self).seller) || (old(escrow).refund_result() matches Err(ee)
                    && e == ee && (old(self).status is Created || old(self).status is Accepted || (
                old(self).status is InProgress && now > old(self).deadline)) && (caller == old(self).buyer || caller == old(self).seller))),
            },
    {
        match self.status {
            OrderStatus::Created => {},
            OrderStatus::Accepted => {},
            OrderStatus::InProgress => {
                if now <= self.deadline {
                    return Err(SolanaGigsError::CannotCancelOrder);
                }
            },
            _ => {
                return Err(SolanaGigsError::InvalidOrderStatus);
            },
        }
        if caller != self.buyer && caller != self.seller {
            return Err(SolanaGigsError::Unauthorized);
        }
        let refunded = match escrow.refund(now) {
            Ok(a) => a,
            Err(e) => {
                return Err(e);
            },
        };
        self.status = OrderStatus::Cancelled;
        self.cancelled_at = Some(now);
        Ok(refunded)
    }

    /// Raises a dispute: either party may, from `Accepted`,
    /// `InProgress` or `Delivered` — on a delivered order only while
    /// the dispute window is open. The reason is length-bounded, at
    /// most one dispute can be active (`Disputed` again fails with
    /// `DisputeAlreadyExists`), the escrow is frozen, and the order
    /// remembers where it stood so a dismissal can put it back.
    pub fn raise_dispute(
        &mut self,
        escrow: &mut Escrow,
        caller: AccountId,
        reason: String,
        evidence: Vec<String>,
        now: i64,
    ) -> (r: Result<Dispute, SolanaGigsError>)
        requires
            old(self).wf(),
            old(escrow).wf(),
            old(escrow).order_id == old(self).id,
            old(escrow).funded,
        ensures
            final(self).wf(),
            final(escrow).wf(),
            match r {
                Ok(d) => {
                    &&& MIN_DISPUTE_REASON_LEN <= reason@.len() <= MAX_DISPUTE_REASON_LEN
                    &&& evidence@.len() <= MAX_DISPUTE_EVIDENCE
                    &&& (old(self).status is Accepted || old(self).status is InProgress || old(self).status is Delivered)
                    &&& (old(self).status is Delivered ==> now <= old(escrow).dispute_deadline)
                    &&& (caller == old(self).buyer || caller == old(self).seller)
                    &&& *final(self) == (Order {
                        status: OrderStatus::Disputed,
                        disputed_at: Some(now),
                        status_before_dispute: Some(old(self).status),
                        ..*old(self)
                    })
                    &&& *final(escrow) == (Escrow { locked: true, ..*old(escrow) })
                    &&& d == (Dispute {
                        order_id: old(self).id,
                        raised_by: caller,
                        reason,
                        evidence,
                        status: DisputeStatus::Open,
                        arbiter: None::<AccountId>,
                        resolution: None::<String>,
                        buyer_refund: 0u64,
                        seller_payout: 0u64,
                        created_at: now,
                        resolved_at: None::<i64>,
                    })
                    &&& d.wf()
                },
                Err(e) => *final(self) == *old(self) && *final(escrow) == *old(escrow) && ((e
                    == SolanaGigsError::InvalidDisputeReason && !(MIN_DISPUTE_REASON_LEN
                    <= reason@.len() <= MAX_DISPUTE_REASON_LEN)) || (e
                    == SolanaGigsError::TooManyFiles && MIN_DISPUTE_REASON_LEN <= reason@.len()
                    <= MAX_DISPUTE_REASON_LEN && evidence@.len() > MAX_DISPUTE_EVIDENCE) || (e
                    == SolanaGigsError::DisputeAlreadyExists && MIN_DISPUTE_REASON_LEN
                    <= reason@.len() <= MAX_DISPUTE_REASON_LEN && evidence@.len()
                    <= MAX_DISPUTE_EVIDENCE && old(self).status is Disputed) || (e
                    == SolanaGigsError::InvalidOrderStatus && MIN_DISPUTE_REASON_LEN
                    <= reason@.len() <= MAX_DISPUTE_REASON_LEN && evidence@.len()
                    <= MAX_DISPUTE_EVIDENCE && !(old(self).status is Disputed) && !(old(self).status is Accepted || old(self).status is InProgress || old(self).status is Delivered)) || (e == SolanaGigsError::DisputePeriodExpired
                    && MIN_DISPUTE_REASON_LEN <= reason@.len() <= MAX_DISPUTE_REASON_LEN
                    && evidence@.len() <= MAX_DISPUTE_EVIDENCE && old(self).status is Delivered
                    && now > old(escrow).dispute_deadline) || (e == SolanaGigsError::Unauthorized
                    && MIN_DISPUTE_REASON_LEN <= reason@.len() <= MAX_DISPUTE_REASON_LEN
                    && evidence@.len() <= MAX_DISPUTE_EVIDENCE && (old(self).status is Accepted
                    || old(self).status is InProgress || old(self).status is Delivered) && (old(self).status is Delivered ==> now <= old(escrow).dispute_deadline) && caller != old(self).buyer && caller != old(self).seller)),
            },
    {
        let reason_len = reason.as_str().unicode_len();
        if reason_len < MIN_DISPUTE_REASON_LEN || reason_len > MAX_DISPUTE_REASON_LEN {
            return Err(SolanaGigsError::InvalidDisputeReason);
        }
        if evidence.len() > MAX_DISPUTE_EVIDENCE {
            return Err(SolanaGigsError::TooManyFiles);
        }
        match self.status {
            OrderStatus::Disputed => {
                return Err(SolanaGigsError::DisputeAlreadyExists);
            },
            OrderStatus::Accepted => {},
            OrderStatus::InProgress => {},
            OrderStatus::Delivered => {
                if now > escrow.dispute_deadline {
                    return Err(SolanaGigsError::DisputePeriodExpired);
                }
            },
            _ => {
                return Err(SolanaGigsError::InvalidOrderStatus);
            },
        }
        if caller != self.buyer && caller != self.seller {
            return Err(SolanaGigsError::Unauthorized);
        }
        self.status_before_dispute = Some(self.status);
        self.status = OrderStatus::Disputed;
        self.disputed_at = Some(now);
        escrow.lock();
        Ok(
            Dispute {
                order_id: self.id,
                raised_by: caller,
                reason,
                evidence,
                status: DisputeStatus::Open,
                arbiter: None,
                resolution: None,
                buyer_refund: 0,
                seller_payout: 0,
                created_at: now,
                resolved_at: None,
            },
        )
    }

    /// Time-gated disbursement to the seller that anyone may trigger —
    /// the path that keeps funds from being stuck when the buyer never
    /// acts. Once the escrow's dispute deadline has passed on an
    /// undisputed, uncancelled order, it completes the order and
    /// releases the escrow exactly as buyer approval would; once the
    /// escrow is disbursed it is an idempotent no-op (`Ok(None)`).
    pub fn auto_release(&mut self, escrow: &mut Escrow, now: i64) -> (r: Result<
        Option<(u64, u64)>,
        SolanaGigsError,
    >)
        requires
            old(self).wf(),
            old(escrow).wf(),
            old(escrow).order_id == old(self).id,
        ensures
            final(self).wf(),
            final(escrow).wf(),
            match r {
                Ok(p) => match p {
                    Some((seller_net, platform_fee)) => {
                        &&& !old(escrow).spec_disbursed()
                        &&& old(escrow).spec_can_auto_release(now)
                        &&& !old(self).status.spec_is_terminal()
                        &&& !(old(self).status is Disputed)
                        &&& seller_net == net_of(old(escrow).amount, old(escrow).fee_rate)
                        &&& platform_fee == fee_of(old(escrow).amount, old(escrow).fee_rate)
                        &&& seller_net + platform_fee == old(escrow).amount
                        &&& *final(escrow) == old(escrow).release_state(now)
                        &&& final(escrow).spec_disbursed()
                        &&& *final(self) == (Order {
                            status: OrderStatus::Completed,
                            completed_at: Some(now),
                            ..*old(self)
                        })
                    },
                    None => old(escrow).spec_disbursed() && *final(self) == *old(self) && *final(escrow) == *old(escrow),
                },
                Err(e) => *final(self) == *old(self) && *final(escrow) == *old(escrow) && ((e
                    == SolanaGigsError::InvalidEscrowState && !old(escrow).spec_disbursed() && !old(escrow).spec_can_auto_release(now)) || (e == SolanaGigsError::InvalidOrderStatus && old(escrow).spec_can_auto_release(now) && (old(self).status.spec_is_terminal() || old(self).status is Disputed))),
            },
    {
        if escrow.is_released() || escrow.is_refunded() {
            return Ok(None);
        }
        if !escrow.can_auto_release(now) {
            return Err(SolanaGigsError::InvalidEscrowState);
        }
        if self.status.is_terminal() {
            return Err(SolanaGigsError::InvalidOrderStatus);
        }
        match self.status {
            OrderStatus::Disputed => {
                return Err(SolanaGigsError::InvalidOrderStatus);
            },
            _ => {},
        }
        let (seller_net, platform_fee) = match escrow.release(now) {
            Ok(p) => p,
            Err(e) => {
                return Err(e);
            },
        };
        proof {
            crate::fees::lemma_fee_split_exact(old(escrow).amount, old(escrow).fee_rate);
        }
        self.status = OrderStatus::Completed;
        self.completed_at = Some(now);
        Ok(Some((seller_net, platform_fee)))
    }

    /// The order is in flight: work may still happen on it.
    pub open spec fn spec_is_active(self) -> bool {
        self.status is Created || self.status is Accepted || self.status is InProgress
            || self.status is Delivered
    }

    pub fn is_active(&self) -> (r: bool)
        ensures
            r == self.spec_is_active(),
    {
        match self.status {
            OrderStatus::Created => true,
            OrderStatus::Accepted => true,
            OrderStatus::InProgress => true,
            OrderStatus::Delivered => true,
            _ => false,
        }
    }

    pub fn can_be_cancelled(&self, now: i64) -> (r: bool)
        ensures
            r == (self.status is Created || self.status is Accepted || (
            self.status is InProgress && now > self.deadline)),
    {
        match self.status {
            OrderStatus::Created => true,
            OrderStatus::Accepted => true,
            OrderStatus::InProgress => now > self.deadline,
            _ => false,
        }
    }

    pub fn can_be_completed(&self) -> (r: bool)
        ensures
            r == (self.status is Delivered && (self.milestone_count > 0
                ==> self.completed_milestones == self.milestone_count)),
    {
        match self.status {
            OrderStatus::Delivered => self.milestone_count == 0 || self.completed_milestones
                == self.milestone_count,
            _ => false,
        }
    }

    pub fn can_request_revision(&self) -> (r: bool)
        ensures
            r == (self.status is Delivered && self.revision_count < self.max_revisions),
    {
        match self.status {
            OrderStatus::Delivered => self.revision_count < self.max_revisions,
            _ => false,
        }
    }

    pub fn can_raise_dispute(&self) -> (r: bool)
        ensures
            r == (self.status is Accepted || self.status is InProgress
                || self.status is Delivered),
    {
        match self.status {
            OrderStatus::Accepted => true,
            OrderStatus::InProgress => true,
            OrderStatus::Delivered => true,
            _ => false,
        }
    }

    /// In flight and past its delivery deadline.
    pub fn is_overdue(&self, now: i64) -> (r: bool)
        ensures
            r == (self.spec_is_active() && now > self.deadline),
    {
        self.is_active() && now > self.deadline
    }

    /// Coarse progress for display: milestone-billed orders report the
    /// approved share, plain orders report 0, 50 or 100 by status.
    pub fn progress_percentage(&self) -> (r: u8)
        requires
            self.wf(),
        ensures
            self.milestone_count == 0 ==> r == (if self.status is Completed {
                100int
            } else if self.status is InProgress || self.status is Delivered {
                50int
            } else {
                0int
            }),
            self.milestone_count > 0 ==> r == (self.completed_milestones as int) * 100 / (
            self.milestone_count as int),
            r <= 100,
    {
        if self.milestone_count == 0 {
            match self.status {
                OrderStatus::Completed => 100,
                OrderStatus::InProgress => 50,
                OrderStatus::Delivered => 50,
                _ => 0,
            }
        } else {
            proof {
                assert((self.completed_milestones as int) * 100 / (self.milestone_count as int)
                    <= 100) by (nonlinear_arith)
                    requires
                        0 < self.milestone_count,
                        self.completed_milestones <= self.milestone_count,
                ;
            }
            let pct: u16 = (self.completed_milestones as u16) * 100 / (self.milestone_count as u16);
            pct as u8
        }
    }
}

/// The revision allowance is an invariant: every well-formed order —
/// and every transition keeps orders well-formed — has a revision count
/// no greater than its maximum; a request at the limit fails with
/// `RevisionLimitExceeded` and leaves the order unchanged (see
/// `Order::request_revision`).
pub proof fn lemma_revision_count_bounded(o: Order)
    requires
        o.wf(),
    ensures
        o.revision_count <= o.max_revisions,
{
}

} // verus!
