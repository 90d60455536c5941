//! The dispute resolver. A dispute is raised against an in-flight order
//! (see `Order::raise_dispute`), may be assigned an arbiter, and ends
//! exactly once: resolved — splitting the frozen escrow between buyer
//! and seller by a refund percentage — or dismissed without fund
//! movement, returning the order to where it stood.

use vstd::prelude::*;

use crate::errors::SolanaGigsError;
use crate::escrow::{AccountId, Escrow};
use crate::fees::{payout_of, refund_of};
use crate::order::{Order, OrderStatus};

verus! {

pub const MAX_RESOLUTION_LEN: usize = 500;

#[derive(Clone, Copy, Debug, PartialEq, Eq, Structural)]
pub enum DisputeStatus {
    /// Raised, not yet picked up.
    Open,
    /// An arbiter has been assigned.
    UnderReview,
    /// Terminal: decided, the escrow split and disbursed.
    Resolved,
    /// Terminal: closed without fund movement.
    Dismissed,
}

#[derive(Clone, Debug)]
pub struct Dispute {
    /// The order this dispute was raised against.
    pub order_id: u64,
    /// The buyer or the seller of that order.
    pub raised_by: AccountId,
    pub reason: String,
    pub evidence: Vec<String>,
    pub status: DisputeStatus,
    pub arbiter: Option<AccountId>,
    pub resolution: Option<String>,
    /// What the resolution returned to the buyer; 0 until resolved.
    pub buyer_refund: u64,
    /// What the resolution paid the seller; 0 until resolved.
    pub seller_payout: u64,
    pub created_at: i64,
    pub resolved_at: Option<i64>,
}

impl Dispute {
    pub open spec fn wf(self) -> bool {
        &&& crate::order::MIN_DISPUTE_REASON_LEN <= self.reason@.len()
            <= crate::order::MAX_DISPUTE_REASON_LEN
        &&& self.evidence@.len() <= crate::order::MAX_DISPUTE_EVIDENCE
        &&& (self.resolution matches Some(t) ==> t@.len() <= MAX_RESOLUTION_LEN)
        &&& (self.status is Open ==> self.arbiter is None)
        &&& (self.status is Open || self.status is UnderReview ==> self.resolution is None
            && self.resolved_at is None && self.buyer_refund == 0 && self.seller_payout == 0)
        &&& (self.status is Resolved ==> self.resolution is Some && self.resolved_at is Some)
        &&& (self.status is Dismissed ==> self.resolved_at is Some)
    }

    /// The dispute is still in flight.
    pub open spec fn spec_is_active(self) -> bool {
        self.status is Open || self.status is UnderReview
    }

    pub fn is_active(&self) -> (r: bool)
        ensures
            r == self.spec_is_active(),
    {
        match self.status {
            DisputeStatus::Open => true,
            DisputeStatus::UnderReview => true,
            _ => false,
        }
    }

    pub fn is_resolved(&self) -> (r: bool)
        ensures
            r == (self.status is Resolved),
    {
        match self.status {
            DisputeStatus::Resolved => true,
            _ => false,
        }
    }

    /// What the resolution moved out of the escrow in all.
    pub fn total_disputed_amount(&self) -> (r: Option<u64>)
        ensures
            match r {
                Some(t) => self.buyer_refund + self.seller_payout <= u64::MAX && t
                    == self.buyer_refund + self.seller_payout,
                None => self.buyer_refund + self.seller_payout > u64::MAX,
            },
    {
        self.buyer_refund.checked_add(self.seller_payout)
    }

    /// The administrative step that moves an open dispute under review
    /// by an arbiter.
    pub fn assign_arbiter(&mut self, order: &mut Order, arbiter: AccountId) -> (r: Result<
        (),
        SolanaGigsError,
    >)
        requires
            old(self).wf(),
            old(order).wf(),
            old(self).order_id == old(order).id,
        ensures
            final(self).wf(),
            final(order).wf(),
            match r {
                Ok(()) => old(self).status is Open && old(order).status is Disputed && *final(self)
                    == (Dispute {
                    status: DisputeStatus::UnderReview,
                    arbiter: Some(arbiter),
                    ..*old(self)
                }) && *final(order) == (Order { arbiter: Some(arbiter), ..*old(order) }),
                Err(e) => *final(self) == *old(self) && *final(order) == *old(order) && ((e
                    == SolanaGigsError::InvalidDisputeStatus && !(old(self).status is Open)) || (e
                    == SolanaGigsError::InvalidOrderStatus && old(self).status is Open && !(old(order).status is Disputed))),
            },
    {
        match self.status {
            DisputeStatus::Open => {},
            _ => {
                return Err(SolanaGigsError::InvalidDisputeStatus);
            },
        }
        match order.status {
            OrderStatus::Disputed => {},
            _ => {
                return Err(SolanaGigsError::InvalidOrderStatus);
            },
        }
        self.status = DisputeStatus::UnderReview;
        self.arbiter = Some(arbiter);
        order.arbiter = Some(arbiter);
        Ok(())
    }

    /// Resolution: splits the escrow's remaining balance between buyer
    /// and seller by `refund_percentage` (0 to 100), disburses it as
    /// the one terminal disbursement, unfreezes the escrow, records the
    /// amounts on the dispute, and moves the order to `Resolved`. The
    /// two amounts always partition the balance, so their sum never
    /// exceeds the escrow's original gross amount. Returns
    /// `(buyer_refund, seller_payout)`.
    pub fn resolve(
        &mut self,
        order: &mut Order,
        escrow: &mut Escrow,
        resolution: String,
        refund_percentage: u8,
        now: i64,
    ) -> (r: Result<(u64, u64), SolanaGigsError>)
        requires
            old(self).wf(),
            old(order).wf(),
            old(escrow).wf(),
            old(self).order_id == old(order).id,
            old(escrow).order_id == old(order).id,
        ensures
            final(self).wf(),
            final(order).wf(),
            final(escrow).wf(),
            match r {
                Ok((buyer_refund, seller_payout)) => {
                    &&& refund_percentage <= 100
                    &&& resolution@.len() <= MAX_RESOLUTION_LEN
                    &&& old(self).spec_is_active()
                    &&& old(order).status is Disputed
                    &&& buyer_refund == refund_of(old(escrow).amount, refund_percentage)
                    &&& seller_payout == payout_of(old(escrow).amount, refund_percentage)
                    &&& buyer_refund + seller_payout == old(escrow).amount
                    &&& buyer_refund + seller_payout <= old(escrow).gross
                    &&& *final(escrow) == (Escrow {
                        locked: false,
                        ..old(escrow).split_release_state(buyer_refund, seller_payout, now)
                    })
                    &&& final(escrow).spec_disbursed()
                    &&& final(escrow).amount == 0
                    &&& *final(self) == (Dispute {
                        status: DisputeStatus::Resolved,
                        resolution: Some(resolution),
                        buyer_refund,
                        seller_payout,
                        resolved_at: Some(now),
                        ..*old(self)
                    })
                    &&& *final(order) == (Order {
                        status: OrderStatus::Resolved,
                        status_before_dispute: None::<OrderStatus>,
                        ..*old(order)
                    })
                },
                Err(e) => *final(self) == *old(self) && *final(order) == *old(order) && *final(escrow) == *old(escrow) && ((e == SolanaGigsError::InvalidRefundPercentage
                    && refund_percentage > 100) || (e == SolanaGigsError::InvalidDisputeResolution
                    && refund_percentage <= 100 && resolution@.len() > MAX_RESOLUTION_LEN) || (e
                    == SolanaGigsError::InvalidDisputeStatus && refund_percentage <= 100
                    && resolution@.len() <= MAX_RESOLUTION_LEN && !old(self).spec_is_active()) || (
                e == SolanaGigsError::InvalidOrderStatus && refund_percentage <= 100
                    && resolution@.len() <= MAX_RESOLUTION_LEN && old(self).spec_is_active() && !(
                old(order).status is Disputed)) || (old(escrow).split_release_result(
                    refund_of(old(escrow).amount, refund_percentage) as u64,
                    payout_of(old(escrow).amount, refund_percentage) as u64,
                ) matches Err(ee) && e == ee && refund_percentage <= 100 && resolution@.len()
                    <= MAX_RESOLUTION_LEN && old(self).spec_is_active() && old(order).status is Disputed)),
            },
    {
        if refund_percentage > 100 {
            return Err(SolanaGigsError::InvalidRefundPercentage);
        }
        if resolution.as_str().unicode_len() > MAX_RESOLUTION_LEN {
            return Err(SolanaGigsError::InvalidDisputeResolution);
        }
        match self.status {
            DisputeStatus::Open => {},
            DisputeStatus::UnderReview => {},
            _ => {
                return Err(SolanaGigsError::InvalidDisputeStatus);
            },
        }
        match order.status {
            OrderStatus::Disputed => {},
            _ => {
                return Err(SolanaGigsError::InvalidOrderStatus);
            },
        }
        let (buyer_refund, seller_payout) = crate::fees::compute_refund_split(
            escrow.amount,
            refund_percentage,
        );
        match escrow.split_release(buyer_refund, seller_payout, now) {
            Ok(()) => {},
            Err(e) => {
                return Err(e);
            },
        }
        escrow.unlock();
        self.status = DisputeStatus::Resolved;
        self.resolution = Some(resolution);
        self.buyer_refund = buyer_refund;
        self.seller_payout = seller_payout;
        self.resolved_at = Some(now);
        order.status = OrderStatus::Resolved;
        order.status_before_dispute = None;
        Ok((buyer_refund, seller_payout))
    }

    /// Dismissal: closes the dispute without fund movement, unfreezes
    /// the escrow, and returns the order to where it stood when the
    /// dispute was raised, so the normal lifecycle can continue.
    pub fn dismiss(&mut self, order: &mut Order, escrow: &mut Escrow, now: i64) -> (r: Result<
        (),
        SolanaGigsError,
    >)
        requires
            old(self).wf(),
            old(order).wf(),
            old(escrow).wf(),
            old(self).order_id == old(order).id,
            old(escrow).order_id == old(order).id,
        ensures
            final(self).wf(),
            final(order).wf(),
            final(escrow).wf(),
            match r {
                Ok(()) => {
                    &&& old(self).spec_is_active()
                    &&& old(order).status is Disputed
                    &&& *final(self) == (Dispute {
                        status: DisputeStatus::Dismissed,
                        resolved_at: Some(now),
                        ..*old(self)
                    })
                    &&& *final(escrow) == (Escrow { locked: false, ..*old(escrow) })
                    &&& *final(order) == (Order {
                        status: old(order).status_before_dispute->0,
                        status_before_dispute: None::<OrderStatus>,
                        ..*old(order)
                    })
                    &&& !final(order).status.spec_is_terminal()
                },
                Err(e) => *final(self) == *old(self) && *final(order) == *old(order) && *final(escrow) == *old(escrow) && ((e == SolanaGigsError::InvalidDisputeStatus && !old(self).spec_is_active()) || (e == SolanaGigsError::InvalidOrderStatus && old(self).spec_is_active() && !(old(order).status is Disputed))),
            },
    {
        match self.status {
            DisputeStatus::Open => {},
            DisputeStatus::UnderReview => {},
            _ => {
                return Err(SolanaGigsError::InvalidDisputeStatus);
            },
        }
        match order.status {
            OrderStatus::Disputed => {},
            _ => {
                return Err(SolanaGigsError::InvalidOrderStatus);
            },
        }
        let restored = match order.status_before_dispute {
            Some(s) => s,
            None => {
                // unreachable: a disputed order always remembers its
                // pre-dispute status
                return Err(SolanaGigsError::InvalidOrderStatus);
            },
        };
        order.status = restored;
        order.status_before_dispute = None;
        escrow.unlock();
        self.status = DisputeStatus::Dismissed;
        self.resolved_at = Some(now);
        Ok(())
    }
}

/// What a resolution disburses never exceeds the escrow's original gross
/// amount: for every undisbursed escrow and every refund percentage, the
/// buyer's and the seller's shares partition the remaining balance, and
/// that balance is at most the gross amount.
pub proof fn lemma_resolution_bounded_by_gross(e: Escrow, refund_percentage: u8)
    requires
        e.wf(),
        e.funded,
        !e.spec_disbursed(),
        refund_percentage <= 100,
    ensures
        refund_of(e.amount, refund_percentage) + payout_of(e.amount, refund_percentage) == e.amount,
        refund_of(e.amount, refund_percentage) + payout_of(e.amount, refund_percentage) <= e.gross,
{
    crate::fees::lemma_refund_split_exact(e.amount, refund_percentage);
}

} // verus!
