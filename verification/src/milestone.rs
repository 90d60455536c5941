//! The milestone tracker: the optional sub-lifecycle for orders split
//! into partial deliverables. Each milestone moves through
//! `Pending -> InProgress -> Submitted -> Approved | Rejected`; an
//! approval pays out the milestone's amount from the escrow under a
//! running total that can never exceed the escrow's gross amount, and an
//! order with milestones cannot complete through the plain path until
//! every one of them is approved.

use vstd::prelude::*;

use crate::errors::SolanaGigsError;
use crate::escrow::{AccountId, Escrow};
use crate::fees::{fee_of, net_of};
use crate::listing::MAX_TITLE_LEN;
use crate::order::{Order, OrderStatus, MAX_MILESTONES};

verus! {

pub const MAX_DELIVERABLE_URL_LEN: usize = 200;

pub const MAX_REJECTION_REASON_LEN: usize = 200;

#[derive(Clone, Copy, Debug, PartialEq, Eq, Structural)]
pub enum MilestoneStatus {
    /// Defined, work not started.
    Pending,
    /// The seller is working on it.
    InProgress,
    /// Delivered and awaiting the buyer's verdict.
    Submitted,
    /// Terminal: approved and paid out.
    Approved,
    /// Terminal: turned down by the buyer.
    Rejected,
}

#[derive(Clone, Debug)]
pub struct Milestone {
    /// The order this milestone belongs to.
    pub order_id: u64,
    /// Position of this milestone within its order.
    pub milestone_id: u8,
    pub title: String,
    /// The part of the order's gross amount this milestone pays out.
    pub amount: u64,
    pub status: MilestoneStatus,
    pub due_date: i64,
    pub deliverable_url: Option<String>,
    pub rejection_reason: Option<String>,
    pub submitted_at: Option<i64>,
    pub approved_at: Option<i64>,
}

impl Milestone {
    pub open spec fn wf(self) -> bool {
        &&& self.title@.len() <= MAX_TITLE_LEN
        &&& self.amount > 0
        &&& (self.deliverable_url matches Some(u) ==> u@.len() <= MAX_DELIVERABLE_URL_LEN)
        &&& (self.rejection_reason matches Some(t) ==> t@.len() <= MAX_REJECTION_REASON_LEN)
        &&& (self.status is Submitted || self.status is Approved || self.status is Rejected
            ==> self.deliverable_url is Some && self.submitted_at is Some)
        &&& (self.status is Approved ==> self.approved_at is Some)
        &&& (self.status is Rejected ==> self.rejection_reason is Some)
    }

    /// Defines the next milestone of an order still being set up
    /// (`Created`): counted into the order, capped in number, with a
    /// bounded title and a positive amount.
    pub fn add(order: &mut Order, title: String, amount: u64, due_date: i64) -> (r: Result<
        Milestone,
        SolanaGigsError,
    >)
        requires
            old(order).wf(),
        ensures
            final(order).wf(),
            match r {
                Ok(m) => {
                    &&& title@.len() <= MAX_TITLE_LEN
                    &&& amount > 0
                    &&& old(order).status is Created
                    &&& old(order).milestone_count < MAX_MILESTONES
                    &&& *final(order) == (Order {
                        milestone_count: (old(order).milestone_count + 1) as u8,
                        ..*old(order)
                    })
                    &&& m == (Milestone {
                        order_id: old(order).id,
                        milestone_id: old(order).milestone_count,
                        title,
                        amount,
                        status: MilestoneStatus::Pending,
                        due_date,
                        deliverable_url: None::<String>,
                        rejection_reason: None::<String>,
                        submitted_at: None::<i64>,
                        approved_at: None::<i64>,
                    })
                    &&& m.wf()
                },
                Err(e) => *final(order) == *old(order) && ((e == SolanaGigsError::TitleTooLong
                    && title@.len() > MAX_TITLE_LEN) || (e == SolanaGigsError::InvalidPrice
                    && title@.len() <= MAX_TITLE_LEN && amount == 0) || (e
                    == SolanaGigsError::InvalidOrderStatus && title@.len() <= MAX_TITLE_LEN
                    && amount > 0 && !(old(order).status is Created)) || (e
                    == SolanaGigsError::InvalidMilestoneCount && title@.len() <= MAX_TITLE_LEN
                    && amount > 0 && old(order).status is Created && old(order).milestone_count
                    == MAX_MILESTONES)),
            },
    {
        if title.as_str().unicode_len() > MAX_TITLE_LEN {
            return Err(SolanaGigsError::TitleTooLong);
        }
        if amount == 0 {
            return Err(SolanaGigsError::InvalidPrice);
        }
        match order.status {
            OrderStatus::Created => {},
            _ => {
                return Err(SolanaGigsError::InvalidOrderStatus);
            },
        }
        if order.milestone_count >= MAX_MILESTONES {
            return Err(SolanaGigsError::InvalidMilestoneCount);
        }
        let milestone_id = order.milestone_count;
        order.milestone_count = order.milestone_count + 1;
        Ok(
            Milestone {
                order_id: order.id,
                milestone_id,
                title,
                amount,
                status: MilestoneStatus::Pending,
                due_date,
                deliverable_url: None,
                rejection_reason: None,
                submitted_at: None,
                approved_at: None,
            },
        )
    }

    /// The seller starts the milestone: `Pending -> InProgress`, on an
    /// order that is being worked (`Accepted` or `InProgress`).
    pub fn start(&mut self, order: &Order, caller: AccountId) -> (r: Result<(), SolanaGigsError>)
        requires
            old(self).wf(),
            order.wf(),
            old(self).order_id == order.id,
        ensures
            final(self).wf(),
            match r {
                Ok(()) => old(self).status is Pending && (order.status is Accepted
                    || order.status is InProgress) && caller == order.seller && *final(self)
                    == (Milestone { status: MilestoneStatus::InProgress, ..*old(self) }),
                Err(e) => *final(self) == *old(self) && ((e
                    == SolanaGigsError::InvalidMilestoneStatus && !(old(self).status is Pending))
                    || (e == SolanaGigsError::InvalidOrderStatus && old(self).status is Pending
                    && !(order.status is Accepted || order.status is InProgress)) || (e
                    == SolanaGigsError::Unauthorized && old(self).status is Pending && (
                order.status is Accepted || order.status is InProgress) && caller
                    != order.seller)),
            },
    {
        match self.status {
            MilestoneStatus::Pending => {},
            _ => {
                return Err(SolanaGigsError::InvalidMilestoneStatus);
            },
        }
        match order.status {
            OrderStatus::Accepted => {},
            OrderStatus::InProgress => {},
            _ => {
                return Err(SolanaGigsError::InvalidOrderStatus);
            },
        }
        if caller != order.seller {
            return Err(SolanaGigsError::Unauthorized);
        }
        self.status = MilestoneStatus::InProgress;
        Ok(())
    }

    /// The seller submits the milestone's deliverable:
    /// `InProgress -> Submitted`.
    pub fn submit(
        &mut self,
        order: &Order,
        caller: AccountId,
        deliverable_url: String,
        now: i64,
    ) -> (r: Result<(), SolanaGigsError>)
        requires
            old(self).wf(),
            order.wf(),
            old(self).order_id == order.id,
        ensures
            final(self).wf(),
            match r {
                Ok(()) => deliverable_url@.len() <= MAX_DELIVERABLE_URL_LEN && old(self).status is InProgress && caller == order.seller && *final(self) == (Milestone {
                    status: MilestoneStatus::Submitted,
                    deliverable_url: Some(deliverable_url),
                    submitted_at: Some(now),
                    ..*old(self)
                }),
                Err(e) => *final(self) == *old(self) && ((e
                    == SolanaGigsError::DeliveryMessageTooLong && deliverable_url@.len()
                    > MAX_DELIVERABLE_URL_LEN) || (e == SolanaGigsError::InvalidMilestoneStatus
                    && deliverable_url@.len() <= MAX_DELIVERABLE_URL_LEN && !(old(self).status is InProgress)) || (e == SolanaGigsError::Unauthorized
                    && deliverable_url@.len() <= MAX_DELIVERABLE_URL_LEN && old(self).status is InProgress && caller != order.seller)),
            },
    {
        if deliverable_url.as_str().unicode_len() > MAX_DELIVERABLE_URL_LEN {
            return Err(SolanaGigsError::DeliveryMessageTooLong);
        }
        match self.status {
            MilestoneStatus::InProgress => {},
            _ => {
                return Err(SolanaGigsError::InvalidMilestoneStatus);
            },
        }
        if caller != order.seller {
            return Err(SolanaGigsError::Unauthorized);
        }
        self.status = MilestoneStatus::Submitted;
        self.deliverable_url = Some(deliverable_url);
        self.submitted_at = Some(now);
        Ok(())
    }

    /// The buyer approves a submitted milestone: pays its amount out of
    /// the escrow (split into seller net and platform fee at the
    /// snapshotted rate) and counts it on the order. The escrow keeps
    /// the running total, so the sum of all approvals never exceeds the
    /// gross amount. Returns `(seller_net, platform_fee)`.
    pub fn approve(
        &mut self,
        order: &mut Order,
        escrow: &mut Escrow,
        caller: AccountId,
        now: i64,
    ) -> (r: Result<(u64, u64), SolanaGigsError>)
        requires
            old(self).wf(),
            old(order).wf(),
            old(escrow).wf(),
            old(self).order_id == old(order).id,
            old(escrow).order_id == old(order).id,
        ensures
            final(self).wf(),
            final(order).wf(),
            final(escrow).wf(),
            match r {
                Ok((seller_net, platform_fee)) => {
                    &&& old(self).status is Submitted
                    &&& (old(order).status is Accepted || old(order).status is InProgress || old(order).status is Delivered)
                    &&& caller == old(order).buyer
                    &&& old(order).completed_milestones < old(order).milestone_count
                    &&& old(escrow).partial_release_result(old(self).amount) is Ok
                    &&& seller_net == net_of(old(self).amount, old(escrow).fee_rate)
                    &&& platform_fee == fee_of(old(self).amount, old(escrow).fee_rate)
                    &&& seller_net + platform_fee == old(self).amount
                    &&& *final(escrow) == old(escrow).partial_release_state(old(self).amount)
                    &&& final(escrow).milestones_released == old(escrow).milestones_released + old(self).amount
                    &&& final(escrow).milestones_released <= final(escrow).gross
                    &&& *final(self) == (Milestone {
                        status: MilestoneStatus::Approved,
                        approved_at: Some(now),
                        ..*old(self)
                    })
                    &&& *final(order) == (Order {
                        completed_milestones: (old(order).completed_milestones + 1) as u8,
                        ..*old(order)
                    })
                },
                Err(e) => *final(self) == *old(self) && *final(order) == *old(order) && *final(escrow) == *old(escrow) && ((e == SolanaGigsError::InvalidMilestoneStatus && !(old(self).status is Submitted)) || (e == SolanaGigsError::InvalidOrderStatus && old(self).status is Submitted && !(old(order).status is Accepted || old(order).status is InProgress || old(order).status is Delivered)) || (e
                    == SolanaGigsError::Unauthorized && old(self).status is Submitted && (old(order).status is Accepted || old(order).status is InProgress || old(order).status is Delivered) && caller != old(order).buyer) || (e
                    == SolanaGigsError::InvalidMilestoneCount && old(self).status is Submitted && (
                old(order).status is Accepted || old(order).status is InProgress || old(order).status is Delivered) && caller == old(order).buyer && old(order).completed_milestones == old(order).milestone_count) || (old(escrow).partial_release_result(old(self).amount) matches Err(ee) && e == ee && old(self).status is Submitted && (old(order).status is Accepted || old(order).status is InProgress || old(order).status is Delivered) && caller == old(order).buyer && old(order).completed_milestones < old(order).milestone_count)),
            },
    {
        match self.status {
            MilestoneStatus::Submitted => {},
            _ => {
                return Err(SolanaGigsError::InvalidMilestoneStatus);
            },
        }
        match order.status {
            OrderStatus::Accepted => {},
            OrderStatus::InProgress => {},
            OrderStatus::Delivered => {},
            _ => {
                return Err(SolanaGigsError::InvalidOrderStatus);
            },
        }
        if caller != order.buyer {
            return Err(SolanaGigsError::Unauthorized);
        }
        if order.completed_milestones >= order.milestone_count {
            return Err(SolanaGigsError::InvalidMilestoneCount);
        }
        let (seller_net, platform_fee) = match escrow.partial_release(self.amount) {
            Ok(p) => p,
            Err(e) => {
                return Err(e);
            },
        };
        proof {
            crate::fees::lemma_fee_split_exact(old(self).amount, old(escrow).fee_rate);
        }
        self.status = MilestoneStatus::Approved;
        self.approved_at = Some(now);
        order.completed_milestones = order.completed_milestones + 1;
        Ok((seller_net, platform_fee))
    }

    /// The buyer turns a submitted milestone down, with a bounded
    /// reason; no funds move.
    pub fn reject(&mut self, order: &Order, caller: AccountId, reason: String) -> (r: Result<
        (),
        SolanaGigsError,
    >)
        requires
            old(self).wf(),
            order.wf(),
            old(self).order_id == order.id,
        ensures
            final(self).wf(),
            match r {
                Ok(()) => reason@.len() <= MAX_REJECTION_REASON_LEN && old(self).status is Submitted && caller == order.buyer && *final(self) == (Milestone {
                    status: MilestoneStatus::Rejected,
                    rejection_reason: Some(reason),
                    ..*old(self)
                }),
                Err(e) => *final(self) == *old(self) && ((e == SolanaGigsError::DescriptionTooLong
                    && reason@.len() > MAX_REJECTION_REASON_LEN) || (e
                    == SolanaGigsError::InvalidMilestoneStatus && reason@.len()
                    <= MAX_REJECTION_REASON_LEN && !(old(self).status is Submitted)) || (e
                    == SolanaGigsError::Unauthorized && reason@.len() <= MAX_REJECTION_REASON_LEN
                    && old(self).status is Submitted && caller != order.buyer)),
            },
    {
        if reason.as_str().unicode_len() > MAX_REJECTION_REASON_LEN {
            return Err(SolanaGigsError::DescriptionTooLong);
        }
        match self.status {
            MilestoneStatus::Submitted => {},
            _ => {
                return Err(SolanaGigsError::InvalidMilestoneStatus);
            },
        }
        if caller != order.buyer {
            return Err(SolanaGigsError::Unauthorized);
        }
        self.status = MilestoneStatus::Rejected;
        self.rejection_reason = Some(reason);
        Ok(())
    }

    /// Not yet submitted and past its due date.
    pub fn is_overdue(&self, now: i64) -> (r: bool)
        ensures
            r == ((self.status is Pending || self.status is InProgress) && now > self.due_date),
    {
        match self.status {
            MilestoneStatus::Pending => now > self.due_date,
            MilestoneStatus::InProgress => now > self.due_date,
            _ => false,
        }
    }

    pub fn can_be_approved(&self) -> (r: bool)
        ensures
            r == (self.status is Submitted),
    {
        match self.status {
            MilestoneStatus::Submitted => true,
            _ => false,
        }
    }

    /// Work on it is under way, so the seller may submit it.
    pub fn can_be_completed(&self) -> (r: bool)
        ensures
            r == (self.status is InProgress),
    {
        match self.status {
            MilestoneStatus::InProgress => true,
            _ => false,
        }
    }
}

} // verus!
