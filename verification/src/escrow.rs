//! The escrow manager. An escrow is 1:1 with an order: it takes a single
//! deposit when the order is funded, snapshots the fee rate the buyer
//! agreed to, and is disbursed exactly once — by a release to the seller,
//! a refund to the buyer, or a split decided by dispute resolution.
//! Milestone billing may pay out parts of the balance before the terminal
//! disbursement, under a running total that never exceeds the gross
//! amount. Every operation is a pure transition: the caller moves the
//! value that the returned amounts name through the external custody
//! substrate.

use vstd::prelude::*;

use crate::errors::SolanaGigsError;
use crate::fees::{compute_fee, fee_of, net_of, MAX_FEE_RATE};

verus! {

/// A stable key naming an account held by the external ledger substrate.
pub type AccountId = u64;

#[derive(Clone, Copy, Debug)]
pub struct Escrow {
    /// The order this escrow belongs to.
    pub order_id: u64,
    pub buyer: AccountId,
    pub seller: AccountId,
    /// The custody balance still held: the gross amount less any
    /// milestone payouts, zeroed by the one terminal disbursement.
    pub amount: u64,
    /// The gross amount deposited at funding time; never changes after.
    pub gross: u64,
    /// The fee rate in basis points, snapshotted at funding time so a
    /// later platform configuration change cannot affect this escrow.
    pub fee_rate: u16,
    /// The platform fee of the terminal release, recorded at release.
    pub platform_fee: u64,
    /// The seller's net payout of the terminal release, recorded at
    /// release.
    pub seller_net: u64,
    /// Running total paid out for approved milestones.
    pub milestones_released: u64,
    /// Whether the single deposit has been made.
    pub funded: bool,
    /// Whether an open dispute has frozen this escrow.
    pub locked: bool,
    /// Whether the seller may be paid without buyer action once the
    /// dispute deadline has passed.
    pub auto_release_enabled: bool,
    /// End of the window during which a dispute may still be raised;
    /// auto-release opens only after it.
    pub dispute_deadline: i64,
    pub created_at: i64,
    /// Set by the terminal release (full or split), at most once ever.
    pub released_at: Option<i64>,
    /// Set by the terminal refund, at most once ever.
    pub refunded_at: Option<i64>,
}

impl Escrow {
    /// A terminal disbursement — release or refund — has happened.
    pub open spec fn spec_disbursed(self) -> bool {
        self.released_at is Some || self.refunded_at is Some
    }

    /// Well-formedness: the fee rate is a valid basis-point value; at
    /// most one of release and refund ever happens; the balance is
    /// zeroed by disbursement; before it, the balance and the milestone
    /// payouts partition the gross amount; an unfunded escrow holds
    /// nothing and cannot be locked.
    pub open spec fn wf(self) -> bool {
        &&& self.fee_rate <= MAX_FEE_RATE
        &&& !(self.released_at is Some && self.refunded_at is Some)
        &&& self.milestones_released <= self.gross
        &&& (self.spec_disbursed() ==> self.amount == 0 && self.funded)
        &&& (self.funded && !self.spec_disbursed() ==> self.amount + self.milestones_released
            == self.gross)
        &&& (!self.funded ==> self.amount == 0 && self.gross == 0 && !self.locked
            && self.milestones_released == 0)
    }

    /// A fresh, unfunded escrow for an order.
    pub fn new(order_id: u64, buyer: AccountId, seller: AccountId, created_at: i64) -> (e: Escrow)
        ensures
            e == (Escrow {
                order_id,
                buyer,
                seller,
                amount: 0,
                gross: 0,
                fee_rate: 0,
                platform_fee: 0,
                seller_net: 0,
                milestones_released: 0,
                funded: false,
                locked: false,
                auto_release_enabled: false,
                dispute_deadline: 0,
                created_at,
                released_at: None::<i64>,
                refunded_at: None::<i64>,
            }),
            e.wf(),
    {
        Escrow {
            order_id,
            buyer,
            seller,
            amount: 0,
            gross: 0,
            fee_rate: 0,
            platform_fee: 0,
            seller_net: 0,
            milestones_released: 0,
            funded: false,
            locked: false,
            auto_release_enabled: false,
            dispute_deadline: 0,
            created_at,
            released_at: None,
            refunded_at: None,
        }
    }

    /// The single deposit: fails on a zero amount, an invalid fee rate,
    /// or an escrow that is already funded (no top-ups). Snapshots the
    /// fee rate, the dispute deadline and the auto-release flag.
    pub fn fund(
        &mut self,
        amount: u64,
        fee_rate: u16,
        dispute_deadline: i64,
        auto_release_enabled: bool,
    ) -> (r: Result<(), SolanaGigsError>)
        requires
            old(self).wf(),
        ensures
            final(self).wf(),
            match r {
                Ok(()) => !old(self).funded && amount > 0 && fee_rate <= MAX_FEE_RATE
                    && *final(self) == (Escrow {
                        amount,
                        gross: amount,
                        fee_rate,
                        dispute_deadline,
                        auto_release_enabled,
                        funded: true,
                        ..*old(self)
                    }),
                Err(e) => *final(self) == *old(self) && (
                    (e == SolanaGigsError::InvalidEscrowState && old(self).funded)
                    || (e == SolanaGigsError::InvalidTokenAmount && !old(self).funded
                        && amount == 0)
                    || (e == SolanaGigsError::InvalidPlatformFee && !old(self).funded
                        && amount > 0 && fee_rate > MAX_FEE_RATE)
                ),
            },
    {
        if self.funded {
            return Err(SolanaGigsError::InvalidEscrowState);
        }
        if amount == 0 {
            return Err(SolanaGigsError::InvalidTokenAmount);
        }
        if fee_rate > MAX_FEE_RATE {
            return Err(SolanaGigsError::InvalidPlatformFee);
        }
        self.amount = amount;
        self.gross = amount;
        self.fee_rate = fee_rate;
        self.dispute_deadline = dispute_deadline;
        self.auto_release_enabled = auto_release_enabled;
        self.funded = true;
        Ok(())
    }

    /// What a full release returns: the seller's net payout and the
    /// platform fee, computed from the remaining balance at the
    /// snapshotted rate — or the error barring it.
    pub open spec fn release_result(self) -> Result<(u64, u64), SolanaGigsError> {
        if self.spec_disbursed() {
            Err(SolanaGigsError::EscrowAlreadyReleased)
        } else if !self.funded || self.locked {
            Err(SolanaGigsError::InvalidEscrowState)
        } else {
            Ok((net_of(self.amount, self.fee_rate) as u64, fee_of(self.amount, self.fee_rate) as u64))
        }
    }

    /// The escrow after a release at `now`: unchanged on failure.
    pub open spec fn release_state(self, now: i64) -> Escrow {
        if self.release_result() is Ok {
            Escrow {
                amount: 0,
                platform_fee: fee_of(self.amount, self.fee_rate) as u64,
                seller_net: net_of(self.amount, self.fee_rate) as u64,
                released_at: Some(now),
                ..self
            }
        } else {
            self
        }
    }

    /// Full release to the seller, net of the platform fee; zeroes the
    /// balance and marks the one terminal disbursement. Returns
    /// `(seller_net, platform_fee)`.
    pub fn release(&mut self, now: i64) -> (r: Result<(u64, u64), SolanaGigsError>)
        requires
            old(self).wf(),
        ensures
            final(self).wf(),
            r == old(self).release_result(),
            *final(self) == old(self).release_state(now),
    {
        if self.released_at.is_some() || self.refunded_at.is_some() {
            return Err(SolanaGigsError::EscrowAlreadyReleased);
        }
        if !self.funded || self.locked {
            return Err(SolanaGigsError::InvalidEscrowState);
        }
        proof {
            crate::fees::lemma_fee_bounds(self.amount, self.fee_rate);
        }
        let (fee, net) = compute_fee(self.amount, self.fee_rate);
        self.platform_fee = fee;
        self.seller_net = net;
        self.amount = 0;
        self.released_at = Some(now);
        Ok((net, fee))
    }

    /// What a refund returns: the full remaining balance back to the
    /// buyer — or the error barring it.
    pub open spec fn refund_result(self) -> Result<u64, SolanaGigsError> {
        if self.spec_disbursed() {
            Err(SolanaGigsError::EscrowAlreadyReleased)
        } else if !self.funded || self.locked {
            Err(SolanaGigsError::InvalidEscrowState)
        } else {
            Ok(self.amount)
        }
    }

    /// The escrow after a refund at `now`: unchanged on failure.
    pub open spec fn refund_state(self, now: i64) -> Escrow {
        if self.refund_result() is Ok {
            Escrow { amount: 0, refunded_at: Some(now), ..self }
        } else {
            self
        }
    }

    /// Full refund to the buyer; zeroes the balance and marks the one
    /// terminal disbursement. Returns the refunded amount.
    pub fn refund(&mut self, now: i64) -> (r: Result<u64, SolanaGigsError>)
        requires
            old(self).wf(),
        ensures
            final(self).wf(),
            r == old(self).refund_result(),
            *final(self) == old(self).refund_state(now),
    {
        if self.released_at.is_some() || self.refunded_at.is_some() {
            return Err(SolanaGigsError::EscrowAlreadyReleased);
        }
        if !self.funded || self.locked {
            return Err(SolanaGigsError::InvalidEscrowState);
        }
        let refunded = self.amount;
        self.amount = 0;
        self.refunded_at = Some(now);
        Ok(refunded)
    }

    /// What a split release returns — or the error barring it. A split
    /// is the dispute-resolution path, so a dispute lock does not bar
    /// it; any remainder of the balance is forfeited to the platform.
    pub open spec fn split_release_result(self, buyer_refund: u64, seller_payout: u64) -> Result<
        (),
        SolanaGigsError,
    > {
        if self.spec_disbursed() {
            Err(SolanaGigsError::EscrowAlreadyReleased)
        } else if !self.funded {
            Err(SolanaGigsError::InvalidEscrowState)
        } else if buyer_refund + seller_payout > self.amount {
            Err(SolanaGigsError::InsufficientFunds)
        } else {
            Ok(())
        }
    }

    /// The escrow after a split release at `now`: unchanged on failure.
    /// The forfeited remainder is recorded as the platform fee.
    pub open spec fn split_release_state(self, buyer_refund: u64, seller_payout: u64, now: i64) -> Escrow {
        if self.split_release_result(buyer_refund, seller_payout) is Ok {
            Escrow {
                amount: 0,
                platform_fee: (self.amount - buyer_refund - seller_payout) as u64,
                seller_net: seller_payout,
                released_at: Some(now),
                ..self
            }
        } else {
            self
        }
    }

    /// Disburses `buyer_refund` to the buyer and `seller_payout` to the
    /// seller as one terminal disbursement, as dispute resolution
    /// decided; the remainder, if any, is forfeited to the platform.
    pub fn split_release(&mut self, buyer_refund: u64, seller_payout: u64, now: i64) -> (r: Result<
        (),
        SolanaGigsError,
    >)
        requires
            old(self).wf(),
        ensures
            final(self).wf(),
            r == old(self).split_release_result(buyer_refund, seller_payout),
            *final(self) == old(self).split_release_state(buyer_refund, seller_payout, now),
    {
        if self.released_at.is_some() || self.refunded_at.is_some() {
            return Err(SolanaGigsError::EscrowAlreadyReleased);
        }
        if !self.funded {
            return Err(SolanaGigsError::InvalidEscrowState);
        }
        let total = match buyer_refund.checked_add(seller_payout) {
            Some(t) => t,
            None => {
                return Err(SolanaGigsError::InsufficientFunds);
            },
        };
        if total > self.amount {
            return Err(SolanaGigsError::InsufficientFunds);
        }
        self.platform_fee = self.amount - total;
        self.seller_net = seller_payout;
        self.amount = 0;
        self.released_at = Some(now);
        Ok(())
    }

    /// What a milestone payout of `part` returns: the seller's net and
    /// the platform fee for that part, at the snapshotted rate — or the
    /// error barring it.
    pub open spec fn partial_release_result(self, part: u64) -> Result<(u64, u64), SolanaGigsError> {
        if self.spec_disbursed() {
            Err(SolanaGigsError::EscrowAlreadyReleased)
        } else if !self.funded || self.locked {
            Err(SolanaGigsError::InvalidEscrowState)
        } else if part > self.amount {
            Err(SolanaGigsError::InsufficientFunds)
        } else {
            Ok((net_of(part, self.fee_rate) as u64, fee_of(part, self.fee_rate) as u64))
        }
    }

    /// The escrow after a milestone payout of `part`: unchanged on
    /// failure; otherwise the balance drops by `part` and the running
    /// milestone total grows by it, so their sum still equals the gross
    /// amount.
    pub open spec fn partial_release_state(self, part: u64) -> Escrow {
        if self.partial_release_result(part) is Ok {
            Escrow {
                amount: (self.amount - part) as u64,
                milestones_released: (self.milestones_released + part) as u64,
                ..self
            }
        } else {
            self
        }
    }

    /// Pays out `part` of the balance for an approved milestone, split
    /// into `(seller_net, platform_fee)` at the snapshotted rate. Not a
    /// terminal disbursement: the sum of all milestone payouts can never
    /// exceed the gross amount, and the rest of the balance remains.
    pub fn partial_release(&mut self, part: u64) -> (r: Result<(u64, u64), SolanaGigsError>)
        requires
            old(self).wf(),
        ensures
            final(self).wf(),
            r == old(self).partial_release_result(part),
            *final(self) == old(self).partial_release_state(part),
    {
        if self.released_at.is_some() || self.refunded_at.is_some() {
            return Err(SolanaGigsError::EscrowAlreadyReleased);
        }
        if !self.funded || self.locked {
            return Err(SolanaGigsError::InvalidEscrowState);
        }
        if part > self.amount {
            return Err(SolanaGigsError::InsufficientFunds);
        }
        proof {
            crate::fees::lemma_fee_bounds(part, self.fee_rate);
        }
        let (fee, net) = compute_fee(part, self.fee_rate);
        self.amount = self.amount - part;
        self.milestones_released = self.milestones_released + part;
        Ok((net, fee))
    }

    /// Auto-release is available once the dispute deadline has passed on
    /// an escrow that enabled it and that no dispute or disbursement has
    /// touched.
    pub open spec fn spec_can_auto_release(self, now: i64) -> bool {
        &&& self.auto_release_enabled
        &&& now > self.dispute_deadline
        &&& self.funded
        &&& !self.locked
        &&& !self.spec_disbursed()
    }

    pub fn can_auto_release(&self, now: i64) -> (r: bool)
        ensures
            r == self.spec_can_auto_release(now),
    {
        self.auto_release_enabled && now > self.dispute_deadline && self.funded && !self.locked
            && !self.released_at.is_some() && !self.refunded_at.is_some()
    }

    /// Seconds of the dispute window still open at `now`; 0 once it
    /// has elapsed.
    pub fn remaining_dispute_time(&self, now: i64) -> (r: i64)
        requires
            0 <= now <= crate::order::MAX_TIMESTAMP,
            0 <= self.dispute_deadline <= crate::order::MAX_TIMESTAMP,
        ensures
            r == if now < self.dispute_deadline {
                self.dispute_deadline - now
            } else {
                0int
            },
    {
        if now < self.dispute_deadline {
            self.dispute_deadline - now
        } else {
            0
        }
    }

    pub fn is_released(&self) -> (r: bool)
        ensures
            r == (self.released_at is Some),
    {
        self.released_at.is_some()
    }

    pub fn is_refunded(&self) -> (r: bool)
        ensures
            r == (self.refunded_at is Some),
    {
        self.refunded_at.is_some()
    }

    /// Restarts the dispute window, as a delivery does.
    pub fn set_dispute_deadline(&mut self, deadline: i64)
        requires
            old(self).wf(),
        ensures
            final(self).wf(),
            *final(self) == (Escrow { dispute_deadline: deadline, ..*old(self) }),
    {
        self.dispute_deadline = deadline;
    }

    /// Freezes the escrow while a dispute is open.
    pub fn lock(&mut self)
        requires
            old(self).wf(),
            old(self).funded,
        ensures
            final(self).wf(),
            *final(self) == (Escrow { locked: true, ..*old(self) }),
    {
        self.locked = true;
    }

    /// Lifts the dispute freeze.
    pub fn unlock(&mut self)
        requires
            old(self).wf(),
        ensures
            final(self).wf(),
            *final(self) == (Escrow { locked: false, ..*old(self) }),
    {
        self.locked = false;
    }
}

/// Disbursement is exclusive and happens at most once. A successful
/// release, refund or split release leaves a disbursed escrow; on a
/// disbursed escrow every further release, refund or split release fails
/// with `EscrowAlreadyReleased` and leaves the escrow — its amount
/// included — unchanged, whatever the arguments.
pub proof fn lemma_disbursement_at_most_once(e: Escrow)
    ensures
        forall|now: i64| e.release_result() is Ok ==> (#[trigger] e.release_state(
            now,
        )).spec_disbursed(),
        forall|now: i64| e.refund_result() is Ok ==> (#[trigger] e.refund_state(
            now,
        )).spec_disbursed(),
        forall|br: u64, sp: u64, now: i64|
            e.split_release_result(br, sp) is Ok ==> (#[trigger] e.split_release_state(
                br,
                sp,
                now,
            )).spec_disbursed(),
        e.spec_disbursed() ==> {
            &&& e.release_result() == Err::<(u64, u64), SolanaGigsError>(
                SolanaGigsError::EscrowAlreadyReleased,
            )
            &&& e.refund_result() == Err::<u64, SolanaGigsError>(
                SolanaGigsError::EscrowAlreadyReleased,
            )
            &&& forall|br: u64, sp: u64| #[trigger] e.split_release_result(br, sp) == Err::<
                (),
                SolanaGigsError,
            >(SolanaGigsError::EscrowAlreadyReleased)
            &&& forall|now: i64| #[trigger] e.release_state(now) == e
            &&& forall|now: i64| #[trigger] e.refund_state(now) == e
            &&& forall|br: u64, sp: u64, now: i64| #[trigger] e.split_release_state(br, sp, now)
                == e
        },
{
}

} // verus!
