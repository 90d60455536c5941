//! Party profiles: the minimal running-average reputation and earnings
//! bookkeeping that the order state machine feeds after a terminal
//! success. These updates are fire-and-forget for the core: a failure
//! here never rolls back the already-committed order transition.

use vstd::prelude::*;

use crate::errors::SolanaGigsError;
use crate::escrow::AccountId;

verus! {

#[derive(Clone, Copy, Debug)]
pub struct Profile {
    pub owner: AccountId,
    /// Sum of all ratings received (each 1 to 5).
    pub rating_sum: u64,
    pub total_reviews: u32,
    pub total_earnings: u64,
    pub total_orders_completed: u32,
}

impl Profile {
    pub open spec fn wf(self) -> bool {
        self.rating_sum <= 5 * (self.total_reviews as int)
    }

    pub fn new(owner: AccountId) -> (p: Profile)
        ensures
            p == (Profile {
                owner,
                rating_sum: 0u64,
                total_reviews: 0u32,
                total_earnings: 0u64,
                total_orders_completed: 0u32,
            }),
            p.wf(),
    {
        Profile { owner, rating_sum: 0, total_reviews: 0, total_earnings: 0, total_orders_completed: 0 }
    }

    /// Feeds one completed order with its rating (1 to 5) into the
    /// running average; on a counter overflow nothing changes.
    pub fn record_completion(&mut self, rating: u8) -> (r: Result<(), SolanaGigsError>)
        requires
            old(self).wf(),
            1 <= rating <= 5,
        ensures
            final(self).wf(),
            match r {
                Ok(()) => old(self).total_reviews < u32::MAX && old(self).total_orders_completed
                    < u32::MAX && *final(self) == (Profile {
                    rating_sum: (old(self).rating_sum + rating) as u64,
                    total_reviews: (old(self).total_reviews + 1) as u32,
                    total_orders_completed: (old(self).total_orders_completed + 1) as u32,
                    ..*old(self)
                }),
                Err(e) => *final(self) == *old(self) && e == SolanaGigsError::ArithmeticOverflow
                    && (old(self).total_reviews == u32::MAX || old(self).total_orders_completed
                    == u32::MAX),
            },
    {
        let new_reviews = match self.total_reviews.checked_add(1) {
            Some(n) => n,
            None => {
                return Err(SolanaGigsError::ArithmeticOverflow);
            },
        };
        let new_completed = match self.total_orders_completed.checked_add(1) {
            Some(n) => n,
            None => {
                return Err(SolanaGigsError::ArithmeticOverflow);
            },
        };
        proof {
            assert(self.rating_sum + rating <= 5 * (new_reviews as int)) by (nonlinear_arith)
                requires
                    self.rating_sum <= 5 * (self.total_reviews as int),
                    rating <= 5,
                    new_reviews == self.total_reviews + 1,
            ;
        }
        self.rating_sum = self.rating_sum + (rating as u64);
        self.total_reviews = new_reviews;
        self.total_orders_completed = new_completed;
        Ok(())
    }

    /// Adds a payout to the lifetime earnings; on an overflow nothing
    /// changes.
    pub fn record_earnings(&mut self, amount: u64) -> (r: Result<(), SolanaGigsError>)
        requires
            old(self).wf(),
        ensures
            final(self).wf(),
            match r {
                Ok(()) => old(self).total_earnings + amount <= u64::MAX && *final(self) == (Profile {
                    total_earnings: (old(self).total_earnings + amount) as u64,
                    ..*old(self)
                }),
                Err(e) => *final(self) == *old(self) && e == SolanaGigsError::ArithmeticOverflow
                    && old(self).total_earnings + amount > u64::MAX,
            },
    {
        match self.total_earnings.checked_add(amount) {
            Some(t) => {
                self.total_earnings = t;
                Ok(())
            },
            None => Err(SolanaGigsError::ArithmeticOverflow),
        }
    }

    /// The average rating scaled by 100 (450 means 4.5 stars); 0 while
    /// no review was received. Never exceeds 500.
    pub fn average_rating_x100(&self) -> (r: u32)
        requires
            self.wf(),
        ensures
            r == if self.total_reviews == 0 {
                0int
            } else {
                (self.rating_sum as int) * 100 / (self.total_reviews as int)
            },
            r <= 500,
    {
        if self.total_reviews == 0 {
            return 0;
        }
        proof {
            assert((self.rating_sum as int) * 100 / (self.total_reviews as int) <= 500)
                by (nonlinear_arith)
                requires
                    self.rating_sum <= 5 * (self.total_reviews as int),
                    self.total_reviews > 0,
            ;
        }
        let avg_wide: u128 = (self.rating_sum as u128) * 100 / (self.total_reviews as u128);
        avg_wide as u32
    }
}

} // verus!
