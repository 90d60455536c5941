//! The marketplace configuration: the platform's fee rate (read at
//! funding time and snapshotted into each escrow, never re-read at
//! disbursement) and the global counters.

use vstd::prelude::*;

use crate::errors::SolanaGigsError;
use crate::escrow::AccountId;
use crate::fees::MAX_FEE_RATE;

verus! {

#[derive(Clone, Copy, Debug)]
pub struct Marketplace {
    pub authority: AccountId,
    /// The platform's cut in basis points (250 means 2.5 percent).
    pub fee_rate: u16,
    pub total_listings: u64,
    pub total_orders: u64,
    /// Sum of the gross amounts of all orders ever funded.
    pub total_volume: u64,
}

impl Marketplace {
    pub open spec fn wf(self) -> bool {
        self.fee_rate <= MAX_FEE_RATE
    }

    /// Initializes the marketplace; fails on a fee rate above 100
    /// percent.
    pub fn new(authority: AccountId, fee_rate: u16) -> (r: Result<Marketplace, SolanaGigsError>)
        ensures
            match r {
                Ok(m) => fee_rate <= MAX_FEE_RATE && m == (Marketplace {
                    authority,
                    fee_rate,
                    total_listings: 0u64,
                    total_orders: 0u64,
                    total_volume: 0u64,
                }) && m.wf(),
                Err(e) => e == SolanaGigsError::InvalidPlatformFee && fee_rate > MAX_FEE_RATE,
            },
    {
        if fee_rate > MAX_FEE_RATE {
            return Err(SolanaGigsError::InvalidPlatformFee);
        }
        Ok(
            Marketplace {
                authority,
                fee_rate,
                total_listings: 0,
                total_orders: 0,
                total_volume: 0,
            },
        )
    }

    /// Only the authority may change the fee rate; escrows already
    /// funded keep the rate they snapshotted.
    pub fn set_fee_rate(&mut self, caller: AccountId, fee_rate: u16) -> (r: Result<
        (),
        SolanaGigsError,
    >)
        requires
            old(self).wf(),
        ensures
            final(self).wf(),
            match r {
                Ok(()) => caller == old(self).authority && fee_rate <= MAX_FEE_RATE && *final(self)
                    == (Marketplace { fee_rate, ..*old(self) }),
                Err(e) => *final(self) == *old(self) && ((e == SolanaGigsError::Unauthorized
                    && caller != old(self).authority) || (e == SolanaGigsError::InvalidPlatformFee
                    && caller == old(self).authority && fee_rate > MAX_FEE_RATE)),
            },
    {
        if caller != self.authority {
            return Err(SolanaGigsError::Unauthorized);
        }
        if fee_rate > MAX_FEE_RATE {
            return Err(SolanaGigsError::InvalidPlatformFee);
        }
        self.fee_rate = fee_rate;
        Ok(())
    }

    /// Counts one more listing.
    pub fn record_listing(&mut self) -> (r: Result<(), SolanaGigsError>)
        requires
            old(self).wf(),
        ensures
            final(self).wf(),
            match r {
                Ok(()) => old(self).total_listings < u64::MAX && *final(self) == (Marketplace {
                    total_listings: (old(self).total_listings + 1) as u64,
                    ..*old(self)
                }),
                Err(e) => *final(self) == *old(self) && e == SolanaGigsError::ArithmeticOverflow
                    && old(self).total_listings == u64::MAX,
            },
    {
        match self.total_listings.checked_add(1) {
            Some(n) => {
                self.total_listings = n;
                Ok(())
            },
            None => Err(SolanaGigsError::ArithmeticOverflow),
        }
    }

    /// Counts one more funded order of `amount` into the totals; on an
    /// overflow nothing changes.
    pub fn record_order(&mut self, amount: u64) -> (r: Result<(), SolanaGigsError>)
        requires
            old(self).wf(),
        ensures
            final(self).wf(),
            match r {
                Ok(()) => old(self).total_orders < u64::MAX && old(self).total_volume + amount
                    <= u64::MAX && *final(self) == (Marketplace {
                    total_orders: (old(self).total_orders + 1) as u64,
                    total_volume: (old(self).total_volume + amount) as u64,
                    ..*old(self)
                }),
                Err(e) => *final(self) == *old(self) && e == SolanaGigsError::ArithmeticOverflow
                    && (old(self).total_orders == u64::MAX || old(self).total_volume + amount
                    > u64::MAX),
            },
    {
        let new_orders = match self.total_orders.checked_add(1) {
            Some(n) => n,
            None => {
                return Err(SolanaGigsError::ArithmeticOverflow);
            },
        };
        let new_volume = match self.total_volume.checked_add(amount) {
            Some(v) => v,
            None => {
                return Err(SolanaGigsError::ArithmeticOverflow);
            },
        };
        self.total_orders = new_orders;
        self.total_volume = new_volume;
        Ok(())
    }
}

} // verus!
