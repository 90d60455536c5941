//! Listings: seller-owned offers of a unit of paid work. A listing is
//! created by its seller, mutated by the seller (price and terms) or by
//! the order state machine (counters) on order events, and deactivated
//! rather than deleted while orders still reference it.

use vstd::prelude::*;

use crate::errors::SolanaGigsError;
use crate::escrow::AccountId;

verus! {

pub const MAX_TITLE_LEN: usize = 100;

pub const MAX_DESCRIPTION_LEN: usize = 1000;

pub const MAX_TAGS: usize = 10;

/// Delivery times are counted in days.
pub const MAX_DELIVERY_TIME_DAYS: u32 = 365;

/// The largest revision allowance a listing may offer.
pub const MAX_REVISIONS: u8 = 10;

#[derive(Clone, Debug)]
pub struct Listing {
    pub id: u64,
    pub seller: AccountId,
    pub title: String,
    pub description: String,
    /// The gross price a buyer pays; always positive.
    pub price: u64,
    /// Promised delivery time in days, 1 to 365.
    pub delivery_time: u32,
    /// How many revisions a buyer may request per order.
    pub max_revisions: u8,
    pub tags: Vec<String>,
    pub is_active: bool,
    /// How many orders were placed against this listing.
    pub total_orders: u64,
    /// Sum of all ratings received (each 1 to 5).
    pub rating_sum: u64,
    /// How many ratings were received.
    pub rating_count: u64,
}

impl Listing {
    pub open spec fn wf(self) -> bool {
        &&& self.title@.len() <= MAX_TITLE_LEN
        &&& self.description@.len() <= MAX_DESCRIPTION_LEN
        &&& self.price > 0
        &&& 1 <= self.delivery_time <= MAX_DELIVERY_TIME_DAYS
        &&& self.max_revisions <= MAX_REVISIONS
        &&& self.tags@.len() <= MAX_TAGS
        &&& self.rating_sum <= 5 * self.rating_count
    }

    /// A new, active listing; fails on an oversized title, description
    /// or tag list, a zero price, a delivery time outside 1 to 365
    /// days, or a revision allowance above the cap.
    pub fn new(
        id: u64,
        seller: AccountId,
        title: String,
        description: String,
        price: u64,
        delivery_time: u32,
        max_revisions: u8,
        tags: Vec<String>,
    ) -> (r: Result<Listing, SolanaGigsError>)
        ensures
            match r {
                Ok(l) => title@.len() <= MAX_TITLE_LEN && description@.len() <= MAX_DESCRIPTION_LEN
                    && price > 0 && 1 <= delivery_time <= MAX_DELIVERY_TIME_DAYS
                    && max_revisions <= MAX_REVISIONS && tags@.len() <= MAX_TAGS
                    && l == (Listing {
                        id,
                        seller,
                        title,
                        description,
                        price,
                        delivery_time,
                        max_revisions,
                        tags,
                        is_active: true,
                        total_orders: 0,
                        rating_sum: 0,
                        rating_count: 0,
                    }) && l.wf(),
                Err(e) => (e == SolanaGigsError::TitleTooLong && title@.len() > MAX_TITLE_LEN) || (
                e == SolanaGigsError::DescriptionTooLong && title@.len() <= MAX_TITLE_LEN
                    && description@.len() > MAX_DESCRIPTION_LEN) || (e
                    == SolanaGigsError::InvalidPrice && title@.len() <= MAX_TITLE_LEN
                    && description@.len() <= MAX_DESCRIPTION_LEN && price == 0) || (e
                    == SolanaGigsError::InvalidDeliveryTime && title@.len() <= MAX_TITLE_LEN
                    && description@.len() <= MAX_DESCRIPTION_LEN && price > 0 && !(1
                    <= delivery_time <= MAX_DELIVERY_TIME_DAYS)) || (e
                    == SolanaGigsError::TooManyRevisions && title@.len() <= MAX_TITLE_LEN
                    && description@.len() <= MAX_DESCRIPTION_LEN && price > 0 && 1 <= delivery_time
                    <= MAX_DELIVERY_TIME_DAYS && max_revisions > MAX_REVISIONS) || (e
                    == SolanaGigsError::TooManyTags && title@.len() <= MAX_TITLE_LEN
                    && description@.len() <= MAX_DESCRIPTION_LEN && price > 0 && 1 <= delivery_time
                    <= MAX_DELIVERY_TIME_DAYS && max_revisions <= MAX_REVISIONS && tags@.len()
                    > MAX_TAGS),
            },
    {
        if title.as_str().unicode_len() > MAX_TITLE_LEN {
            return Err(SolanaGigsError::TitleTooLong);
        }
        if description.as_str().unicode_len() > MAX_DESCRIPTION_LEN {
            return Err(SolanaGigsError::DescriptionTooLong);
        }
        if price == 0 {
            return Err(SolanaGigsError::InvalidPrice);
        }
        if delivery_time < 1 || delivery_time > MAX_DELIVERY_TIME_DAYS {
            return Err(SolanaGigsError::InvalidDeliveryTime);
        }
        if max_revisions > MAX_REVISIONS {
            return Err(SolanaGigsError::TooManyRevisions);
        }
        if tags.len() > MAX_TAGS {
            return Err(SolanaGigsError::TooManyTags);
        }
        Ok(
            Listing {
                id,
                seller,
                title,
                description,
                price,
                delivery_time,
                max_revisions,
                tags,
                is_active: true,
                total_orders: 0,
                rating_sum: 0,
                rating_count: 0,
            },
        )
    }

    /// Updates the given fields; only the seller may do so, every given
    /// value is validated, and nothing changes on a failure.
    pub fn update(
        &mut self,
        caller: AccountId,
        title: Option<String>,
        description: Option<String>,
        price: Option<u64>,
        delivery_time: Option<u32>,
        is_active: Option<bool>,
    ) -> (r: Result<(), SolanaGigsError>)
        requires
            old(self).wf(),
        ensures
            final(self).wf(),
            match r {
                Ok(()) => caller == old(self).seller && (match title {
                    Some(t) => t@.len() <= MAX_TITLE_LEN && final(self).title == t,
                    None => final(self).title == old(self).title,
                }) && (match description {
                    Some(d) => d@.len() <= MAX_DESCRIPTION_LEN && final(self).description == d,
                    None => final(self).description == old(self).description,
                }) && (match price {
                    Some(p) => p > 0 && final(self).price == p,
                    None => final(self).price == old(self).price,
                }) && (match delivery_time {
                    Some(dt) => 1 <= dt <= MAX_DELIVERY_TIME_DAYS && final(self).delivery_time
                        == dt,
                    None => final(self).delivery_time == old(self).delivery_time,
                }) && (match is_active {
                    Some(a) => final(self).is_active == a,
                    None => final(self).is_active == old(self).is_active,
                }) && final(self).id == old(self).id && final(self).seller == old(self).seller
                    && final(self).max_revisions == old(self).max_revisions && final(self).tags
                    == old(self).tags && final(self).total_orders == old(self).total_orders
                    && final(self).rating_sum == old(self).rating_sum && final(self).rating_count
                    == old(self).rating_count,
                Err(e) => *final(self) == *old(self) && ((e == SolanaGigsError::Unauthorized
                    && caller != old(self).seller) || (e == SolanaGigsError::TitleTooLong && caller
                    == old(self).seller && (title matches Some(t) && t@.len() > MAX_TITLE_LEN)) || (
                e == SolanaGigsError::DescriptionTooLong && caller == old(self).seller && !(title
                    matches Some(t) && t@.len() > MAX_TITLE_LEN) && (description matches Some(d)
                    && d@.len() > MAX_DESCRIPTION_LEN)) || (e == SolanaGigsError::InvalidPrice
                    && caller == old(self).seller && !(title matches Some(t) && t@.len()
                    > MAX_TITLE_LEN) && !(description matches Some(d) && d@.len()
                    > MAX_DESCRIPTION_LEN) && price == Some(0u64)) || (e
                    == SolanaGigsError::InvalidDeliveryTime && caller == old(self).seller && !(
                title matches Some(t) && t@.len() > MAX_TITLE_LEN) && !(description matches Some(d)
                    && d@.len() > MAX_DESCRIPTION_LEN) && price != Some(0u64) && (delivery_time
                    matches Some(dt) && !(1 <= dt <= MAX_DELIVERY_TIME_DAYS)))),
            },
    {
        if caller != self.seller {
            return Err(SolanaGigsError::Unauthorized);
        }
        if let Some(t) = &title {
            if t.as_str().unicode_len() > MAX_TITLE_LEN {
                return Err(SolanaGigsError::TitleTooLong);
            }
        }
        if let Some(d) = &description {
            if d.as_str().unicode_len() > MAX_DESCRIPTION_LEN {
                return Err(SolanaGigsError::DescriptionTooLong);
            }
        }
        if let Some(p) = &price {
            if *p == 0 {
                return Err(SolanaGigsError::InvalidPrice);
            }
        }
        if let Some(dt) = &delivery_time {
            if *dt < 1 || *dt > MAX_DELIVERY_TIME_DAYS {
                return Err(SolanaGigsError::InvalidDeliveryTime);
            }
        }
        if let Some(t) = title {
            self.title = t;
        }
        if let Some(d) = description {
            self.description = d;
        }
        if let Some(p) = price {
            self.price = p;
        }
        if let Some(dt) = delivery_time {
            self.delivery_time = dt;
        }
        if let Some(a) = is_active {
            self.is_active = a;
        }
        Ok(())
    }

    /// Counts one more order placed against this listing.
    pub fn record_order(&mut self) -> (r: Result<(), SolanaGigsError>)
        requires
            old(self).wf(),
        ensures
            final(self).wf(),
            match r {
                Ok(()) => old(self).total_orders < u64::MAX && *final(self) == (Listing {
                    total_orders: (old(self).total_orders + 1) as u64,
                    ..*old(self)
                }),
                Err(e) => *final(self) == *old(self) && e == SolanaGigsError::ArithmeticOverflow
                    && old(self).total_orders == u64::MAX,
            },
    {
        match self.total_orders.checked_add(1) {
            Some(n) => {
                self.total_orders = n;
                Ok(())
            },
            None => Err(SolanaGigsError::ArithmeticOverflow),
        }
    }

    /// Counts one more rating (1 to 5) into the aggregate.
    pub fn record_rating(&mut self, rating: u8) -> (r: Result<(), SolanaGigsError>)
        requires
            old(self).wf(),
            1 <= rating <= 5,
        ensures
            final(self).wf(),
            match r {
                Ok(()) => old(self).rating_count < u64::MAX && old(self).rating_sum + rating
                    <= u64::MAX && *final(self) == (Listing {
                    rating_sum: (old(self).rating_sum + rating) as u64,
                    rating_count: (old(self).rating_count + 1) as u64,
                    ..*old(self)
                }),
                Err(e) => *final(self) == *old(self) && e == SolanaGigsError::ArithmeticOverflow
                    && (old(self).rating_count == u64::MAX || old(self).rating_sum + rating
                    > u64::MAX),
            },
    {
        let new_count = match self.rating_count.checked_add(1) {
            Some(n) => n,
            None => {
                return Err(SolanaGigsError::ArithmeticOverflow);
            },
        };
        let new_sum = match self.rating_sum.checked_add(rating as u64) {
            Some(s) => s,
            None => {
                return Err(SolanaGigsError::ArithmeticOverflow);
            },
        };
        proof {
            assert(new_sum <= 5 * (new_count as int)) by (nonlinear_arith)
                requires
                    self.rating_sum <= 5 * (self.rating_count as int),
                    rating <= 5,
                    new_count == self.rating_count + 1,
                    new_sum == self.rating_sum + rating,
            ;
        }
        self.rating_sum = new_sum;
        self.rating_count = new_count;
        Ok(())
    }

    /// The average rating scaled by 100 (450 means 4.5 stars); 0 while
    /// no rating was received. Never exceeds 500.
    pub fn average_rating_x100(&self) -> (r: u64)
        requires
            self.wf(),
        ensures
            r == if self.rating_count == 0 {
                0int
            } else {
                (self.rating_sum as int) * 100 / (self.rating_count as int)
            },
            r <= 500,
    {
        if self.rating_count == 0 {
            return 0;
        }
        proof {
            assert((self.rating_sum as int) * 100 / (self.rating_count as int) <= 500)
                by (nonlinear_arith)
                requires
                    self.rating_sum <= 5 * (self.rating_count as int),
                    self.rating_count > 0,
            ;
        }
        let avg_wide: u128 = (self.rating_sum as u128) * 100 / (self.rating_count as u128);
        avg_wide as u64
    }
}

} // verus!
