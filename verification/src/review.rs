//! Reviews: append-only records, at most one per order and rating
//! party, created when an order completes and never mutated after.

use vstd::prelude::*;

use crate::escrow::AccountId;

verus! {

pub const MAX_COMMENT_LEN: usize = 500;

#[derive(Clone, Debug)]
pub struct Review {
    /// The completed order this review belongs to.
    pub order_id: u64,
    pub reviewer: AccountId,
    pub reviewee: AccountId,
    /// 1 to 5 stars.
    pub rating: u8,
    pub comment: String,
    pub created_at: i64,
}

impl Review {
    pub open spec fn wf(self) -> bool {
        &&& 1 <= self.rating <= 5
        &&& self.comment@.len() <= MAX_COMMENT_LEN
    }
}

} // verus!
