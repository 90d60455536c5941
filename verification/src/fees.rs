//! The fee calculator: a pure function from a gross amount and a
//! basis-point fee rate to the platform's fee and the seller's net
//! payout, used by every payout path. Also the percentage split used by
//! dispute resolution. Both splits are proved exact: the two shares
//! always partition the amount, for every representable amount, with no
//! overflow.

use vstd::prelude::*;

verus! {

/// Fee rates are expressed in basis points: 250 means 2.5 percent.
pub const FEE_RATE_DENOMINATOR: u64 = 10000;

/// The largest accepted fee rate: 100 percent.
pub const MAX_FEE_RATE: u16 = 10000;

/// The platform's cut of `amount` at `rate` basis points, rounded down.
pub open spec fn fee_of(amount: u64, rate: u16) -> int {
    (amount as int) * (rate as int) / (FEE_RATE_DENOMINATOR as int)
}

/// What the seller keeps of `amount` after the platform fee.
pub open spec fn net_of(amount: u64, rate: u16) -> int {
    amount - fee_of(amount, rate)
}

/// The buyer's share of `amount` at `percentage` (0 to 100), rounded down;
/// used when a dispute resolution splits an escrow.
pub open spec fn refund_of(amount: u64, percentage: u8) -> int {
    (amount as int) * (percentage as int) / 100
}

/// The seller's share of `amount` left after the buyer's refund share.
pub open spec fn payout_of(amount: u64, percentage: u8) -> int {
    amount - refund_of(amount, percentage)
}

/// The platform fee is between zero and the amount it is taken from.
pub proof fn lemma_fee_bounds(amount: u64, rate: u16)
    requires
        rate <= MAX_FEE_RATE,
    ensures
        0 <= fee_of(amount, rate) <= amount,
{
    assert(0 <= (amount as int) * (rate as int) / 10000 <= amount) by (nonlinear_arith)
        requires
            0 <= amount as int,
            0 <= rate as int <= 10000,
    ;
}

/// Fee accounting is exact: the platform fee and the seller's net payout
/// partition the gross amount, for every amount up to the largest
/// representable value and every accepted rate.
pub proof fn lemma_fee_split_exact(amount: u64, rate: u16)
    requires
        rate <= MAX_FEE_RATE,
    ensures
        fee_of(amount, rate) + net_of(amount, rate) == amount,
        0 <= fee_of(amount, rate) <= amount,
        0 <= net_of(amount, rate) <= amount,
{
    lemma_fee_bounds(amount, rate);
}

/// The refund share is between zero and the amount, and the refund and
/// payout shares partition the amount, for every amount and percentage.
pub proof fn lemma_refund_split_exact(amount: u64, percentage: u8)
    requires
        percentage <= 100,
    ensures
        refund_of(amount, percentage) + payout_of(amount, percentage) == amount,
        0 <= refund_of(amount, percentage) <= amount,
        0 <= payout_of(amount, percentage) <= amount,
{
    assert(0 <= (amount as int) * (percentage as int) / 100 <= amount) by (nonlinear_arith)
        requires
            0 <= amount as int,
            0 <= percentage as int <= 100,
    ;
}

/// Splits `amount` into `(platform_fee, seller_net)` at `rate` basis
/// points.
pub fn compute_fee(amount: u64, rate: u16) -> (r: (u64, u64))
    requires
        rate <= MAX_FEE_RATE,
    ensures
        r.0 == fee_of(amount, rate),
        r.1 == net_of(amount, rate),
        r.0 + r.1 == amount,
{
    proof {
        lemma_fee_bounds(amount, rate);
    }
    let fee_wide: u128 = (amount as u128) * (rate as u128) / (FEE_RATE_DENOMINATOR as u128);
    let fee: u64 = fee_wide as u64;
    (fee, amount - fee)
}

/// Splits `amount` into `(buyer_refund, seller_payout)` at `percentage`
/// (0 to 100).
pub fn compute_refund_split(amount: u64, percentage: u8) -> (r: (u64, u64))
    requires
        percentage <= 100,
    ensures
        r.0 == refund_of(amount, percentage),
        r.1 == payout_of(amount, percentage),
        r.0 + r.1 == amount,
{
    proof {
        lemma_refund_split_exact(amount, percentage);
    }
    let refund_wide: u128 = (amount as u128) * (percentage as u128) / 100;
    let refund: u64 = refund_wide as u64;
    (refund, amount - refund)
}

} // verus!
