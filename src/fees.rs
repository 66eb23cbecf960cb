use vstd::prelude::*;

use crate::error::BettingError;
use crate::identity::Identity;

verus! {

/// The largest fee rate that can be configured, in basis points (10%).
pub const MAX_FEE_RATE_BPS: u16 = 1000;

/// Basis points in one whole.
pub const BPS_DENOMINATOR: u64 = 10000;

/// A fee of `rate_bps` basis points on `amount`, rounded down.
pub open spec fn fee_of(amount: int, rate_bps: int) -> int {
    amount * rate_bps / BPS_DENOMINATOR as int
}

/// Global fee parameters and the identity allowed to withdraw platform fees.
#[derive(Clone, Copy, Debug)]
pub struct PlatformConfig {
    pub owner: Identity,
    pub platform_fee_bps: u16,
    pub maker_fee_bps: u16,
}

impl PlatformConfig {
    /// Both rates are within the cap.
    pub open spec fn wf(&self) -> bool {
        &&& self.platform_fee_bps <= MAX_FEE_RATE_BPS
        &&& self.maker_fee_bps <= MAX_FEE_RATE_BPS
    }
}

/// How one stake is divided between the two fees and the pool.
#[derive(Clone, Copy, Debug, PartialEq, Eq, Structural)]
pub struct FeeSplit {
    pub platform_fee: u64,
    pub maker_fee: u64,
    pub net_amount: u64,
}

/// The error, if any, that `compute_fees` reports for these inputs.
pub open spec fn fee_error(amount: u64, platform_fee_bps: u16, maker_fee_bps: u16) -> Option<
    BettingError,
> {
    if platform_fee_bps > MAX_FEE_RATE_BPS || maker_fee_bps > MAX_FEE_RATE_BPS {
        Some(BettingError::FeeTooHigh)
    } else if fee_of(amount as int, platform_fee_bps as int) + fee_of(
        amount as int,
        maker_fee_bps as int,
    ) >= amount {
        Some(BettingError::InvalidAmount)
    } else {
        None
    }
}

/// Creates the platform configuration; each rate is capped at 10%.
pub fn initialize_platform(owner: Identity, platform_fee_bps: u16, maker_fee_bps: u16) -> (r:
    Result<PlatformConfig, BettingError>)
    ensures
        match r {
            Ok(c) => {
                &&& platform_fee_bps <= MAX_FEE_RATE_BPS
                &&& maker_fee_bps <= MAX_FEE_RATE_BPS
                &&& c.wf()
                &&& c.owner@ == owner@
                &&& c.platform_fee_bps == platform_fee_bps
                &&& c.maker_fee_bps == maker_fee_bps
            },
            Err(e) => {
                &&& (platform_fee_bps > MAX_FEE_RATE_BPS || maker_fee_bps > MAX_FEE_RATE_BPS)
                &&& e == BettingError::FeeTooHigh
            },
        },
{
    if platform_fee_bps > MAX_FEE_RATE_BPS || maker_fee_bps > MAX_FEE_RATE_BPS {
        return Err(BettingError::FeeTooHigh);
    }
    Ok(PlatformConfig { owner, platform_fee_bps, maker_fee_bps })
}

/// A fee of `rate_bps` basis points on `amount`, rounded down; the product is
/// formed in 128 bits so that it cannot overflow.
pub fn calculate_fee(amount: u64, rate_bps: u16) -> (r: u64)
    requires
        rate_bps <= BPS_DENOMINATOR,
    ensures
        r == fee_of(amount as int, rate_bps as int),
        r <= amount,
{
    let a: u128 = amount as u128;
    let b: u128 = rate_bps as u128;
    assert(a * b <= 0xffff_ffff_ffff_ffffu128 * 10000) by (nonlinear_arith)
        requires
            a <= 0xffff_ffff_ffff_ffffu128,
            b <= 10000,
    ;
    let wide: u128 = a * b / (BPS_DENOMINATOR as u128);
    assert(wide <= amount) by (nonlinear_arith)
        requires
            wide == (amount as int) * (rate_bps as int) / 10000,
            rate_bps <= 10000,
    ;
    wide as u64
}

/// Splits a gross stake into platform fee, maker fee and net stake.
pub fn compute_fees(amount: u64, platform_fee_bps: u16, maker_fee_bps: u16) -> (r: Result<
    FeeSplit,
    BettingError,
>)
    ensures
        match r {
            Ok(s) => {
                &&& fee_error(amount, platform_fee_bps, maker_fee_bps) is None
                &&& s.platform_fee == fee_of(amount as int, platform_fee_bps as int)
                &&& s.maker_fee == fee_of(amount as int, maker_fee_bps as int)
                &&& s.net_amount == amount - s.platform_fee - s.maker_fee
                &&& s.net_amount > 0
            },
            Err(e) => fee_error(amount, platform_fee_bps, maker_fee_bps) == Some(e),
        },
{
    if platform_fee_bps > MAX_FEE_RATE_BPS || maker_fee_bps > MAX_FEE_RATE_BPS {
        return Err(BettingError::FeeTooHigh);
    }
    let platform_fee = calculate_fee(amount, platform_fee_bps);
    let maker_fee = calculate_fee(amount, maker_fee_bps);
    if platform_fee as u128 + maker_fee as u128 >= amount as u128 {
        return Err(BettingError::InvalidAmount);
    }
    Ok(FeeSplit { platform_fee, maker_fee, net_amount: amount - platform_fee - maker_fee })
}

/// With both rates within the cap, the two fees together take at most a
/// fifth of the stake, so the net stake keeps at least four fifths.
pub proof fn lemma_fee_bound(amount: u64, platform_fee_bps: u16, maker_fee_bps: u16)
    requires
        platform_fee_bps <= MAX_FEE_RATE_BPS,
        maker_fee_bps <= MAX_FEE_RATE_BPS,
    ensures
        5 * (fee_of(amount as int, platform_fee_bps as int) + fee_of(
            amount as int,
            maker_fee_bps as int,
        )) <= amount,
        5 * (amount - fee_of(amount as int, platform_fee_bps as int) - fee_of(
            amount as int,
            maker_fee_bps as int,
        )) >= 4 * amount,
{
    lemma_fee_at_most_tenth(amount as int, platform_fee_bps as int);
    lemma_fee_at_most_tenth(amount as int, maker_fee_bps as int);
}

proof fn lemma_fee_at_most_tenth(amount: int, rate_bps: int)
    requires
        amount >= 0,
        0 <= rate_bps <= 1000,
    ensures
        0 <= 10 * fee_of(amount, rate_bps) <= amount,
{
    let f = fee_of(amount, rate_bps);
    assert(0 <= 10 * f <= amount) by (nonlinear_arith)
        requires
            f == amount * rate_bps / 10000,
            amount >= 0,
            0 <= rate_bps <= 1000,
    ;
}

/// Under the rate cap, a stake of at least one unit always keeps a positive
/// net stake.
pub proof fn lemma_fees_leave_net(amount: u64, platform_fee_bps: u16, maker_fee_bps: u16)
    requires
        amount > 0,
        platform_fee_bps <= MAX_FEE_RATE_BPS,
        maker_fee_bps <= MAX_FEE_RATE_BPS,
    ensures
        fee_error(amount, platform_fee_bps, maker_fee_bps) is None,
{
    lemma_fee_bound(amount, platform_fee_bps, maker_fee_bps);
}

} // verus!
