use vstd::prelude::*;

use crate::fees::BPS_DENOMINATOR;
use crate::market::BetState;

verus! {

/// A read-only summary of a market.
#[derive(Clone, Copy, Debug, PartialEq, Eq, Structural)]
pub struct BetStats {
    pub total_pool: u64,
    /// The share of the pool on option B, in basis points.
    pub odds_a: u64,
    /// The share of the pool on option A, in basis points.
    pub odds_b: u64,
    pub total_bettors: u64,
    /// Seconds until betting ends; 0 once it has.
    pub time_remaining: i64,
}

/// The odds of each side, as basis points of the other side's share of the
/// pool; an empty market stands at 5000 each.
pub open spec fn odds_of(amount_a: int, amount_b: int) -> (int, int) {
    let total = amount_a + amount_b;
    if total == 0 {
        (5000, 5000)
    } else {
        (amount_b * 10000 / total, amount_a * 10000 / total)
    }
}

/// Computes `odds_of(amount_a, amount_b)`, with the products formed in 128
/// bits.
pub fn calculate_odds(amount_a: u64, amount_b: u64) -> (r: (u64, u64))
    ensures
        r.0 == odds_of(amount_a as int, amount_b as int).0,
        r.1 == odds_of(amount_a as int, amount_b as int).1,
        r.0 + r.1 <= 10000,
{
    let total: u128 = amount_a as u128 + amount_b as u128;
    if total == 0 {
        return (5000, 5000);
    }
    let a: u128 = amount_a as u128;
    let b: u128 = amount_b as u128;
    let d: u128 = BPS_DENOMINATOR as u128;
    assert(a * 10000 <= 0xffff_ffff_ffff_ffffu128 * 10000 && b * 10000 <= 0xffff_ffff_ffff_ffffu128
        * 10000) by (nonlinear_arith)
        requires
            a <= 0xffff_ffff_ffff_ffffu128,
            b <= 0xffff_ffff_ffff_ffffu128,
    ;
    let odds_a: u128 = b * d / total;
    let odds_b: u128 = a * d / total;
    assert(odds_a + odds_b <= 10000) by (nonlinear_arith)
        requires
            total == a + b,
            total > 0,
            a >= 0,
            b >= 0,
            odds_a == b * 10000 / (total as int),
            odds_b == a * 10000 / (total as int),
    ;
    (odds_a as u64, odds_b as u64)
}

/// Summarises a market at time `now`.
pub fn get_bet_stats(bet: &BetState, now: i64) -> (r: BetStats)
    requires
        bet.wf(),
        bet.end_time - now <= i64::MAX,
    ensures
        r.total_pool == bet.total_pool(),
        r.odds_a == odds_of(bet.total_amount_a as int, bet.total_amount_b as int).0,
        r.odds_b == odds_of(bet.total_amount_a as int, bet.total_amount_b as int).1,
        r.total_bettors == bet.total_bettors,
        r.time_remaining == if bet.end_time > now {
            bet.end_time - now
        } else {
            0
        },
{
    let total_pool = bet.total_amount_a + bet.total_amount_b;
    let time_remaining = if bet.end_time > now {
        bet.end_time - now
    } else {
        0
    };
    let (odds_a, odds_b) = calculate_odds(bet.total_amount_a, bet.total_amount_b);
    BetStats { total_pool, odds_a, odds_b, total_bettors: bet.total_bettors, time_remaining }
}

} // verus!
