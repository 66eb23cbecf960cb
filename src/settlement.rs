use vstd::prelude::*;

use crate::error::BettingError;
use crate::market::{is_outcome, BetState, MarketStatus, OPTION_A, OPTION_B};
use crate::position::UserBetState;

verus! {

/// The payout of a winning net stake `amount`: its share of the winning pool,
/// applied to the whole pool, rounded down.
pub open spec fn winnings_of(amount: int, total_pool: int, winning_pool: int) -> int {
    amount * total_pool / winning_pool
}

/// The error, if any, that `calculate_winnings` reports for these inputs.
pub open spec fn winnings_error(user_amount: u64, total_winning_pool: u64, total_pool: u64) -> Option<
    BettingError,
> {
    if total_winning_pool == 0 {
        Some(BettingError::NoWinnersFound)
    } else if winnings_of(user_amount as int, total_pool as int, total_winning_pool as int)
        > u64::MAX {
        Some(BettingError::MathOverflow)
    } else {
        None
    }
}

/// Computes `user_amount * total_pool / total_winning_pool`, rounded down,
/// with the product formed in 128 bits.
pub fn calculate_winnings(user_amount: u64, total_winning_pool: u64, total_pool: u64) -> (r:
    Result<u64, BettingError>)
    ensures
        match r {
            Ok(w) => {
                &&& winnings_error(user_amount, total_winning_pool, total_pool) is None
                &&& w == winnings_of(
                    user_amount as int,
                    total_pool as int,
                    total_winning_pool as int,
                )
            },
            Err(e) => winnings_error(user_amount, total_winning_pool, total_pool) == Some(e),
        },
{
    if total_winning_pool == 0 {
        return Err(BettingError::NoWinnersFound);
    }
    let a: u128 = user_amount as u128;
    let t: u128 = total_pool as u128;
    assert(a * t <= 0xffff_ffff_ffff_ffffu128 * 0xffff_ffff_ffff_ffffu128) by (nonlinear_arith)
        requires
            a <= 0xffff_ffff_ffff_ffffu128,
            t <= 0xffff_ffff_ffff_ffffu128,
    ;
    let wide: u128 = a * t / (total_winning_pool as u128);
    if wide > u64::MAX as u128 {
        return Err(BettingError::MathOverflow);
    }
    Ok(wide as u64)
}

/// The error, if any, that `claim_winnings` reports for these inputs.
pub open spec fn claim_error(bet: BetState, user_bet: UserBetState) -> Option<BettingError> {
    if bet.status != MarketStatus::Resolved {
        Some(BettingError::BetNotResolved)
    } else if user_bet.is_claimed {
        Some(BettingError::AlreadyClaimed)
    } else if user_bet.option != bet.winning_option {
        Some(BettingError::NotWinner)
    } else if bet.pool(bet.winning_option) == 0 {
        Some(BettingError::NoWinnersFound)
    } else if winnings_of(user_bet.amount as int, bet.total_pool(), bet.pool(bet.winning_option))
        > u64::MAX {
        Some(BettingError::MathOverflow)
    } else {
        None
    }
}

/// Pays out a winning position of a resolved market at time `now`. On
/// success the position is marked as claimed and the caller owes the
/// transfer of the returned amount from custody to the bettor.
pub fn claim_winnings(bet: &BetState, user_bet: &mut UserBetState, now: i64) -> (r: Result<
    u64,
    BettingError,
>)
    requires
        bet.wf(),
    ensures
        match r {
            Ok(w) => {
                &&& claim_error(*bet, *old(user_bet)) is None
                &&& w == winnings_of(
                    old(user_bet).amount as int,
                    bet.total_pool(),
                    bet.pool(bet.winning_option),
                )
                &&& *final(user_bet) == old(user_bet).claimed_at_time(now)
            },
            Err(e) => {
                &&& claim_error(*bet, *old(user_bet)) == Some(e)
                &&& *final(user_bet) == *old(user_bet)
            },
        },
{
    if bet.status != MarketStatus::Resolved {
        return Err(BettingError::BetNotResolved);
    }
    if user_bet.is_claimed {
        return Err(BettingError::AlreadyClaimed);
    }
    if user_bet.option != bet.winning_option {
        return Err(BettingError::NotWinner);
    }
    let total_winning_pool = if bet.winning_option == OPTION_A {
        bet.total_amount_a
    } else {
        bet.total_amount_b
    };
    let total_pool = bet.total_amount_a + bet.total_amount_b;
    let winnings = match calculate_winnings(user_bet.amount, total_winning_pool, total_pool) {
        Ok(w) => w,
        Err(e) => {
            return Err(e);
        },
    };
    user_bet.is_claimed = true;
    user_bet.claimed_at = now;
    Ok(winnings)
}

/// A position that has been paid out cannot be paid out again: the second
/// claim is refused as already claimed (and, by `claim_winnings`, changes
/// nothing).
pub proof fn lemma_no_double_claim(bet: BetState, user_bet: UserBetState, now: i64)
    requires
        claim_error(bet, user_bet) is None,
    ensures
        claim_error(bet, user_bet.claimed_at_time(now)) == Some(BettingError::AlreadyClaimed),
{
}

/// The sum of the net stakes on `option` over a list of positions.
pub open spec fn staked_on(ps: Seq<UserBetState>, option: u8) -> int
    decreases ps.len(),
{
    if ps.len() == 0 {
        0
    } else {
        staked_on(ps.drop_last(), option) + if ps.last().option == option {
            ps.last().amount as int
        } else {
            0
        }
    }
}

/// The number of positions on `option`.
pub open spec fn positions_on(ps: Seq<UserBetState>, option: u8) -> int
    decreases ps.len(),
{
    if ps.len() == 0 {
        0
    } else {
        positions_on(ps.drop_last(), option) + if ps.last().option == option {
            1int
        } else {
            0
        }
    }
}

/// The sum of the payouts owed to the positions on `option`, for the given
/// total and winning pools.
pub open spec fn payouts_on(
    ps: Seq<UserBetState>,
    option: u8,
    total_pool: int,
    winning_pool: int,
) -> int
    decreases ps.len(),
{
    if ps.len() == 0 {
        0
    } else {
        payouts_on(ps.drop_last(), option, total_pool, winning_pool) + if ps.last().option
            == option {
            winnings_of(ps.last().amount as int, total_pool, winning_pool)
        } else {
            0
        }
    }
}

/// The market's two pools are exactly the sums of the positions' net stakes.
pub open spec fn ledger_matches(bet: BetState, ps: Seq<UserBetState>) -> bool {
    &&& staked_on(ps, OPTION_A) == bet.total_amount_a
    &&& staked_on(ps, OPTION_B) == bet.total_amount_b
}

/// Adding a wager to the market and its position to the list keeps the
/// pools equal to the sums of the positions.
pub proof fn lemma_wager_keeps_ledger(
    before: BetState,
    after: BetState,
    ps: Seq<UserBetState>,
    p: UserBetState,
)
    requires
        ledger_matches(before, ps),
        crate::market::wager_applied(before, after, p),
    ensures
        ledger_matches(after, ps.push(p)),
{
    assert(ps.push(p).drop_last() =~= ps);
}

proof fn lemma_no_positions_no_stake(ps: Seq<UserBetState>, option: u8)
    ensures
        staked_on(ps, option) >= 0,
        positions_on(ps, option) >= 0,
        positions_on(ps, option) == 0 ==> staked_on(ps, option) == 0,
    decreases ps.len(),
{
    if ps.len() > 0 {
        lemma_no_positions_no_stake(ps.drop_last(), option);
    }
}

proof fn lemma_payout_sum_bounds(ps: Seq<UserBetState>, option: u8, total: int, winning: int)
    requires
        winning > 0,
        total >= 0,
    ensures
        winning * payouts_on(ps, option, total, winning) <= total * staked_on(ps, option),
        winning * payouts_on(ps, option, total, winning) >= total * staked_on(ps, option) - (
        winning - 1) * positions_on(ps, option),
    decreases ps.len(),
{
    if ps.len() > 0 {
        let rest = ps.drop_last();
        lemma_payout_sum_bounds(rest, option, total, winning);
        let p = ps.last();
        if p.option == option {
            let x: int = p.amount as int * total;
            let f = winnings_of(p.amount as int, total, winning);
            assert(x >= 0) by (nonlinear_arith)
                requires
                    x == p.amount as int * total,
                    total >= 0,
            ;
            vstd::arithmetic::div_mod::lemma_fundamental_div_mod(x, winning);
            vstd::arithmetic::div_mod::lemma_mod_bound(x, winning);
            let pr = payouts_on(rest, option, total, winning);
            let sr = staked_on(rest, option);
            let kr = positions_on(rest, option);
            assert(winning * (pr + f) == winning * pr + winning * f) by (nonlinear_arith);
            assert(total * (sr + p.amount) == total * sr + x) by (nonlinear_arith)
                requires
                    x == p.amount as int * total,
            ;
            assert((winning - 1) * (kr + 1) == (winning - 1) * kr + (winning - 1)) by (
            nonlinear_arith);
        }
    }
}

/// Conservation: once a market is resolved with a non-empty winning pool and
/// its pools match its positions, the payouts owed to all winning positions
/// together never exceed the whole pool, and fall short of it by less than
/// the number of winning positions.
pub proof fn lemma_conservation(bet: BetState, ps: Seq<UserBetState>)
    requires
        bet.wf(),
        bet.status == MarketStatus::Resolved,
        ledger_matches(bet, ps),
        bet.pool(bet.winning_option) > 0,
    ensures
        payouts_on(ps, bet.winning_option, bet.total_pool(), bet.pool(bet.winning_option))
            <= bet.total_pool(),
        bet.total_pool() - payouts_on(
            ps,
            bet.winning_option,
            bet.total_pool(),
            bet.pool(bet.winning_option),
        ) <= positions_on(ps, bet.winning_option) - 1,
{
    let w = bet.winning_option;
    let total = bet.total_pool();
    let winning = bet.pool(w);
    assert(is_outcome(w));
    lemma_payout_sum_bounds(ps, w, total, winning);
    lemma_no_positions_no_stake(ps, w);
    let sum = payouts_on(ps, w, total, winning);
    let k = positions_on(ps, w);
    assert(staked_on(ps, w) == winning);
    assert(sum <= total) by (nonlinear_arith)
        requires
            winning > 0,
            winning * sum <= total * winning,
    ;
    assert(total - sum <= k - 1) by (nonlinear_arith)
        requires
            winning > 0,
            k >= 1,
            winning * sum >= total * winning - (winning - 1) * k,
    ;
}

} // verus!
