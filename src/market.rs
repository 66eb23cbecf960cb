use vstd::prelude::*;
use vstd::utf8::encode_utf8;

use crate::error::BettingError;
use crate::fees::{compute_fees, fee_of, PlatformConfig, MAX_FEE_RATE_BPS};
use crate::identity::Identity;
use crate::position::UserBetState;

verus! {

/// The outcome code of option A.
pub const OPTION_A: u8 = 1;

/// The outcome code of option B.
pub const OPTION_B: u8 = 2;

/// The shortest time, in seconds, between creation and the end of betting.
pub const MIN_BET_DURATION: i64 = 60;

/// Length limits on the text fields, in bytes.
pub const MAX_DESCRIPTION_LEN: usize = 200;

pub const MAX_CATEGORY_LEN: usize = 50;

pub const MAX_OPTION_LEN: usize = 100;

pub const MAX_RESULT_DETAILS_LEN: usize = 300;

/// The length in bytes of a text, as stored (and as `str::len` reports it).
pub open spec fn byte_len(s: Seq<char>) -> usize {
    encode_utf8(s).len() as usize
}

fn text_len(s: &String) -> (r: usize)
    ensures
        r == byte_len(s@),
{
    s.as_str().len()
}

/// Whether `option` names one of the two outcomes.
pub open spec fn is_outcome(option: u8) -> bool {
    option == OPTION_A || option == OPTION_B
}

/// The outcome opposed to `option`.
pub open spec fn other_option(option: u8) -> u8 {
    if option == OPTION_A {
        OPTION_B
    } else {
        OPTION_A
    }
}

/// Where a market stands: open to wagers, settled, or withdrawn unfunded.
#[derive(Clone, Copy, Debug, PartialEq, Eq, Structural)]
pub enum MarketStatus {
    Open,
    Resolved,
    Cancelled,
}

/// One two-outcome market: its terms, its two pools of net stakes, and the
/// fees it has accrued.
#[derive(Clone, Debug)]
pub struct BetState {
    pub creator: Identity,
    pub bet_id: String,
    pub description: String,
    pub option_a: String,
    pub option_b: String,
    pub end_time: i64,
    pub total_amount_a: u64,
    pub total_amount_b: u64,
    pub status: MarketStatus,
    /// 0 until resolved, then the winning outcome code.
    pub winning_option: u8,
    pub min_bet_amount: u64,
    pub max_bet_amount: u64,
    pub category: String,
    pub created_at: i64,
    pub resolved_at: i64,
    pub total_bettors: u64,
    pub maker_fee_collected: u64,
    pub platform_fee_collected: u64,
    pub result_details: String,
}

impl BetState {
    /// The invariant of a market: stake bounds are sane, everything held in
    /// custody fits in a `u64`, and the winning outcome is set exactly when
    /// the market is resolved.
    pub open spec fn wf(&self) -> bool {
        &&& 0 < self.min_bet_amount <= self.max_bet_amount
        &&& self.total_amount_a + self.total_amount_b + self.maker_fee_collected
            + self.platform_fee_collected <= u64::MAX
        &&& match self.status {
            MarketStatus::Open => self.winning_option == 0,
            MarketStatus::Resolved => is_outcome(self.winning_option),
            MarketStatus::Cancelled => {
                &&& self.winning_option == 0
                &&& self.total_amount_a == 0
                &&& self.total_amount_b == 0
            },
        }
    }

    /// The pool of net stakes on `option`.
    pub open spec fn pool(&self, option: u8) -> int {
        if option == OPTION_A {
            self.total_amount_a as int
        } else if option == OPTION_B {
            self.total_amount_b as int
        } else {
            0
        }
    }

    pub open spec fn total_pool(&self) -> int {
        self.total_amount_a + self.total_amount_b
    }

    /// Tests the invariant, for records that come from outside storage.
    pub fn is_well_formed(&self) -> (r: bool)
        ensures
            r == self.wf(),
    {
        let held: u128 = self.total_amount_a as u128 + self.total_amount_b as u128
            + self.maker_fee_collected as u128 + self.platform_fee_collected as u128;
        let status_ok = match self.status {
            MarketStatus::Open => self.winning_option == 0,
            MarketStatus::Resolved => self.winning_option == OPTION_A || self.winning_option
                == OPTION_B,
            MarketStatus::Cancelled => self.winning_option == 0 && self.total_amount_a == 0
                && self.total_amount_b == 0,
        };
        0 < self.min_bet_amount && self.min_bet_amount <= self.max_bet_amount && held
            <= u64::MAX as u128 && status_ok
    }

    /// Whether the winning outcome has been reported.
    pub fn is_resolved(&self) -> (r: bool)
        ensures
            r == (self.status == MarketStatus::Resolved),
    {
        self.status == MarketStatus::Resolved
    }
}

/// The error, if any, that `create_bet` reports for these inputs.
pub open spec fn create_error(
    end_time: i64,
    min_bet_amount: u64,
    max_bet_amount: u64,
    description: Seq<char>,
    option_a: Seq<char>,
    option_b: Seq<char>,
    category: Seq<char>,
    now: i64,
) -> Option<BettingError> {
    if end_time <= now + MIN_BET_DURATION {
        Some(BettingError::InvalidEndTime)
    } else if min_bet_amount == 0 || max_bet_amount < min_bet_amount {
        Some(BettingError::InvalidAmount)
    } else if byte_len(category) == 0 || byte_len(category) > MAX_CATEGORY_LEN {
        Some(BettingError::InvalidCategory)
    } else if byte_len(description) == 0 || byte_len(description) > MAX_DESCRIPTION_LEN {
        Some(BettingError::InvalidDescription)
    } else if byte_len(option_a) > MAX_OPTION_LEN || byte_len(option_b) > MAX_OPTION_LEN {
        Some(BettingError::InvalidOption)
    } else {
        None
    }
}

/// Opens a market whose betting ends at `end_time`, created at `now`.
pub fn create_bet(
    creator: Identity,
    bet_id: String,
    description: String,
    option_a: String,
    option_b: String,
    end_time: i64,
    min_bet_amount: u64,
    max_bet_amount: u64,
    category: String,
    now: i64,
) -> (r: Result<BetState, BettingError>)
    ensures
        match r {
            Ok(b) => {
                &&& create_error(
                    end_time,
                    min_bet_amount,
                    max_bet_amount,
                    description@,
                    option_a@,
                    option_b@,
                    category@,
                    now,
                ) is None
                &&& b.wf()
                &&& b.creator@ == creator@
                &&& b.bet_id@ == bet_id@
                &&& b.description@ == description@
                &&& b.option_a@ == option_a@
                &&& b.option_b@ == option_b@
                &&& b.category@ == category@
                &&& b.end_time == end_time
                &&& b.min_bet_amount == min_bet_amount
                &&& b.max_bet_amount == max_bet_amount
                &&& b.created_at == now
                &&& b.status == MarketStatus::Open
                &&& b.winning_option == 0
                &&& b.resolved_at == 0
                &&& b.result_details@.len() == 0
                &&& b.total_amount_a == 0
                &&& b.total_amount_b == 0
                &&& b.total_bettors == 0
                &&& b.maker_fee_collected == 0
                &&& b.platform_fee_collected == 0
            },
            Err(e) => create_error(
                end_time,
                min_bet_amount,
                max_bet_amount,
                description@,
                option_a@,
                option_b@,
                category@,
                now,
            ) == Some(e),
        },
{
    if (end_time as i128) <= (now as i128) + (MIN_BET_DURATION as i128) {
        return Err(BettingError::InvalidEndTime);
    }
    if min_bet_amount == 0 || max_bet_amount < min_bet_amount {
        return Err(BettingError::InvalidAmount);
    }
    let category_len = text_len(&category);
    if category_len == 0 || category_len > MAX_CATEGORY_LEN {
        return Err(BettingError::InvalidCategory);
    }
    let description_len = text_len(&description);
    if description_len == 0 || description_len > MAX_DESCRIPTION_LEN {
        return Err(BettingError::InvalidDescription);
    }
    if text_len(&option_a) > MAX_OPTION_LEN || text_len(&option_b) > MAX_OPTION_LEN {
        return Err(BettingError::InvalidOption);
    }
    Ok(
        BetState {
            creator,
            bet_id,
            description,
            option_a,
            option_b,
            end_time,
            total_amount_a: 0,
            total_amount_b: 0,
            status: MarketStatus::Open,
            winning_option: 0,
            min_bet_amount,
            max_bet_amount,
            category,
            created_at: now,
            resolved_at: 0,
            total_bettors: 0,
            maker_fee_collected: 0,
            platform_fee_collected: 0,
            result_details: String::new(),
        },
    )
}

/// The error, if any, that `place_bet` reports for these inputs.
pub open spec fn place_error(
    bet: BetState,
    config: PlatformConfig,
    option: u8,
    amount: u64,
    now: i64,
) -> Option<BettingError> {
    if now >= bet.end_time {
        Some(BettingError::BettingClosed)
    } else if bet.status == MarketStatus::Resolved {
        Some(BettingError::BetAlreadyResolved)
    } else if bet.status == MarketStatus::Cancelled {
        Some(BettingError::BetCancelled)
    } else if !is_outcome(option) {
        Some(BettingError::InvalidOption)
    } else if amount == 0 {
        Some(BettingError::InvalidAmount)
    } else if amount < bet.min_bet_amount {
        Some(BettingError::BetTooLow)
    } else if amount > bet.max_bet_amount {
        Some(BettingError::BetTooHigh)
    } else if config.platform_fee_bps > MAX_FEE_RATE_BPS || config.maker_fee_bps
        > MAX_FEE_RATE_BPS {
        Some(BettingError::FeeTooHigh)
    } else if bet.total_amount_a + bet.total_amount_b + bet.maker_fee_collected
        + bet.platform_fee_collected + amount > u64::MAX || bet.total_bettors == u64::MAX {
        Some(BettingError::MathOverflow)
    } else {
        None
    }
}

/// `after` is `before` with the wager `p` added: its net stake joins the pool of
/// its outcome, the other pool is untouched, and one more bettor is counted.
pub open spec fn wager_applied(before: BetState, after: BetState, p: UserBetState) -> bool {
    &&& is_outcome(p.option)
    &&& 0 < p.amount <= p.original_amount
    &&& after.pool(p.option) == before.pool(p.option) + p.amount
    &&& after.pool(other_option(p.option)) == before.pool(other_option(p.option))
    &&& after.total_bettors == before.total_bettors + 1
}

/// Places a wager of `amount` (gross) on `option` at time `now`. On success
/// the caller owes the transfer of `amount` into the market's custody.
pub fn place_bet(
    bet: &mut BetState,
    config: &PlatformConfig,
    user: Identity,
    bet_id: String,
    option: u8,
    amount: u64,
    now: i64,
) -> (r: Result<UserBetState, BettingError>)
    requires
        old(bet).wf(),
    ensures
        final(bet).wf(),
        match r {
            Ok(p) => {
                &&& place_error(*old(bet), *config, option, amount, now) is None
                &&& wager_applied(*old(bet), *final(bet), p)
                &&& p.wf()
                &&& p.user@ == user@
                &&& p.bet_id@ == bet_id@
                &&& p.option == option
                &&& p.original_amount == amount
                &&& p.amount == amount - fee_of(amount as int, config.platform_fee_bps as int)
                    - fee_of(amount as int, config.maker_fee_bps as int)
                &&& !p.is_claimed
                &&& p.placed_at == now
                &&& p.claimed_at == 0
                &&& final(bet).maker_fee_collected == old(bet).maker_fee_collected + fee_of(
                    amount as int,
                    config.maker_fee_bps as int,
                )
                &&& final(bet).platform_fee_collected == old(bet).platform_fee_collected
                    + fee_of(amount as int, config.platform_fee_bps as int)
                &&& *final(bet) == (BetState {
                    total_amount_a: final(bet).total_amount_a,
                    total_amount_b: final(bet).total_amount_b,
                    total_bettors: final(bet).total_bettors,
                    maker_fee_collected: final(bet).maker_fee_collected,
                    platform_fee_collected: final(bet).platform_fee_collected,
                    ..*old(bet)
                })
            },
            Err(e) => {
                &&& place_error(*old(bet), *config, option, amount, now) == Some(e)
                &&& *final(bet) == *old(bet)
            },
        },
{
    if now >= bet.end_time {
        return Err(BettingError::BettingClosed);
    }
    if bet.status == MarketStatus::Resolved {
        return Err(BettingError::BetAlreadyResolved);
    }
    if bet.status == MarketStatus::Cancelled {
        return Err(BettingError::BetCancelled);
    }
    if option != OPTION_A && option != OPTION_B {
        return Err(BettingError::InvalidOption);
    }
    if amount == 0 {
        return Err(BettingError::InvalidAmount);
    }
    if amount < bet.min_bet_amount {
        return Err(BettingError::BetTooLow);
    }
    if amount > bet.max_bet_amount {
        return Err(BettingError::BetTooHigh);
    }
    if config.platform_fee_bps > MAX_FEE_RATE_BPS || config.maker_fee_bps > MAX_FEE_RATE_BPS {
        return Err(BettingError::FeeTooHigh);
    }
    let held: u128 = bet.total_amount_a as u128 + bet.total_amount_b as u128
        + bet.maker_fee_collected as u128 + bet.platform_fee_collected as u128;
    if held + amount as u128 > u64::MAX as u128 || bet.total_bettors == u64::MAX {
        return Err(BettingError::MathOverflow);
    }
    proof {
        crate::fees::lemma_fees_leave_net(amount, config.platform_fee_bps, config.maker_fee_bps);
    }
    let split = match compute_fees(amount, config.platform_fee_bps, config.maker_fee_bps) {
        Ok(s) => s,
        Err(e) => {
            return Err(e);
        },
    };
    if option == OPTION_A {
        bet.total_amount_a = bet.total_amount_a + split.net_amount;
    } else {
        bet.total_amount_b = bet.total_amount_b + split.net_amount;
    }
    bet.maker_fee_collected = bet.maker_fee_collected + split.maker_fee;
    bet.platform_fee_collected = bet.platform_fee_collected + split.platform_fee;
    bet.total_bettors = bet.total_bettors + 1;
    Ok(
        UserBetState {
            user,
            bet_id,
            option,
            amount: split.net_amount,
            is_claimed: false,
            placed_at: now,
            claimed_at: 0,
            original_amount: amount,
        },
    )
}

/// The error, if any, that `resolve_bet` reports for these inputs.
pub open spec fn resolve_error(
    bet: BetState,
    caller: Identity,
    winning_option: u8,
    result_details: Seq<char>,
    now: i64,
) -> Option<BettingError> {
    if bet.status == MarketStatus::Resolved {
        Some(BettingError::BetAlreadyResolved)
    } else if bet.status == MarketStatus::Cancelled {
        Some(BettingError::BetCancelled)
    } else if !is_outcome(winning_option) {
        Some(BettingError::InvalidOption)
    } else if caller@ != bet.creator@ {
        Some(BettingError::UnauthorizedResolver)
    } else if now < bet.end_time {
        Some(BettingError::BettingStillOpen)
    } else if byte_len(result_details) > MAX_RESULT_DETAILS_LEN {
        Some(BettingError::InvalidResultDetails)
    } else {
        None
    }
}

/// Settles an open market on `winning_option`, as reported by its creator
/// once betting has ended.
pub fn resolve_bet(
    bet: &mut BetState,
    caller: &Identity,
    winning_option: u8,
    result_details: String,
    now: i64,
) -> (r: Result<(), BettingError>)
    requires
        old(bet).wf(),
    ensures
        final(bet).wf(),
        match r {
            Ok(_) => {
                &&& resolve_error(*old(bet), *caller, winning_option, result_details@, now) is None
                &&& *final(bet) == (BetState {
                    status: MarketStatus::Resolved,
                    winning_option,
                    resolved_at: now,
                    result_details,
                    ..*old(bet)
                })
            },
            Err(e) => {
                &&& resolve_error(*old(bet), *caller, winning_option, result_details@, now) == Some(
                    e,
                )
                &&& *final(bet) == *old(bet)
            },
        },
{
    if bet.status == MarketStatus::Resolved {
        return Err(BettingError::BetAlreadyResolved);
    }
    if bet.status == MarketStatus::Cancelled {
        return Err(BettingError::BetCancelled);
    }
    if winning_option != OPTION_A && winning_option != OPTION_B {
        return Err(BettingError::InvalidOption);
    }
    if !bet.creator.same(caller) {
        return Err(BettingError::UnauthorizedResolver);
    }
    if now < bet.end_time {
        return Err(BettingError::BettingStillOpen);
    }
    if text_len(&result_details) > MAX_RESULT_DETAILS_LEN {
        return Err(BettingError::InvalidResultDetails);
    }
    bet.status = MarketStatus::Resolved;
    bet.winning_option = winning_option;
    bet.resolved_at = now;
    bet.result_details = result_details;
    Ok(())
}

/// The error, if any, that `cancel_bet` reports for these inputs.
pub open spec fn cancel_error(bet: BetState, caller: Identity) -> Option<BettingError> {
    if caller@ != bet.creator@ {
        Some(BettingError::UnauthorizedResolver)
    } else if bet.total_amount_a != 0 || bet.total_amount_b != 0 {
        Some(BettingError::BetsAlreadyPlaced)
    } else if bet.status == MarketStatus::Resolved {
        Some(BettingError::BetAlreadyResolved)
    } else if bet.status == MarketStatus::Cancelled {
        Some(BettingError::BetCancelled)
    } else {
        None
    }
}

/// Cancels an open market that has taken no stake; only its creator may.
pub fn cancel_bet(bet: &mut BetState, caller: &Identity) -> (r: Result<(), BettingError>)
    requires
        old(bet).wf(),
    ensures
        final(bet).wf(),
        match r {
            Ok(_) => {
                &&& cancel_error(*old(bet), *caller) is None
                &&& *final(bet) == (BetState { status: MarketStatus::Cancelled, ..*old(bet) })
            },
            Err(e) => {
                &&& cancel_error(*old(bet), *caller) == Some(e)
                &&& *final(bet) == *old(bet)
            },
        },
{
    if !bet.creator.same(caller) {
        return Err(BettingError::UnauthorizedResolver);
    }
    if bet.total_amount_a != 0 || bet.total_amount_b != 0 {
        return Err(BettingError::BetsAlreadyPlaced);
    }
    if bet.status == MarketStatus::Resolved {
        return Err(BettingError::BetAlreadyResolved);
    }
    if bet.status == MarketStatus::Cancelled {
        return Err(BettingError::BetCancelled);
    }
    bet.status = MarketStatus::Cancelled;
    Ok(())
}

/// The error, if any, that `claim_maker_fees` reports for these inputs.
pub open spec fn maker_fee_error(bet: BetState, caller: Identity) -> Option<BettingError> {
    if caller@ != bet.creator@ {
        Some(BettingError::UnauthorizedResolver)
    } else if bet.maker_fee_collected == 0 {
        Some(BettingError::NoFeesToClaim)
    } else {
        None
    }
}

/// Withdraws the maker fees accrued so far, for the market's creator. On
/// success the caller owes the transfer of the returned amount to the creator.
pub fn claim_maker_fees(bet: &mut BetState, caller: &Identity) -> (r: Result<u64, BettingError>)
    requires
        old(bet).wf(),
    ensures
        final(bet).wf(),
        match r {
            Ok(fees) => {
                &&& maker_fee_error(*old(bet), *caller) is None
                &&& fees == old(bet).maker_fee_collected
                &&& *final(bet) == (BetState { maker_fee_collected: 0, ..*old(bet) })
            },
            Err(e) => {
                &&& maker_fee_error(*old(bet), *caller) == Some(e)
                &&& *final(bet) == *old(bet)
            },
        },
{
    if !bet.creator.same(caller) {
        return Err(BettingError::UnauthorizedResolver);
    }
    if bet.maker_fee_collected == 0 {
        return Err(BettingError::NoFeesToClaim);
    }
    let fees = bet.maker_fee_collected;
    bet.maker_fee_collected = 0;
    Ok(fees)
}

/// The error, if any, that `claim_platform_fees` reports for these inputs.
pub open spec fn platform_fee_error(
    bet: BetState,
    config: PlatformConfig,
    caller: Identity,
) -> Option<BettingError> {
    if caller@ != config.owner@ {
        Some(BettingError::UnauthorizedPlatformOwner)
    } else if bet.platform_fee_collected == 0 {
        Some(BettingError::NoFeesToClaim)
    } else {
        None
    }
}

/// Withdraws the platform fees accrued so far, for the platform owner. On
/// success the caller owes the transfer of the returned amount to the owner.
pub fn claim_platform_fees(bet: &mut BetState, config: &PlatformConfig, caller: &Identity) -> (r:
    Result<u64, BettingError>)
    requires
        old(bet).wf(),
    ensures
        final(bet).wf(),
        match r {
            Ok(fees) => {
                &&& platform_fee_error(*old(bet), *config, *caller) is None
                &&& fees == old(bet).platform_fee_collected
                &&& *final(bet) == (BetState { platform_fee_collected: 0, ..*old(bet) })
            },
            Err(e) => {
                &&& platform_fee_error(*old(bet), *config, *caller) == Some(e)
                &&& *final(bet) == *old(bet)
            },
        },
{
    if !config.owner.same(caller) {
        return Err(BettingError::UnauthorizedPlatformOwner);
    }
    if bet.platform_fee_collected == 0 {
        return Err(BettingError::NoFeesToClaim);
    }
    let fees = bet.platform_fee_collected;
    bet.platform_fee_collected = 0;
    Ok(fees)
}

/// Resolution is refused before the end of betting and to anyone but the
/// creator; a refused call leaves the market open (see `resolve_bet`).
pub proof fn lemma_resolution_gating(
    bet: BetState,
    caller: Identity,
    winning_option: u8,
    result_details: Seq<char>,
    now: i64,
)
    requires
        bet.status == MarketStatus::Open,
        now < bet.end_time || caller@ != bet.creator@,
    ensures
        resolve_error(bet, caller, winning_option, result_details, now) is Some,
{
}

/// The creator's cancellation of an open market succeeds exactly when both
/// pools are empty.
pub proof fn lemma_cancel_iff_empty(bet: BetState, caller: Identity)
    requires
        bet.status == MarketStatus::Open,
        caller@ == bet.creator@,
    ensures
        cancel_error(bet, caller) is None <==> (bet.total_amount_a == 0 && bet.total_amount_b
            == 0),
{
}

/// Once a wager has landed, the market can no longer be cancelled, by anyone.
pub proof fn lemma_wager_blocks_cancel(
    before: BetState,
    after: BetState,
    p: UserBetState,
    caller: Identity,
)
    requires
        wager_applied(before, after, p),
    ensures
        after.total_amount_a + after.total_amount_b > 0,
        cancel_error(after, caller) is Some,
{
}

} // verus!
