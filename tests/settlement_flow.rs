use betting::{
    calculate_odds, calculate_winnings, cancel_bet, claim_maker_fees, claim_platform_fees,
    claim_winnings, create_bet, get_bet_stats, initialize_platform, place_bet, resolve_bet,
    BetState, BettingError, Identity, MarketStatus, PlatformConfig,
};

const NOW: i64 = 1_000;
const END: i64 = 2_000;

fn id(n: u8) -> Identity {
    Identity::new([n; 32])
}

fn market(min: u64, max: u64) -> BetState {
    create_bet(
        id(1),
        "m1".to_string(),
        "Will it rain?".to_string(),
        "Yes".to_string(),
        "No".to_string(),
        END,
        min,
        max,
        "weather".to_string(),
        NOW,
    )
    .unwrap()
}

fn config(platform_bps: u16, maker_bps: u16) -> PlatformConfig {
    initialize_platform(id(9), platform_bps, maker_bps).unwrap()
}

#[test]
fn two_bettor_market_pays_whole_pool_to_winner() {
    let cfg = config(100, 200);
    let mut bet = market(1, 1000);
    let mut x = place_bet(&mut bet, &cfg, id(2), "m1".to_string(), 1, 1000, NOW).unwrap();
    let mut y = place_bet(&mut bet, &cfg, id(3), "m1".to_string(), 2, 500, NOW).unwrap();
    assert_eq!(x.amount, 970);
    assert_eq!(x.original_amount, 1000);
    assert_eq!(y.amount, 485);
    assert_eq!(bet.total_amount_a, 970);
    assert_eq!(bet.total_amount_b, 485);
    assert_eq!(bet.maker_fee_collected, 30);
    assert_eq!(bet.platform_fee_collected, 15);
    assert_eq!(bet.total_bettors, 2);
    resolve_bet(&mut bet, &id(1), 1, "it rained".to_string(), END).unwrap();
    assert_eq!(bet.status, MarketStatus::Resolved);
    assert_eq!(bet.winning_option, 1);
    assert_eq!(bet.resolved_at, END);
    assert_eq!(claim_winnings(&bet, &mut x, END + 5), Ok(1455));
    assert!(x.is_claimed);
    assert_eq!(x.claimed_at, END + 5);
    assert_eq!(claim_winnings(&bet, &mut y, END + 5), Err(BettingError::NotWinner));
    assert!(!y.is_claimed);
}

#[test]
fn zero_bettor_market_has_no_winners() {
    let mut bet = market(1, 1000);
    resolve_bet(&mut bet, &id(1), 1, String::new(), END).unwrap();
    assert!(bet.is_resolved());
    let mut p = betting::UserBetState {
        user: id(2),
        bet_id: "m1".to_string(),
        option: 1,
        amount: 0,
        is_claimed: false,
        placed_at: NOW,
        claimed_at: 0,
        original_amount: 0,
    };
    assert_eq!(claim_winnings(&bet, &mut p, END), Err(BettingError::NoWinnersFound));
    assert!(!p.is_claimed);
}

#[test]
fn payouts_leave_bounded_dust() {
    let cfg = config(0, 0);
    let mut bet = market(1, 1000);
    let mut winners = Vec::new();
    for who in 2..5u8 {
        winners.push(place_bet(&mut bet, &cfg, id(who), "m1".to_string(), 1, 1, NOW).unwrap());
    }
    place_bet(&mut bet, &cfg, id(5), "m1".to_string(), 2, 1, NOW).unwrap();
    resolve_bet(&mut bet, &id(1), 1, String::new(), END).unwrap();
    let total = bet.total_amount_a + bet.total_amount_b;
    assert_eq!(total, 4);
    let mut paid = 0u64;
    for p in winners.iter_mut() {
        paid += claim_winnings(&bet, p, END).unwrap();
    }
    assert_eq!(paid, 3);
    assert!(paid <= total);
    assert!(total - paid <= 2);
}

#[test]
fn second_claim_is_rejected_and_changes_nothing() {
    let cfg = config(100, 200);
    let mut bet = market(1, 1000);
    let mut x = place_bet(&mut bet, &cfg, id(2), "m1".to_string(), 2, 400, NOW).unwrap();
    place_bet(&mut bet, &cfg, id(3), "m1".to_string(), 1, 600, NOW).unwrap();
    resolve_bet(&mut bet, &id(1), 2, String::new(), END).unwrap();
    let first = claim_winnings(&bet, &mut x, END + 1).unwrap();
    // 388 * (582 + 388) / 388
    assert_eq!(first, 970);
    let pools = (bet.total_amount_a, bet.total_amount_b);
    assert_eq!(claim_winnings(&bet, &mut x, END + 2), Err(BettingError::AlreadyClaimed));
    assert_eq!(x.claimed_at, END + 1);
    assert_eq!((bet.total_amount_a, bet.total_amount_b), pools);
}

#[test]
fn early_or_foreign_resolution_keeps_market_open() {
    let mut bet = market(1, 1000);
    assert_eq!(
        resolve_bet(&mut bet, &id(1), 1, String::new(), END - 1),
        Err(BettingError::BettingStillOpen)
    );
    assert_eq!(bet.status, MarketStatus::Open);
    assert_eq!(
        resolve_bet(&mut bet, &id(7), 1, String::new(), END),
        Err(BettingError::UnauthorizedResolver)
    );
    assert_eq!(bet.status, MarketStatus::Open);
    assert_eq!(bet.winning_option, 0);
}

#[test]
fn cancel_only_while_pools_are_empty() {
    let cfg = config(100, 200);
    let mut empty = market(1, 1000);
    assert_eq!(cancel_bet(&mut empty, &id(1)), Ok(()));
    assert_eq!(empty.status, MarketStatus::Cancelled);

    let mut bet = market(1, 1000);
    place_bet(&mut bet, &cfg, id(2), "m1".to_string(), 1, 10, NOW).unwrap();
    assert_eq!(cancel_bet(&mut bet, &id(1)), Err(BettingError::BetsAlreadyPlaced));
    assert_eq!(bet.status, MarketStatus::Open);
    resolve_bet(&mut bet, &id(1), 1, String::new(), END).unwrap();
    assert_eq!(cancel_bet(&mut bet, &id(1)), Err(BettingError::BetsAlreadyPlaced));
}

#[test]
fn cancelled_market_refuses_everything() {
    let cfg = config(100, 200);
    let mut bet = market(1, 1000);
    cancel_bet(&mut bet, &id(1)).unwrap();
    assert_eq!(
        place_bet(&mut bet, &cfg, id(2), "m1".to_string(), 1, 10, NOW).err(),
        Some(BettingError::BetCancelled)
    );
    assert_eq!(
        resolve_bet(&mut bet, &id(1), 1, String::new(), END),
        Err(BettingError::BetCancelled)
    );
    assert_eq!(cancel_bet(&mut bet, &id(1)), Err(BettingError::BetCancelled));
}

#[test]
fn fees_are_withdrawn_once() {
    let cfg = config(100, 200);
    let mut bet = market(1, 1000);
    place_bet(&mut bet, &cfg, id(2), "m1".to_string(), 1, 1000, NOW).unwrap();
    assert_eq!(claim_maker_fees(&mut bet, &id(5)), Err(BettingError::UnauthorizedResolver));
    assert_eq!(claim_maker_fees(&mut bet, &id(1)), Ok(20));
    assert_eq!(bet.maker_fee_collected, 0);
    assert_eq!(claim_maker_fees(&mut bet, &id(1)), Err(BettingError::NoFeesToClaim));
    assert_eq!(
        claim_platform_fees(&mut bet, &cfg, &id(1)),
        Err(BettingError::UnauthorizedPlatformOwner)
    );
    assert_eq!(claim_platform_fees(&mut bet, &cfg, &id(9)), Ok(10));
    assert_eq!(bet.platform_fee_collected, 0);
    assert_eq!(claim_platform_fees(&mut bet, &cfg, &id(9)), Err(BettingError::NoFeesToClaim));
    assert_eq!(bet.total_amount_a, 970);
}

#[test]
fn stats_report_pool_odds_and_time() {
    let cfg = config(100, 200);
    let mut bet = market(1, 1000);
    let empty = get_bet_stats(&bet, NOW);
    assert_eq!((empty.odds_a, empty.odds_b), (5000, 5000));
    assert_eq!(empty.time_remaining, END - NOW);
    place_bet(&mut bet, &cfg, id(2), "m1".to_string(), 1, 1000, NOW).unwrap();
    place_bet(&mut bet, &cfg, id(3), "m1".to_string(), 2, 500, NOW).unwrap();
    let s = get_bet_stats(&bet, END + 100);
    assert_eq!(s.total_pool, 1455);
    assert_eq!(s.odds_a, 3333);
    assert_eq!(s.odds_b, 6666);
    assert_eq!(s.total_bettors, 2);
    assert_eq!(s.time_remaining, 0);
}

#[test]
fn odds_of_empty_and_one_sided_pools() {
    assert_eq!(calculate_odds(0, 0), (5000, 5000));
    assert_eq!(calculate_odds(100, 0), (0, 10000));
    assert_eq!(calculate_odds(u64::MAX, u64::MAX), (5000, 5000));
}

#[test]
fn winnings_formula_and_its_errors() {
    assert_eq!(calculate_winnings(970, 970, 1455), Ok(1455));
    assert_eq!(calculate_winnings(1, 3, 4), Ok(1));
    assert_eq!(calculate_winnings(u64::MAX, u64::MAX, u64::MAX), Ok(u64::MAX));
    assert_eq!(calculate_winnings(5, 0, 10), Err(BettingError::NoWinnersFound));
    assert_eq!(calculate_winnings(u64::MAX, 1, 2), Err(BettingError::MathOverflow));
}
