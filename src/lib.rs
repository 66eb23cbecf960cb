//! Two-outcome pari-mutuel wagering: fee computation, pool accounting and
//! settlement, with every transition verified.
//!
//! Time, caller identity and the movement of funds are supplied by the host:
//! each operation takes `now` and the caller as values, and returns the
//! amount that the host must transfer when it succeeds.
pub mod error;
pub mod fees;
pub mod identity;
pub mod market;
pub mod position;
pub mod settlement;
pub mod stats;

pub use error::BettingError;
pub use fees::{compute_fees, initialize_platform, FeeSplit, PlatformConfig};
pub use identity::Identity;
pub use market::{
    cancel_bet, claim_maker_fees, claim_platform_fees, create_bet, place_bet, resolve_bet,
    BetState, MarketStatus,
};
pub use position::UserBetState;
pub use settlement::{calculate_winnings, claim_winnings};
pub use stats::{calculate_odds, get_bet_stats, BetStats};
