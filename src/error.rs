use vstd::prelude::*;

verus! {

/// Every rejection the engine can produce; each names one cause.
#[derive(Clone, Copy, Debug, PartialEq, Eq, Structural)]
pub enum BettingError {
    BettingClosed,
    BetAlreadyResolved,
    InvalidOption,
    InvalidAmount,
    UnauthorizedResolver,
    BettingStillOpen,
    BetNotResolved,
    AlreadyClaimed,
    NotWinner,
    BetsAlreadyPlaced,
    FeeTooHigh,
    BetTooLow,
    BetTooHigh,
    InvalidEndTime,
    InvalidCategory,
    NoFeesToClaim,
    UnauthorizedPlatformOwner,
    NoWinnersFound,
    InvalidDescription,
    InvalidResultDetails,
    /// The market was cancelled; it accepts no further operation.
    BetCancelled,
    /// A counter or an amount would leave the range of `u64`.
    MathOverflow,
}

impl BettingError {
    /// The human-readable message of this error.
    pub fn message(&self) -> (r: &'static str) {
        match self {
            BettingError::BettingClosed => "Betting period has ended",
            BettingError::BetAlreadyResolved => "Bet has already been resolved",
            BettingError::InvalidOption => "Invalid betting option",
            BettingError::InvalidAmount => "Invalid bet amount",
            BettingError::UnauthorizedResolver => "Only bet creator can resolve",
            BettingError::BettingStillOpen => "Betting is still open",
            BettingError::BetNotResolved => "Bet has not been resolved yet",
            BettingError::AlreadyClaimed => "Winnings already claimed",
            BettingError::NotWinner => "User did not win this bet",
            BettingError::BetsAlreadyPlaced => "Bets have already been placed",
            BettingError::FeeTooHigh => "Fee rate too high (max 10%)",
            BettingError::BetTooLow => "Bet amount too low",
            BettingError::BetTooHigh => "Bet amount too high",
            BettingError::InvalidEndTime => "Invalid end time",
            BettingError::InvalidCategory => "Invalid category",
            BettingError::NoFeesToClaim => "No fees to claim",
            BettingError::UnauthorizedPlatformOwner => "Unauthorized platform owner",
            BettingError::NoWinnersFound => "No winners found",
            BettingError::InvalidDescription => "Invalid description",
            BettingError::InvalidResultDetails => "Invalid result details",
            BettingError::BetCancelled => "Bet has been cancelled",
            BettingError::MathOverflow => "Arithmetic overflow",
        }
    }
}

} // verus!
