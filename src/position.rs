use vstd::prelude::*;

use crate::identity::Identity;

verus! {

/// One bettor's stake on one outcome of one market.
#[derive(Clone, Debug)]
pub struct UserBetState {
    pub user: Identity,
    pub bet_id: String,
    /// The outcome backed: 1 for option A, 2 for option B.
    pub option: u8,
    /// The net stake, after fees; the basis of the payout.
    pub amount: u64,
    pub is_claimed: bool,
    pub placed_at: i64,
    pub claimed_at: i64,
    /// The gross stake, as transferred by the bettor.
    pub original_amount: u64,
}

impl UserBetState {
    /// A position backs a valid outcome and never nets more than it staked.
    pub open spec fn wf(&self) -> bool {
        &&& self.option == 1 || self.option == 2
        &&& self.amount <= self.original_amount
    }

    /// The same position, marked as paid out at `now`.
    pub open spec fn claimed_at_time(self, now: i64) -> UserBetState {
        UserBetState { is_claimed: true, claimed_at: now, ..self }
    }
}

} // verus!
