//! The part of the ledger that is held in memory, and the operations that
//! read the host's clock.
//!
//! The wagers themselves are kept by the host. Every operation takes what
//! was read from storage and returns what is to be written or handed out;
//! reading and writing are the caller's.

use crate::bet::{Bet, BetView};
use crate::host::block_timestamp;
use crate::model::LedgerError;
use crate::status::{BetStatus, StatusChange};
use crate::steps::{as_ledger, select_by_status, select_by_status_age, transition_step, views};
use vstd::prelude::*;

verus! {

/// The ledger's counter of ids: the id that the next wager will get.
pub struct BettingContract {
    next_bet_id: u64,
}

impl BettingContract {
    /// The id that the next wager will get.
    pub closed spec fn counter(&self) -> u64 {
        self.next_bet_id
    }

    /// The counter of a ledger without wagers: the first id is 0.
    pub fn new() -> (ledger: Self)
        ensures
            ledger.counter() == 0,
    {
        BettingContract { next_bet_id: 0 }
    }

    /// The counter as it was persisted.
    pub fn restore(next_bet_id: u64) -> (ledger: Self)
        ensures
            ledger.counter() == next_bet_id,
    {
        BettingContract { next_bet_id }
    }

    /// The id that the next wager will get.
    pub fn next_bet_id(&self) -> (next: u64)
        ensures
            next == self.counter(),
    {
        self.next_bet_id
    }

    /// Creates a wager at instant `now`. It gets the next id, which is then
    /// used up, and starts `Unfunded` with an audit trail of that one
    /// entry. Nothing is asked of the texts or of the amount. The wager
    /// returned is the one to store under its id.
    pub fn new_bet_at(
        &mut self,
        participant1_deposit_path: String,
        participant2_deposit_path: String,
        amount: u128,
        resolution_criteria: String,
        now: u64,
    ) -> (bet: Bet)
        requires
            old(self).counter() < u64::MAX,
        ensures
            final(self).counter() == old(self).counter() + 1,
            bet@ == BetView::opened(
                old(self).counter(),
                participant1_deposit_path@,
                participant2_deposit_path@,
                amount,
                resolution_criteria@,
                now,
            ),
    {
        let bet_id = self.next_bet_id;
        self.next_bet_id = bet_id + 1;
        Bet::open(
            bet_id,
            participant1_deposit_path,
            participant2_deposit_path,
            amount,
            resolution_criteria,
            now,
        )
    }

    /// Creates a wager at the instant that the host's clock gives: see
    /// `new_bet_at`.
    pub fn new_bet(
        &mut self,
        participant1_deposit_path: String,
        participant2_deposit_path: String,
        amount: u128,
        resolution_criteria: String,
    ) -> (bet: Bet)
        requires
            old(self).counter() < u64::MAX,
        ensures
            final(self).counter() == old(self).counter() + 1,
            exists|now: u64|
                bet@ == #[trigger] BetView::opened(
                    old(self).counter(),
                    participant1_deposit_path@,
                    participant2_deposit_path@,
                    amount,
                    resolution_criteria@,
                    now,
                ),
    {
        let current_time = block_timestamp();
        self.new_bet_at(
            participant1_deposit_path,
            participant2_deposit_path,
            amount,
            resolution_criteria,
            current_time,
        )
    }

    /// Decides a status change at the instant that the host's clock gives,
    /// given what storage holds under the id: see `transition_step`.
    pub fn update_bet_state(found: Option<Bet>, new_status: BetStatus) -> (step: Result<
        Option<Bet>,
        LedgerError,
    >)
        ensures
            found is None ==> step == Err::<Option<Bet>, LedgerError>(LedgerError::NotFound),
            found matches Some(b) && b.status == new_status ==> step matches Ok(None),
            found matches Some(b) ==> (b.status != new_status ==> exists|now: u64|
                step matches Ok(Some(n)) && n@ == #[trigger] b@.with_status(new_status, now)),
    {
        let current_time = block_timestamp();
        transition_step(found, new_status, current_time)
    }

    /// Of the wagers given, those that are in `status` and have been so for
    /// at least `min_age_ns` nanoseconds at the instant that the host's
    /// clock gives: see `select_by_status_age`.
    pub fn get_bets_by_status_age(bets: Vec<Bet>, status: BetStatus, min_age_ns: u64) -> (out: Vec<
        Bet,
    >)
        ensures
            exists|now: u64|
                views(out@) == #[trigger] as_ledger(bets@).by_status_age(status, min_age_ns, now),
    {
        let current_time = block_timestamp();
        let ghost given = bets@;
        let out = select_by_status_age(bets, status, min_age_ns, current_time);
        assert(views(out@) == as_ledger(given).by_status_age(status, min_age_ns, current_time));
        out
    }

    /// Of the wagers given, those that are in `status`, in the order given.
    pub fn get_bets_by_status(bets: Vec<Bet>, status: BetStatus) -> (out: Vec<Bet>)
        ensures
            views(out@) == as_ledger(bets@).by_status(status),
    {
        select_by_status(bets, status)
    }

    /// The complete audit trail of the wager that storage holds under an
    /// id, oldest entry first, or `None` where it holds none.
    pub fn get_bet_status_history(found: Option<Bet>) -> (history: Option<Vec<StatusChange>>)
        ensures
            match found {
                Some(bet) => history matches Some(trail) && trail@ == bet@.status_history,
                None => history is None,
            },
    {
        match found {
            Some(bet) => Some(bet.status_history),
            None => None,
        }
    }
}

} // verus!
