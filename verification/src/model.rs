//! The ledger as a mathematical value.
//!
//! A ledger is the sequence of its wagers in the order of their creation.
//! Ids are handed out from zero upwards and no wager is ever removed, so
//! the wager with id `i` stands at position `i`, and the next id is the
//! length of the sequence.

use crate::bet::BetView;
use crate::status::{BetStatus, StatusChange};
use vstd::prelude::*;

verus! {

/// Why an operation of the ledger was refused.
#[derive(Clone, Copy, Debug, PartialEq, Eq, Structural)]
pub enum LedgerError {
    /// The id names no wager of the ledger.
    NotFound,
}

/// What a ledger is, as a mathematical value: its wagers in the order of
/// their creation.
pub struct LedgerView {
    pub bets: Seq<BetView>,
}

impl LedgerView {
    /// The ledger without wagers.
    pub open spec fn empty() -> LedgerView {
        LedgerView { bets: Seq::empty() }
    }

    /// The id that the next wager will get.
    pub open spec fn next_id(self) -> nat {
        self.bets.len()
    }

    /// Whether the id names a wager of the ledger.
    pub open spec fn contains(self, id: u64) -> bool {
        id < self.bets.len()
    }

    /// The wager with this id, if there is one.
    pub open spec fn get(self, id: u64) -> Option<BetView> {
        if self.contains(id) {
            Some(self.bets[id as int])
        } else {
            None
        }
    }

    /// The audit trail of the wager with this id, if there is one.
    pub open spec fn history(self, id: u64) -> Option<Seq<StatusChange>> {
        if self.contains(id) {
            Some(self.bets[id as int].status_history)
        } else {
            None
        }
    }

    /// What holds of a ledger at all times: every wager carries the id of
    /// its position, so ids are unique and below the next id, and the audit
    /// trail of every wager agrees with its other fields.
    pub open spec fn sound(self) -> bool {
        &&& self.bets.len() <= u64::MAX
        &&& forall|i: int|
            0 <= i < self.bets.len() ==> (#[trigger] self.bets[i]).id == i
                && self.bets[i].consistent()
    }

    /// The instants in the audit trail of every wager never decrease.
    pub open spec fn chronological(self) -> bool {
        forall|i: int| 0 <= i < self.bets.len() ==> (#[trigger] self.bets[i]).chronological()
    }

    /// The ledger after a wager has been created at instant `now`: the new
    /// wager gets the next id and stands last.
    pub open spec fn create(
        self,
        participant1_deposit_path: Seq<char>,
        participant2_deposit_path: Seq<char>,
        amount: u128,
        resolution_criteria: Seq<char>,
        now: u64,
    ) -> LedgerView {
        LedgerView {
            bets: self.bets.push(
                BetView::opened(
                    self.bets.len() as u64,
                    participant1_deposit_path,
                    participant2_deposit_path,
                    amount,
                    resolution_criteria,
                    now,
                ),
            ),
        }
    }

    /// The ledger after the wager `id` has been told to enter `new_status`
    /// at instant `now`. An unknown id leaves the ledger as it is, and so
    /// does the status that the wager is in already.
    pub open spec fn transition(self, id: u64, new_status: BetStatus, now: u64) -> LedgerView {
        if self.contains(id) {
            LedgerView {
                bets: self.bets.update(id as int, self.bets[id as int].with_status(new_status, now)),
            }
        } else {
            self
        }
    }

    /// What telling the wager `id` to enter `new_status` at instant `now`
    /// answers: `NotFound` for an unknown id, nothing to write for the
    /// status that the wager is in already, else the wager to write.
    pub open spec fn transition_outcome(self, id: u64, new_status: BetStatus, now: u64) -> Result<
        Option<BetView>,
        LedgerError,
    > {
        if !self.contains(id) {
            Err(LedgerError::NotFound)
        } else if self.bets[id as int].status == new_status {
            Ok(None)
        } else {
            Ok(Some(self.bets[id as int].with_status(new_status, now)))
        }
    }

    /// The wagers in `status`, in the order of their creation.
    pub open spec fn by_status(self, status: BetStatus) -> Seq<BetView> {
        self.bets.filter(|bet: BetView| bet.status == status)
    }

    /// The wagers that are in `status` and have been so for at least
    /// `min_age_ns` at instant `now`, in the order of their creation.
    pub open spec fn by_status_age(self, status: BetStatus, min_age_ns: u64, now: u64) -> Seq<
        BetView,
    > {
        self.bets.filter(|bet: BetView| bet.has_dwelt(status, min_age_ns, now))
    }
}

} // verus!
