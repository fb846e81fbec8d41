//! A single wager: its fields, its mathematical view, and the two steps of
//! its life (being opened, and entering a status).

use crate::status::{BetStatus, StatusChange};
use vstd::prelude::*;

verus! {

/// A tracked wager.
///
/// The deposit paths, the amount and the criteria are recorded as given and
/// never interpreted.
#[derive(Debug)]
pub struct Bet {
    pub id: u64,
    pub participant1_deposit_path: String,
    pub participant2_deposit_path: String,
    pub amount: u128,
    pub status: BetStatus,
    pub created_at: u64,
    pub last_status_change: u64,
    pub status_history: Vec<StatusChange>,
    pub resolution_criteria: String,
}

/// What a `Bet` is, as a mathematical value.
pub struct BetView {
    pub id: u64,
    pub participant1_deposit_path: Seq<char>,
    pub participant2_deposit_path: Seq<char>,
    pub amount: u128,
    pub status: BetStatus,
    pub created_at: u64,
    pub last_status_change: u64,
    pub status_history: Seq<StatusChange>,
    pub resolution_criteria: Seq<char>,
}

impl View for Bet {
    type V = BetView;

    open spec fn view(&self) -> BetView {
        BetView {
            id: self.id,
            participant1_deposit_path: self.participant1_deposit_path@,
            participant2_deposit_path: self.participant2_deposit_path@,
            amount: self.amount,
            status: self.status,
            created_at: self.created_at,
            last_status_change: self.last_status_change,
            status_history: self.status_history@,
            resolution_criteria: self.resolution_criteria@,
        }
    }
}

impl BetView {
    /// The wager as it stands right after creation at instant `now`.
    pub open spec fn opened(
        id: u64,
        participant1_deposit_path: Seq<char>,
        participant2_deposit_path: Seq<char>,
        amount: u128,
        resolution_criteria: Seq<char>,
        now: u64,
    ) -> BetView {
        BetView {
            id,
            participant1_deposit_path,
            participant2_deposit_path,
            amount,
            status: BetStatus::Unfunded,
            created_at: now,
            last_status_change: now,
            status_history: seq![StatusChange { status: BetStatus::Unfunded, timestamp: now }],
            resolution_criteria,
        }
    }

    /// The wager after it has been told to enter `new_status` at instant
    /// `now`: unchanged where it is in that status already, else with the
    /// status, the instant and one more audit entry.
    pub open spec fn with_status(self, new_status: BetStatus, now: u64) -> BetView {
        if self.status == new_status {
            self
        } else {
            BetView {
                status: new_status,
                last_status_change: now,
                status_history: self.status_history.push(
                    StatusChange { status: new_status, timestamp: now },
                ),
                ..self
            }
        }
    }

    /// How long the wager has been in its current status at instant `now`,
    /// in nanoseconds; zero where the clock reads earlier than the last
    /// change.
    pub open spec fn age_at(self, now: u64) -> u64 {
        if now >= self.last_status_change {
            (now - self.last_status_change) as u64
        } else {
            0
        }
    }

    /// Whether the wager is in `status` and has been so for at least
    /// `min_age_ns` at instant `now`.
    pub open spec fn has_dwelt(self, status: BetStatus, min_age_ns: u64, now: u64) -> bool {
        self.status == status && self.age_at(now) >= min_age_ns
    }

    /// The audit trail agrees with the other fields: it is not empty, it
    /// starts with the creation as `Unfunded`, and its last entry gives the
    /// current status and the instant of the last change.
    pub open spec fn consistent(self) -> bool {
        &&& self.status_history.len() > 0
        &&& self.status_history[0] == StatusChange {
            status: BetStatus::Unfunded,
            timestamp: self.created_at,
        }
        &&& self.status_history.last() == StatusChange {
            status: self.status,
            timestamp: self.last_status_change,
        }
    }

    /// The instants of the audit trail never decrease.
    pub open spec fn chronological(self) -> bool {
        forall|i: int, j: int|
            0 <= i <= j < self.status_history.len() ==> (#[trigger] self.status_history[i]).timestamp
                <= (#[trigger] self.status_history[j]).timestamp
    }
}

impl Bet {
    /// Opens a wager at instant `now`: `Unfunded`, with an audit trail of
    /// that one entry.
    pub fn open(
        id: u64,
        participant1_deposit_path: String,
        participant2_deposit_path: String,
        amount: u128,
        resolution_criteria: String,
        now: u64,
    ) -> (bet: Bet)
        ensures
            bet@ == BetView::opened(
                id,
                participant1_deposit_path@,
                participant2_deposit_path@,
                amount,
                resolution_criteria@,
                now,
            ),
    {
        let mut status_history: Vec<StatusChange> = Vec::new();
        status_history.push(StatusChange { status: BetStatus::Unfunded, timestamp: now });
        let bet = Bet {
            id,
            participant1_deposit_path,
            participant2_deposit_path,
            amount,
            status: BetStatus::Unfunded,
            created_at: now,
            last_status_change: now,
            status_history,
            resolution_criteria,
        };
        assert(bet@.status_history =~= seq![
            StatusChange { status: BetStatus::Unfunded, timestamp: now },
        ]);
        bet
    }

    /// Moves the wager into `new_status` at instant `now`, and says whether
    /// anything changed. Asking for the status it is in changes nothing.
    /// No status is refused: any may follow any.
    pub fn record_status(&mut self, new_status: BetStatus, now: u64) -> (changed: bool)
        ensures
            changed == (old(self).status != new_status),
            final(self)@ == old(self)@.with_status(new_status, now),
    {
        if self.status != new_status {
            self.status = new_status;
            self.last_status_change = now;
            self.status_history.push(StatusChange { status: new_status, timestamp: now });
            true
        } else {
            false
        }
    }

    /// How long the wager has been in its current status at instant `now`.
    pub fn status_age(&self, now: u64) -> (age: u64)
        ensures
            age == self@.age_at(now),
    {
        now.saturating_sub(self.last_status_change)
    }

    /// Whether the wager is in `status` and has been so for at least
    /// `min_age_ns` at instant `now`.
    pub fn has_dwelt(&self, status: BetStatus, min_age_ns: u64, now: u64) -> (yes: bool)
        ensures
            yes == self@.has_dwelt(status, min_age_ns, now),
    {
        self.status == status && self.status_age(now) >= min_age_ns
    }
}

} // verus!
