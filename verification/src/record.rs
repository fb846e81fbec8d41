//! The stored form of a wager.
//!
//! The durable map keeps each wager as a tuple of plain values, in the
//! order of the fields of `Bet`, with every status written as one byte.
//! This module converts between the two forms and proves that nothing is
//! lost on the way.

use crate::bet::{Bet, BetView};
use crate::status::{BetStatus, StatusChange};
use vstd::prelude::*;

verus! {

/// A wager as the durable map holds it: id, the two deposit paths, amount,
/// status byte, creation instant, instant of the last change, audit trail
/// (status byte and instant of each entry), criteria.
pub type BetRecord = (u64, String, String, u128, u8, u64, u64, Vec<(u8, u64)>, String);

/// What a `BetRecord` is, as a mathematical value.
pub type RecordView = (
    u64,
    Seq<char>,
    Seq<char>,
    u128,
    u8,
    u64,
    u64,
    Seq<(u8, u64)>,
    Seq<char>,
);

/// The mathematical value of a stored record.
pub open spec fn record_view(record: BetRecord) -> RecordView {
    (
        record.0,
        record.1@,
        record.2@,
        record.3,
        record.4,
        record.5,
        record.6,
        record.7@,
        record.8@,
    )
}

/// Every status byte of a record stands for a status.
pub open spec fn record_valid(record: RecordView) -> bool {
    &&& BetStatus::is_code(record.4)
    &&& forall|i: int| 0 <= i < record.7.len() ==> BetStatus::is_code((#[trigger] record.7[i]).0)
}

/// The stored form of one audit entry.
pub open spec fn entry_of(change: StatusChange) -> (u8, u64) {
    (change.status.code(), change.timestamp)
}

/// The audit entry that a stored pair stands for.
pub open spec fn change_of(entry: (u8, u64)) -> StatusChange {
    StatusChange { status: BetStatus::of_code(entry.0), timestamp: entry.1 }
}

/// The stored form of a wager.
pub open spec fn record_of(bet: BetView) -> RecordView {
    (
        bet.id,
        bet.participant1_deposit_path,
        bet.participant2_deposit_path,
        bet.amount,
        bet.status.code(),
        bet.created_at,
        bet.last_status_change,
        bet.status_history.map_values(|change: StatusChange| entry_of(change)),
        bet.resolution_criteria,
    )
}

/// The wager that a stored record stands for. Meaningful where
/// `record_valid(record)` holds.
pub open spec fn bet_of(record: RecordView) -> BetView {
    BetView {
        id: record.0,
        participant1_deposit_path: record.1,
        participant2_deposit_path: record.2,
        amount: record.3,
        status: BetStatus::of_code(record.4),
        created_at: record.5,
        last_status_change: record.6,
        status_history: record.7.map_values(|entry: (u8, u64)| change_of(entry)),
        resolution_criteria: record.8,
    }
}

/// Storing a wager and reading the record back gives the same wager, and
/// what is stored is always valid.
pub proof fn lemma_record_round_trip(bet: BetView)
    ensures
        record_valid(record_of(bet)),
        bet_of(record_of(bet)) == bet,
{
    let record = record_of(bet);
    assert(bet_of(record).status_history =~= bet.status_history);
}

/// Reading a valid record and storing the wager gives the same record.
pub proof fn lemma_bet_round_trip(record: RecordView)
    requires
        record_valid(record),
    ensures
        record_of(bet_of(record)) == record,
{
    let bet = bet_of(record);
    assert(record_of(bet).7 =~= record.7) by {
        assert forall|i: int| 0 <= i < record.7.len() implies #[trigger] record_of(bet).7[i]
            == record.7[i] by {
            assert(BetStatus::is_code(record.7[i].0));
        }
    }
}

/// Converts a wager into its stored form.
pub fn encode(bet: &Bet) -> (record: BetRecord)
    ensures
        record_view(record) == record_of(bet@),
{
    let mut entries: Vec<(u8, u64)> = Vec::new();
    let mut i: usize = 0;
    while i < bet.status_history.len()
        invariant
            i <= bet.status_history.len(),
            entries@ =~= bet.status_history@.take(i as int).map_values(
                |change: StatusChange| entry_of(change),
            ),
        decreases bet.status_history.len() - i,
    {
        let change = bet.status_history[i];
        entries.push((change.status.to_code(), change.timestamp));
        i += 1;
    }
    assert(bet.status_history@.take(i as int) =~= bet.status_history@);
    (
        bet.id,
        bet.participant1_deposit_path.clone(),
        bet.participant2_deposit_path.clone(),
        bet.amount,
        bet.status.to_code(),
        bet.created_at,
        bet.last_status_change,
        entries,
        bet.resolution_criteria.clone(),
    )
}

/// Converts a stored record into a wager: `Some` exactly where every status
/// byte of the record stands for a status.
pub fn decode(record: &BetRecord) -> (bet: Option<Bet>)
    ensures
        bet.is_some() == record_valid(record_view(*record)),
        bet matches Some(b) ==> b@ == bet_of(record_view(*record)),
{
    let status = match BetStatus::from_code(record.4) {
        Some(status) => status,
        None => {
            return None;
        },
    };
    let mut status_history: Vec<StatusChange> = Vec::new();
    let mut i: usize = 0;
    while i < record.7.len()
        invariant
            i <= record.7.len(),
            forall|k: int| 0 <= k < i ==> BetStatus::is_code((#[trigger] record.7@[k]).0),
            status_history@ =~= record.7@.take(i as int).map_values(
                |entry: (u8, u64)| change_of(entry),
            ),
        decreases record.7.len() - i,
    {
        let entry = record.7[i];
        match BetStatus::from_code(entry.0) {
            Some(entry_status) => {
                status_history.push(StatusChange { status: entry_status, timestamp: entry.1 });
            },
            None => {
                return None;
            },
        }
        i += 1;
    }
    assert(record.7@.take(i as int) =~= record.7@);
    Some(
        Bet {
            id: record.0,
            participant1_deposit_path: record.1.clone(),
            participant2_deposit_path: record.2.clone(),
            amount: record.3,
            status,
            created_at: record.5,
            last_status_change: record.6,
            status_history,
            resolution_criteria: record.8.clone(),
        },
    )
}

} // verus!
