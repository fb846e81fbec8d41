//! What holds of every ledger, stated over the mathematical model and
//! proved.
//!
//! The steps of the library are specified by the same functions as the
//! operations of `LedgerView` (`BetView::opened`, `BetView::with_status`,
//! `BetView::has_dwelt`). What is proved here is what a sequence of steps
//! amounts to for a host that stores each wager returned under its id and
//! hands back, for each id and for the list, what it stored last.

use crate::bet::BetView;
use crate::model::{LedgerError, LedgerView};
use crate::status::{BetStatus, StatusChange};
use vstd::prelude::*;

verus! {

/// One mutating operation of a ledger, with the instant at which it runs.
pub enum LedgerOp {
    Create {
        participant1_deposit_path: Seq<char>,
        participant2_deposit_path: Seq<char>,
        amount: u128,
        resolution_criteria: Seq<char>,
        now: u64,
    },
    Transition { id: u64, new_status: BetStatus, now: u64 },
}

impl LedgerView {
    /// The ledger after one operation.
    pub open spec fn apply(self, op: LedgerOp) -> LedgerView {
        match op {
            LedgerOp::Create {
                participant1_deposit_path,
                participant2_deposit_path,
                amount,
                resolution_criteria,
                now,
            } => self.create(
                participant1_deposit_path,
                participant2_deposit_path,
                amount,
                resolution_criteria,
                now,
            ),
            LedgerOp::Transition { id, new_status, now } => self.transition(id, new_status, now),
        }
    }

    /// The ledger after a sequence of operations, first to last.
    pub open spec fn run(self, ops: Seq<LedgerOp>) -> LedgerView
        decreases ops.len(),
    {
        if ops.len() == 0 {
            self
        } else {
            self.run(ops.drop_last()).apply(ops.last())
        }
    }
}

/// Right after its creation a wager is `Unfunded`, its audit trail has the
/// one entry of its creation, and the instants of its creation, of its last
/// change and of that entry are one; so its trail agrees with its other
/// fields and is in the order of time.
pub proof fn lemma_opened_bet(
    id: u64,
    participant1_deposit_path: Seq<char>,
    participant2_deposit_path: Seq<char>,
    amount: u128,
    resolution_criteria: Seq<char>,
    now: u64,
)
    ensures
        ({
            let bet = BetView::opened(
                id,
                participant1_deposit_path,
                participant2_deposit_path,
                amount,
                resolution_criteria,
                now,
            );
            &&& bet.id == id
            &&& bet.status == BetStatus::Unfunded
            &&& bet.status == bet.status_history.last().status
            &&& bet.status_history.len() == 1
            &&& bet.status_history[0].status == BetStatus::Unfunded
            &&& bet.created_at == now
            &&& bet.last_status_change == now
            &&& bet.status_history[0].timestamp == now
            &&& bet.consistent()
            &&& bet.chronological()
        }),
{
}

/// A status change keeps what is fixed at creation, and keeps the audit
/// trail in agreement with the other fields. A real change adds one entry
/// behind the entries there are, none of which is touched; it names the
/// new status and the instant, which are then the wager's status and the
/// instant of its last change.
pub proof fn lemma_with_status(bet: BetView, new_status: BetStatus, now: u64)
    ensures
        ({
            let after = bet.with_status(new_status, now);
            &&& after.id == bet.id
            &&& after.created_at == bet.created_at
            &&& after.amount == bet.amount
            &&& after.participant1_deposit_path == bet.participant1_deposit_path
            &&& after.participant2_deposit_path == bet.participant2_deposit_path
            &&& after.resolution_criteria == bet.resolution_criteria
            &&& after.status == new_status
            &&& bet.consistent() ==> after.consistent()
            &&& bet.status == new_status ==> after == bet
            &&& bet.status != new_status ==> {
                &&& after.status_history.len() == bet.status_history.len() + 1
                &&& after.status_history.take(bet.status_history.len() as int)
                    == bet.status_history
                &&& after.status_history.last() == StatusChange {
                    status: new_status,
                    timestamp: now,
                }
                &&& after.last_status_change == now
                &&& after.last_status_change == after.status_history.last().timestamp
            }
        }),
{
    let after = bet.with_status(new_status, now);
    if bet.status != new_status {
        assert(after.status_history.take(bet.status_history.len() as int) =~= bet.status_history);
    }
}

/// With a clock that does not run backwards a status change keeps the audit
/// trail in the order of time: this holds where the trail agrees with the
/// other fields and `now` is not earlier than the wager's last change.
pub proof fn lemma_with_status_keeps_time_order(bet: BetView, new_status: BetStatus, now: u64)
    requires
        bet.consistent(),
        bet.chronological(),
        now >= bet.last_status_change,
    ensures
        bet.with_status(new_status, now).chronological(),
        bet.status != new_status ==> now >= bet.status_history.last().timestamp,
{
    let trail = bet.with_status(new_status, now).status_history;
    assert forall|i: int, j: int| 0 <= i <= j < trail.len() implies (#[trigger] trail[i]).timestamp
        <= (#[trigger] trail[j]).timestamp by {
        if bet.status != new_status {
            let last = bet.status_history.len() - 1;
            if j < bet.status_history.len() {
                assert(trail[i] == bet.status_history[i]);
                assert(trail[j] == bet.status_history[j]);
            } else if i < bet.status_history.len() {
                assert(trail[i] == bet.status_history[i]);
                assert(bet.status_history[i].timestamp <= bet.status_history[last].timestamp);
            }
        }
    }
}

/// A status change never moves the counter of ids, and a creation moves it
/// up by one.
pub proof fn lemma_apply_next_id(ledger: LedgerView, op: LedgerOp)
    ensures
        ledger.apply(op).next_id() == ledger.next_id() + (if op is Create {
            1nat
        } else {
            0nat
        }),
{
}

/// The counter of ids never goes down: after the first `k` operations of a
/// sequence it is at most what it is after `m >= k` of them.
pub proof fn lemma_next_id_never_decreases(
    ledger: LedgerView,
    ops: Seq<LedgerOp>,
    k: int,
    m: int,
)
    requires
        0 <= k <= m <= ops.len(),
    ensures
        ledger.run(ops.take(k)).next_id() <= ledger.run(ops.take(m)).next_id(),
    decreases m - k,
{
    if k < m {
        lemma_next_id_never_decreases(ledger, ops, k, m - 1);
        assert(ops.take(m).drop_last() =~= ops.take(m - 1));
        lemma_apply_next_id(ledger.run(ops.take(m - 1)), ops.take(m).last());
    }
}

/// Ids are unique and strictly increasing in the order of the calls: of two
/// creations in a sequence of operations, with status changes or further
/// creations between them, the later one is given the greater id. The id
/// given by the operation at position `k` is the counter after the first
/// `k` operations.
pub proof fn lemma_ids_strictly_increase(ledger: LedgerView, ops: Seq<LedgerOp>, i: int, j: int)
    requires
        0 <= i < j < ops.len(),
        ops[i] is Create,
        ops[j] is Create,
    ensures
        ledger.run(ops.take(i)).next_id() < ledger.run(ops.take(j)).next_id(),
{
    assert(ops.take(i + 1).drop_last() =~= ops.take(i));
    assert(ops.take(i + 1).last() == ops[i]);
    lemma_apply_next_id(ledger.run(ops.take(i)), ops[i]);
    lemma_next_id_never_decreases(ledger, ops, i + 1, j);
}

/// A creation keeps the ledger sound, hands out the next id, puts the new
/// wager under it and leaves every other wager as it was.
pub proof fn lemma_create(
    ledger: LedgerView,
    participant1_deposit_path: Seq<char>,
    participant2_deposit_path: Seq<char>,
    amount: u128,
    resolution_criteria: Seq<char>,
    now: u64,
)
    requires
        ledger.sound(),
        ledger.next_id() < u64::MAX,
    ensures
        ({
            let after = ledger.create(
                participant1_deposit_path,
                participant2_deposit_path,
                amount,
                resolution_criteria,
                now,
            );
            let id = ledger.next_id() as u64;
            &&& after.sound()
            &&& after.next_id() == ledger.next_id() + 1
            &&& !ledger.contains(id)
            &&& after.get(id) == Some(
                BetView::opened(
                    id,
                    participant1_deposit_path,
                    participant2_deposit_path,
                    amount,
                    resolution_criteria,
                    now,
                ),
            )
            &&& forall|other: u64| ledger.contains(other) ==> after.get(other) == ledger.get(other)
            &&& ledger.chronological() ==> after.chronological()
        }),
{
    let after = ledger.create(
        participant1_deposit_path,
        participant2_deposit_path,
        amount,
        resolution_criteria,
        now,
    );
    assert forall|i: int| 0 <= i < after.bets.len() implies (#[trigger] after.bets[i]).id == i
        && after.bets[i].consistent() by {
        if i < ledger.bets.len() {
            assert(after.bets[i] == ledger.bets[i]);
        }
    }
    if ledger.chronological() {
        assert forall|i: int| 0 <= i < after.bets.len() implies (#[trigger] after.bets[i]).chronological() by {
            if i < ledger.bets.len() {
                assert(after.bets[i] == ledger.bets[i]);
            }
        }
    }
}

/// Right after its creation a wager is `Unfunded`, its audit trail has one
/// entry, and the instant of its creation is that of its last change and of
/// that entry.
pub proof fn lemma_created_bet(
    ledger: LedgerView,
    participant1_deposit_path: Seq<char>,
    participant2_deposit_path: Seq<char>,
    amount: u128,
    resolution_criteria: Seq<char>,
    now: u64,
)
    requires
        ledger.sound(),
        ledger.next_id() < u64::MAX,
    ensures
        ({
            let after = ledger.create(
                participant1_deposit_path,
                participant2_deposit_path,
                amount,
                resolution_criteria,
                now,
            );
            let id = ledger.next_id() as u64;
            &&& after.get(id) matches Some(bet)
            &&& bet.id == id
            &&& bet.status == BetStatus::Unfunded
            &&& bet.status_history.len() == 1
            &&& bet.created_at == now
            &&& bet.created_at == bet.last_status_change
            &&& bet.created_at == bet.status_history[0].timestamp
            &&& after.history(id) == Some(
                seq![StatusChange { status: BetStatus::Unfunded, timestamp: now }],
            )
        }),
{
}

/// Entering a status other than the current one: the wager is in the new
/// status, its audit trail is the old one with one entry more, that entry
/// names the new status and the instant, and the instant of the last change
/// is that of the entry. Every other wager and the counter of ids stay, and
/// the ledger stays sound.
pub proof fn lemma_transition_changes(
    ledger: LedgerView,
    id: u64,
    new_status: BetStatus,
    now: u64,
)
    requires
        ledger.sound(),
        ledger.contains(id),
        ledger.bets[id as int].status != new_status,
    ensures
        ({
            let before = ledger.bets[id as int];
            let after = ledger.transition(id, new_status, now);
            let bet = after.bets[id as int];
            &&& ledger.transition_outcome(id, new_status, now) == Ok::<Option<BetView>, LedgerError>(
                Some(bet),
            )
            &&& after.sound()
            &&& after.next_id() == ledger.next_id()
            &&& bet.status == new_status
            &&& bet.status_history.len() == before.status_history.len() + 1
            &&& bet.status_history == before.status_history.push(
                StatusChange { status: new_status, timestamp: now },
            )
            &&& bet.last_status_change == bet.status_history.last().timestamp
            &&& bet.last_status_change == now
            &&& bet.id == before.id
            &&& bet.created_at == before.created_at
            &&& bet.amount == before.amount
            &&& bet.participant1_deposit_path == before.participant1_deposit_path
            &&& bet.participant2_deposit_path == before.participant2_deposit_path
            &&& bet.resolution_criteria == before.resolution_criteria
            &&& forall|other: u64| other != id ==> after.get(other) == ledger.get(other)
        }),
{
    let after = ledger.transition(id, new_status, now);
    assert forall|i: int| 0 <= i < after.bets.len() implies (#[trigger] after.bets[i]).id == i
        && after.bets[i].consistent() by {
        assert(ledger.bets[i].consistent());
    }
}

/// With a clock that does not run backwards the new entry of an audit
/// trail is not earlier than the one before it: this holds where `now` is
/// not earlier than the wager's last change.
pub proof fn lemma_transition_entry_not_earlier(
    ledger: LedgerView,
    id: u64,
    new_status: BetStatus,
    now: u64,
)
    requires
        ledger.sound(),
        ledger.contains(id),
        ledger.bets[id as int].status != new_status,
        now >= ledger.bets[id as int].last_status_change,
    ensures
        ({
            let trail = ledger.transition(id, new_status, now).bets[id as int].status_history;
            &&& trail.len() >= 2
            &&& trail[trail.len() - 1].timestamp >= trail[trail.len() - 2].timestamp
        }),
{
    assert(ledger.bets[id as int].consistent());
}

/// With a clock that does not run backwards the audit trails stay in the
/// order of time: where no instant of a trail decreases and `now` is not
/// earlier than the wager's last change, the same holds after the wager has
/// been told to enter a status.
pub proof fn lemma_transition_keeps_time_order(
    ledger: LedgerView,
    id: u64,
    new_status: BetStatus,
    now: u64,
)
    requires
        ledger.sound(),
        ledger.chronological(),
        ledger.contains(id) ==> now >= ledger.bets[id as int].last_status_change,
    ensures
        ledger.transition(id, new_status, now).chronological(),
{
    let after = ledger.transition(id, new_status, now);
    if ledger.contains(id) {
        let before = ledger.bets[id as int];
        assert(before.consistent());
        assert(before.chronological());
        lemma_with_status_keeps_time_order(before, new_status, now);
        assert forall|k: int| 0 <= k < after.bets.len() implies (#[trigger] after.bets[k]).chronological() by {
            if k != id {
                assert(after.bets[k] == ledger.bets[k]);
            }
        }
    }
}

/// Entering the status that the wager is in changes nothing: not the audit
/// trail, not the instant of the last change, nothing else of the ledger.
pub proof fn lemma_transition_to_same_status(
    ledger: LedgerView,
    id: u64,
    new_status: BetStatus,
    now: u64,
)
    requires
        ledger.contains(id),
        ledger.bets[id as int].status == new_status,
    ensures
        ledger.transition_outcome(id, new_status, now) == Ok::<Option<BetView>, LedgerError>(None),
        ledger.transition(id, new_status, now) == ledger,
{
    assert(ledger.transition(id, new_status, now).bets =~= ledger.bets);
}

/// An unknown id: a status change is refused with `NotFound` and leaves the
/// ledger as it is; the wager and its audit trail are absent.
pub proof fn lemma_unknown_id(ledger: LedgerView, id: u64, new_status: BetStatus, now: u64)
    requires
        !ledger.contains(id),
    ensures
        ledger.transition_outcome(id, new_status, now) == Err::<Option<BetView>, LedgerError>(
            LedgerError::NotFound,
        ),
        ledger.transition(id, new_status, now) == ledger,
        ledger.get(id).is_none(),
        ledger.history(id).is_none(),
{
}

/// Every sequence of operations keeps a sound ledger sound, as long as the
/// counter of ids stays within 64 bits.
pub proof fn lemma_run_sound(ledger: LedgerView, ops: Seq<LedgerOp>)
    requires
        ledger.sound(),
        ledger.next_id() + ops.len() <= u64::MAX,
    ensures
        ledger.run(ops).sound(),
        ledger.run(ops).next_id() <= ledger.next_id() + ops.len(),
    decreases ops.len(),
{
    if ops.len() > 0 {
        let before = ledger.run(ops.drop_last());
        lemma_run_sound(ledger, ops.drop_last());
        match ops.last() {
            LedgerOp::Create {
                participant1_deposit_path,
                participant2_deposit_path,
                amount,
                resolution_criteria,
                now,
            } => {
                lemma_create(
                    before,
                    participant1_deposit_path,
                    participant2_deposit_path,
                    amount,
                    resolution_criteria,
                    now,
                );
            },
            LedgerOp::Transition { id, new_status, now } => {
                if before.contains(id) {
                    if before.bets[id as int].status != new_status {
                        lemma_transition_changes(before, id, new_status, now);
                    } else {
                        lemma_transition_to_same_status(before, id, new_status, now);
                    }
                }
            },
        }
    }
}

/// Filtering twice is filtering once by both conditions.
pub proof fn lemma_filter_twice<A>(
    items: Seq<A>,
    first: spec_fn(A) -> bool,
    second: spec_fn(A) -> bool,
    both: spec_fn(A) -> bool,
)
    requires
        forall|a: A| #[trigger] both(a) == (first(a) && second(a)),
    ensures
        items.filter(first).filter(second) == items.filter(both),
    decreases items.len(),
{
    reveal(Seq::filter);
    if items.len() > 0 {
        let rest = items.drop_last();
        let last = items.last();
        lemma_filter_twice(rest, first, second, both);
        assert(rest.push(last) =~= items);
        rest.lemma_filter_push(last, first);
        rest.lemma_filter_push(last, both);
        if first(last) {
            rest.filter(first).lemma_filter_push(last, second);
        }
    }
}

/// The wagers listed for a status are exactly the wagers of the ledger that
/// are in that status.
pub proof fn lemma_by_status_selects(ledger: LedgerView, status: BetStatus)
    ensures
        forall|bet: BetView| #[trigger]
            ledger.by_status(status).contains(bet) <==> ledger.bets.contains(bet) && bet.status
                == status,
        ledger.by_status(status).len() <= ledger.bets.len(),
{
    let wanted = |bet: BetView| bet.status == status;
    ledger.bets.lemma_filter_len(wanted);
    assert forall|bet: BetView| #[trigger]
        ledger.by_status(status).contains(bet) <==> ledger.bets.contains(bet) && bet.status
            == status by {
        if ledger.by_status(status).contains(bet) {
            ledger.bets.lemma_filter_contains_rev(wanted, bet);
            let i = choose|i: int|
                0 <= i < ledger.bets.filter(wanted).len() && ledger.bets.filter(wanted)[i] == bet;
            ledger.bets.lemma_filter_pred(wanted, i);
        }
        if ledger.bets.contains(bet) && bet.status == status {
            let i = choose|i: int| 0 <= i < ledger.bets.len() && ledger.bets[i] == bet;
            ledger.bets.lemma_filter_contains(wanted, i);
        }
    }
}

/// The wagers listed for a status and a minimum age are exactly those
/// listed for the status whose time in it, at instant `now`, is at least
/// the minimum.
pub proof fn lemma_by_status_age_refines(
    ledger: LedgerView,
    status: BetStatus,
    min_age_ns: u64,
    now: u64,
)
    ensures
        ledger.by_status_age(status, min_age_ns, now) == ledger.by_status(status).filter(
            |bet: BetView| bet.age_at(now) >= min_age_ns,
        ),
        ledger.by_status_age(status, min_age_ns, now).len() <= ledger.by_status(status).len(),
{
    let in_status = |bet: BetView| bet.status == status;
    let old_enough = |bet: BetView| bet.age_at(now) >= min_age_ns;
    let both = |bet: BetView| bet.has_dwelt(status, min_age_ns, now);
    lemma_filter_twice(ledger.bets, in_status, old_enough, both);
    ledger.bets.filter(in_status).lemma_filter_len(old_enough);
}

/// Asking for a greater minimum age never adds a wager: the list for the
/// greater minimum is the list for the smaller one without the wagers that
/// are too young, so it is no longer.
pub proof fn lemma_by_status_age_shrinks(
    ledger: LedgerView,
    status: BetStatus,
    smaller: u64,
    greater: u64,
    now: u64,
)
    requires
        smaller <= greater,
    ensures
        ledger.by_status_age(status, greater, now) == ledger.by_status_age(
            status,
            smaller,
            now,
        ).filter(|bet: BetView| bet.age_at(now) >= greater),
        ledger.by_status_age(status, greater, now).len() <= ledger.by_status_age(
            status,
            smaller,
            now,
        ).len(),
        forall|bet: BetView| #[trigger]
            ledger.by_status_age(status, greater, now).contains(bet) ==> ledger.by_status_age(
                status,
                smaller,
                now,
            ).contains(bet),
{
    let loose = |bet: BetView| bet.has_dwelt(status, smaller, now);
    let old_enough = |bet: BetView| bet.age_at(now) >= greater;
    let tight = |bet: BetView| bet.has_dwelt(status, greater, now);
    lemma_filter_twice(ledger.bets, loose, old_enough, tight);
    ledger.bets.filter(loose).lemma_filter_len(old_enough);
    assert forall|bet: BetView| #[trigger]
        ledger.by_status_age(status, greater, now).contains(bet) implies ledger.by_status_age(
        status,
        smaller,
        now,
    ).contains(bet) by {
        ledger.bets.filter(loose).lemma_filter_contains_rev(old_enough, bet);
    }
}

/// With a minimum age of zero the clock does not matter: the list is the
/// one for the status alone.
pub proof fn lemma_by_status_age_zero(ledger: LedgerView, status: BetStatus, now: u64)
    ensures
        ledger.by_status_age(status, 0, now) == ledger.by_status(status),
{
    let in_status = |bet: BetView| bet.status == status;
    let any_age = |bet: BetView| bet.has_dwelt(status, 0, now);
    lemma_filter_twice(ledger.bets, in_status, in_status, any_age);
    lemma_filter_twice(ledger.bets, in_status, in_status, in_status);
}

} // verus!
