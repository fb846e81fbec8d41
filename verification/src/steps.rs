//! The decisions of the ledger, as functions on the values that were read
//! from storage. What they return is what is to be written or handed out.

use crate::bet::{Bet, BetView};
use crate::laws::lemma_filter_twice;
use crate::model::{LedgerError, LedgerView};
use crate::status::BetStatus;
use vstd::prelude::*;

verus! {

/// The views of a list of wagers.
pub open spec fn views(bets: Seq<Bet>) -> Seq<BetView> {
    bets.map_values(|bet: Bet| bet@)
}

/// The ledger that holds exactly the wagers given, in the order given.
pub open spec fn as_ledger(bets: Seq<Bet>) -> LedgerView {
    LedgerView { bets: views(bets) }
}

/// Decides a status change at instant `now`, given what storage holds under
/// the id.
///
/// Nothing found is refused with `NotFound`. For the status that the wager
/// is in already there is nothing to write: `Ok(None)`. Any other status is
/// entered, whatever the current one, and the wager to write is returned:
/// the status and the instant of the last change are set and one entry is
/// added to the audit trail.
pub fn transition_step(found: Option<Bet>, new_status: BetStatus, now: u64) -> (step: Result<
    Option<Bet>,
    LedgerError,
>)
    ensures
        found is None ==> step == Err::<Option<Bet>, LedgerError>(LedgerError::NotFound),
        found matches Some(b) && b.status == new_status ==> step matches Ok(None),
        found matches Some(b) ==> (b.status != new_status ==> (step matches Ok(Some(n)) && n@
            == b@.with_status(new_status, now))),
{
    match found {
        None => Err(LedgerError::NotFound),
        Some(bet) => {
            let mut bet = bet;
            if bet.record_status(new_status, now) {
                Ok(Some(bet))
            } else {
                Ok(None)
            }
        },
    }
}

/// Of the wagers given, those that are in `status` and have been so for at
/// least `min_age_ns` nanoseconds at instant `now`, in the order given.
/// Where `now` is earlier than a wager's last change, its time in the
/// status counts as zero.
pub fn select_by_status_age(bets: Vec<Bet>, status: BetStatus, min_age_ns: u64, now: u64) -> (out:
    Vec<Bet>)
    ensures
        views(out@) == views(bets@).filter(
            |bet: BetView| bet.has_dwelt(status, min_age_ns, now),
        ),
{
    let ghost all = views(bets@);
    let ghost wanted = |bet: BetView| bet.has_dwelt(status, min_age_ns, now);
    let mut out: Vec<Bet> = Vec::new();
    proof {
        assert(all.take(0) =~= Seq::<BetView>::empty());
        assert(all.take(0).filter(wanted) =~= Seq::<BetView>::empty()) by {
            reveal(Seq::filter);
        }
    }
    for bet in it: bets.into_iter()
        invariant
            it.seq() == bets@,
            all == views(bets@),
            wanted == (|bet: BetView| bet.has_dwelt(status, min_age_ns, now)),
            views(out@) =~= all.take(it.index() as int).filter(wanted),
    {
        proof {
            let i = it.index() as int;
            assert(all[i] == bet@);
            assert(all.take(i + 1) =~= all.take(i).push(bet@));
            all.take(i).lemma_filter_push(bet@, wanted);
            assert(views(out@.push(bet)) =~= views(out@).push(bet@));
        }
        if bet.has_dwelt(status, min_age_ns, now) {
            out.push(bet);
        }
    }
    proof {
        assert(all.take(all.len() as int) =~= all);
    }
    out
}

/// Of the wagers given, those that are in `status`, in the order given.
pub fn select_by_status(bets: Vec<Bet>, status: BetStatus) -> (out: Vec<Bet>)
    ensures
        views(out@) == views(bets@).filter(|bet: BetView| bet.status == status),
{
    proof {
        let in_status = |bet: BetView| bet.status == status;
        let any_age = |bet: BetView| bet.has_dwelt(status, 0, 0);
        lemma_filter_twice(views(bets@), in_status, in_status, any_age);
        lemma_filter_twice(views(bets@), in_status, in_status, in_status);
    }
    select_by_status_age(bets, status, 0, 0)
}

} // verus!
