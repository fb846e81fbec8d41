use bet_ledger::record::{decode, encode, BetRecord};
use bet_ledger::{
    select_by_status, select_by_status_age, transition_step, Bet, BetStatus, BettingContract,
    LedgerError, StatusChange,
};
use near_sdk::collections::UnorderedMap;
use near_sdk::test_utils::VMContextBuilder;

/// Sets the clock of the test host, keeping what is in its storage.
fn set_clock(now: u64) {
    let context = VMContextBuilder::new().block_timestamp(now).build();
    let storage = near_sdk::mock::with_mocked_blockchain(|host| host.take_storage());
    near_sdk::env::set_blockchain_interface(near_sdk::MockedBlockchain::new(
        context,
        near_sdk::test_vm_config(),
        near_sdk::RuntimeFeesConfig::test(),
        vec![],
        storage,
        Default::default(),
        None,
    ));
}

/// A host around the library: it keeps the records in the SDK's map, one
/// map in the storage of one test, and writes what the library returns.
struct Host {
    bets: UnorderedMap<u64, BetRecord>,
    ledger: BettingContract,
}

impl Host {
    fn new() -> Host {
        Host { bets: UnorderedMap::new(vec![0u8]), ledger: BettingContract::new() }
    }

    fn new_bet(&mut self, first: &str, second: &str, amount: u128, criteria: &str) -> u64 {
        let bet = self.ledger.new_bet(first.to_string(), second.to_string(), amount, criteria.to_string());
        let id = bet.id;
        self.bets.insert(&id, &encode(&bet));
        id
    }

    fn new_bet_at(&mut self, amount: u128, criteria: &str, now: u64) -> u64 {
        let bet = self.ledger.new_bet_at("a".to_string(), "b".to_string(), amount, criteria.to_string(), now);
        let id = bet.id;
        self.bets.insert(&id, &encode(&bet));
        id
    }

    fn get_bet(&self, id: u64) -> Option<Bet> {
        self.bets.get(&id).map(|record| decode(&record).unwrap())
    }

    fn get_all_bets(&self) -> Vec<Bet> {
        self.bets.values().map(|record| decode(&record).unwrap()).collect()
    }

    fn write(&mut self, id: u64, step: Result<Option<Bet>, LedgerError>) -> Result<bool, LedgerError> {
        match step? {
            Some(bet) => {
                self.bets.insert(&id, &encode(&bet));
                Ok(true)
            }
            None => Ok(false),
        }
    }

    fn update_bet_state(&mut self, id: u64, status: BetStatus) -> Result<bool, LedgerError> {
        let step = BettingContract::update_bet_state(self.get_bet(id), status);
        self.write(id, step)
    }

    fn update_bet_state_at(&mut self, id: u64, status: BetStatus, now: u64) -> Result<bool, LedgerError> {
        let step = transition_step(self.get_bet(id), status, now);
        self.write(id, step)
    }

    fn history(&self, id: u64) -> Option<Vec<StatusChange>> {
        BettingContract::get_bet_status_history(self.get_bet(id))
    }
}

fn statuses(history: &[StatusChange]) -> Vec<BetStatus> {
    history.iter().map(|change| change.status).collect()
}

fn ids(bets: &[Bet]) -> Vec<u64> {
    bets.iter().map(|bet| bet.id).collect()
}

fn bet_at(id: u64, status: BetStatus, last_change: u64) -> Bet {
    let mut bet = Bet::open(id, "a".to_string(), "b".to_string(), 1, "c".to_string(), 0);
    bet.record_status(status, last_change);
    bet
}

#[test]
fn new_ledger_starts_at_id_zero() {
    let ledger = BettingContract::new();
    assert_eq!(ledger.next_bet_id(), 0);
    let host = Host::new();
    assert!(host.get_all_bets().is_empty());
    assert!(host.get_bet(0).is_none());
}

#[test]
fn scenario_create_then_transitions() {
    set_clock(1_000);
    let mut host = Host::new();
    let id = host.new_bet("alice.path", "bob.path", 100, "coin flip");
    assert_eq!(id, 0);

    assert_eq!(host.update_bet_state(0, BetStatus::Live), Ok(true));
    let history = host.history(0).unwrap();
    assert_eq!(statuses(&history), vec![BetStatus::Unfunded, BetStatus::Live]);

    assert_eq!(host.update_bet_state(0, BetStatus::Live), Ok(false));
    assert_eq!(host.history(0).unwrap().len(), 2);

    assert_eq!(host.update_bet_state(0, BetStatus::Resolved), Ok(true));
    let history = host.history(0).unwrap();
    assert_eq!(history.len(), 3);
    assert_eq!(
        statuses(&history),
        vec![BetStatus::Unfunded, BetStatus::Live, BetStatus::Resolved]
    );
    assert_eq!(host.get_bet(0).unwrap().status, BetStatus::Resolved);

    assert_eq!(host.update_bet_state(1, BetStatus::Live), Err(LedgerError::NotFound));
}

#[test]
fn scenario_status_age_boundary() {
    let t0: u64 = 5_000_000_000;
    let d: u64 = 60_000_000_000;
    set_clock(1_000);
    let mut host = Host::new();
    assert_eq!(host.new_bet("a", "b", 1, "first"), 0);
    assert_eq!(host.new_bet("a", "b", 2, "second"), 1);

    set_clock(t0);
    assert_eq!(host.update_bet_state(0, BetStatus::Live), Ok(true));

    set_clock(t0 + d - 1);
    assert!(BettingContract::get_bets_by_status_age(host.get_all_bets(), BetStatus::Live, d).is_empty());

    set_clock(t0 + d);
    let stuck = BettingContract::get_bets_by_status_age(host.get_all_bets(), BetStatus::Live, d);
    assert_eq!(ids(&stuck), vec![0]);
}

#[test]
fn ids_are_unique_and_increasing() {
    let mut ledger = BettingContract::new();
    let mut given: Vec<u64> = Vec::new();
    for n in 0..6u128 {
        assert_eq!(ledger.next_bet_id(), n as u64);
        let bet = ledger.new_bet(String::new(), String::new(), n, String::new());
        given.push(bet.id);
        if n == 2 {
            let step = BettingContract::update_bet_state(Some(bet), BetStatus::Live);
            assert!(matches!(step, Ok(Some(_))));
        }
    }
    assert_eq!(given, vec![0, 1, 2, 3, 4, 5]);
    assert_eq!(ledger.next_bet_id(), 6);
}

#[test]
fn restored_counter_goes_on_where_it_stopped() {
    let mut ledger = BettingContract::restore(41);
    assert_eq!(ledger.next_bet_id(), 41);
    let bet = ledger.new_bet_at(String::new(), String::new(), 0, String::new(), 5);
    assert_eq!(bet.id, 41);
    assert_eq!(ledger.next_bet_id(), 42);
    let mut last = BettingContract::restore(u64::MAX - 1);
    assert_eq!(last.new_bet_at(String::new(), String::new(), 0, String::new(), 5).id, u64::MAX - 1);
    assert_eq!(last.next_bet_id(), u64::MAX);
}

#[test]
fn created_bet_is_unfunded_with_one_entry() {
    set_clock(42);
    let mut ledger = BettingContract::new();
    let bet = ledger.new_bet(
        "alice/deposit".to_string(),
        "bob/deposit".to_string(),
        100,
        "coin flip".to_string(),
    );
    assert_eq!(bet.id, 0);
    assert_eq!(bet.participant1_deposit_path, "alice/deposit");
    assert_eq!(bet.participant2_deposit_path, "bob/deposit");
    assert_eq!(bet.amount, 100);
    assert_eq!(bet.resolution_criteria, "coin flip");
    assert_eq!(bet.status, BetStatus::Unfunded);
    assert_eq!(bet.status_history.len(), 1);
    assert_eq!(bet.created_at, 42);
    assert_eq!(bet.last_status_change, 42);
    assert_eq!(
        bet.status_history[0],
        StatusChange { status: BetStatus::Unfunded, timestamp: 42 }
    );
}

#[test]
fn new_bet_at_records_the_given_instant() {
    let mut ledger = BettingContract::new();
    let bet = ledger.new_bet_at("a".to_string(), "b".to_string(), 7, "c".to_string(), 99);
    assert_eq!(bet.id, 0);
    assert_eq!(bet.created_at, 99);
    assert_eq!(bet.last_status_change, 99);
    assert_eq!(
        bet.status_history,
        vec![StatusChange { status: BetStatus::Unfunded, timestamp: 99 }]
    );
}

#[test]
fn empty_texts_and_zero_amount_are_accepted() {
    let mut host = Host::new();
    let id = host.new_bet("", "", 0, "");
    let bet = host.get_bet(id).unwrap();
    assert_eq!(bet.participant1_deposit_path, "");
    assert_eq!(bet.participant2_deposit_path, "");
    assert_eq!(bet.resolution_criteria, "");
    assert_eq!(bet.amount, 0);
}

#[test]
fn largest_amount_and_non_ascii_text_are_kept() {
    let mut host = Host::new();
    let id = host.new_bet("pfad/ä", "путь", u128::MAX, "硬币 🪙");
    let bet = host.get_bet(id).unwrap();
    assert_eq!(bet.participant1_deposit_path, "pfad/ä");
    assert_eq!(bet.participant2_deposit_path, "путь");
    assert_eq!(bet.amount, u128::MAX);
    assert_eq!(bet.resolution_criteria, "硬币 🪙");
}

#[test]
fn transition_step_on_nothing_is_not_found() {
    assert!(matches!(
        transition_step(None, BetStatus::Live, 3),
        Err(LedgerError::NotFound)
    ));
    assert!(matches!(
        transition_step(None, BetStatus::Unfunded, 3),
        Err(LedgerError::NotFound)
    ));
    assert!(matches!(
        BettingContract::update_bet_state(None, BetStatus::Resolved),
        Err(LedgerError::NotFound)
    ));
}

#[test]
fn transition_step_to_the_same_status_writes_nothing() {
    let bet = Bet::open(4, "a".to_string(), "b".to_string(), 1, "c".to_string(), 10);
    assert!(matches!(transition_step(Some(bet), BetStatus::Unfunded, 11), Ok(None)));
    let bet = bet_at(4, BetStatus::Live, 20);
    assert!(matches!(transition_step(Some(bet), BetStatus::Live, 30), Ok(None)));
    let bet = bet_at(4, BetStatus::Live, 20);
    assert!(matches!(BettingContract::update_bet_state(Some(bet), BetStatus::Live), Ok(None)));
}

#[test]
fn transition_step_appends_one_entry() {
    let bet = Bet::open(4, "a".to_string(), "b".to_string(), 5, "c".to_string(), 10);
    let next = transition_step(Some(bet), BetStatus::Inconclusive, 25).unwrap().unwrap();
    assert_eq!(next.id, 4);
    assert_eq!(next.status, BetStatus::Inconclusive);
    assert_eq!(next.created_at, 10);
    assert_eq!(next.last_status_change, 25);
    assert_eq!(
        next.status_history,
        vec![
            StatusChange { status: BetStatus::Unfunded, timestamp: 10 },
            StatusChange { status: BetStatus::Inconclusive, timestamp: 25 },
        ]
    );
    assert_eq!(next.amount, 5);
    assert_eq!(next.participant1_deposit_path, "a");
    assert_eq!(next.participant2_deposit_path, "b");
    assert_eq!(next.resolution_criteria, "c");
}

#[test]
fn same_status_is_a_no_op() {
    set_clock(10);
    let mut host = Host::new();
    let id = host.new_bet("a", "b", 5, "c");
    set_clock(11);
    assert_eq!(host.update_bet_state(id, BetStatus::Unfunded), Ok(false));
    let bet = host.get_bet(id).unwrap();
    assert_eq!(bet.status_history.len(), 1);
    assert_eq!(bet.last_status_change, 10);

    set_clock(20);
    assert_eq!(host.update_bet_state(id, BetStatus::Live), Ok(true));
    set_clock(30);
    assert_eq!(host.update_bet_state(id, BetStatus::Live), Ok(false));
    let bet = host.get_bet(id).unwrap();
    assert_eq!(bet.status_history.len(), 2);
    assert_eq!(bet.last_status_change, 20);
}

#[test]
fn unknown_id_is_not_found() {
    let mut host = Host::new();
    assert_eq!(host.update_bet_state(0, BetStatus::Live), Err(LedgerError::NotFound));
    host.new_bet("a", "b", 1, "c");
    assert_eq!(host.update_bet_state(1, BetStatus::Live), Err(LedgerError::NotFound));
    assert_eq!(host.update_bet_state(u64::MAX, BetStatus::Live), Err(LedgerError::NotFound));
    assert_eq!(host.update_bet_state_at(7, BetStatus::Unfunded, 3), Err(LedgerError::NotFound));
    assert!(host.get_bet(1).is_none());
    assert!(host.history(1).is_none());
    assert_eq!(host.get_all_bets().len(), 1);
    assert_eq!(host.get_bet(0).unwrap().status, BetStatus::Unfunded);
}

#[test]
fn any_status_may_follow_any() {
    let mut host = Host::new();
    let id = host.new_bet_at(1, "c", 1);
    assert_eq!(host.update_bet_state_at(id, BetStatus::Resolved, 2), Ok(true));
    assert_eq!(host.update_bet_state_at(id, BetStatus::Unfunded, 3), Ok(true));
    assert_eq!(host.update_bet_state_at(id, BetStatus::Inconclusive, 4), Ok(true));
    assert_eq!(host.update_bet_state_at(id, BetStatus::Live, 5), Ok(true));
    assert_eq!(
        host.history(id).unwrap(),
        vec![
            StatusChange { status: BetStatus::Unfunded, timestamp: 1 },
            StatusChange { status: BetStatus::Resolved, timestamp: 2 },
            StatusChange { status: BetStatus::Unfunded, timestamp: 3 },
            StatusChange { status: BetStatus::Inconclusive, timestamp: 4 },
            StatusChange { status: BetStatus::Live, timestamp: 5 },
        ]
    );
}

#[test]
fn transition_leaves_other_bets_alone() {
    let mut host = Host::new();
    for n in 0..3u64 {
        host.new_bet_at(n as u128, "c", 10 + n);
    }
    assert_eq!(host.update_bet_state_at(1, BetStatus::Live, 50), Ok(true));
    let all = host.get_all_bets();
    assert_eq!(ids(&all), vec![0, 1, 2]);
    assert_eq!(all[0].status, BetStatus::Unfunded);
    assert_eq!(all[0].last_status_change, 10);
    assert_eq!(all[1].status, BetStatus::Live);
    assert_eq!(all[1].last_status_change, 50);
    assert_eq!(all[1].amount, 1);
    assert_eq!(all[2].status, BetStatus::Unfunded);
    assert_eq!(all[2].status_history.len(), 1);
    assert_eq!(all[2].amount, 2);
}

#[test]
fn select_by_status_is_the_filter_of_the_list() {
    let list = || {
        vec![
            bet_at(0, BetStatus::Unfunded, 0),
            bet_at(1, BetStatus::Live, 10),
            bet_at(2, BetStatus::Resolved, 12),
            bet_at(3, BetStatus::Unfunded, 0),
            bet_at(4, BetStatus::Live, 11),
            bet_at(5, BetStatus::Inconclusive, 14),
        ]
    };
    assert_eq!(ids(&select_by_status(list(), BetStatus::Unfunded)), vec![0, 3]);
    assert_eq!(ids(&select_by_status(list(), BetStatus::Live)), vec![1, 4]);
    assert_eq!(ids(&select_by_status(list(), BetStatus::Resolved)), vec![2]);
    assert_eq!(ids(&select_by_status(list(), BetStatus::Inconclusive)), vec![5]);
    assert!(select_by_status(Vec::new(), BetStatus::Live).is_empty());

    for status in [
        BetStatus::Unfunded,
        BetStatus::Live,
        BetStatus::Resolved,
        BetStatus::Inconclusive,
    ] {
        let expected: Vec<u64> =
            list().iter().filter(|bet| bet.status == status).map(|bet| bet.id).collect();
        assert_eq!(ids(&select_by_status(list(), status)), expected);
    }
}

#[test]
fn select_by_status_keeps_the_whole_bet() {
    let kept = select_by_status(vec![bet_at(8, BetStatus::Live, 33)], BetStatus::Live);
    assert_eq!(kept.len(), 1);
    assert_eq!(kept[0].id, 8);
    assert_eq!(kept[0].last_status_change, 33);
    assert_eq!(
        kept[0].status_history,
        vec![
            StatusChange { status: BetStatus::Unfunded, timestamp: 0 },
            StatusChange { status: BetStatus::Live, timestamp: 33 },
        ]
    );
}

#[test]
fn stored_list_is_selected_by_status() {
    let mut host = Host::new();
    for n in 0..4u64 {
        host.new_bet_at(n as u128, "c", n);
    }
    assert_eq!(host.update_bet_state_at(2, BetStatus::Live, 10), Ok(true));
    let unfunded = BettingContract::get_bets_by_status(host.get_all_bets(), BetStatus::Unfunded);
    assert_eq!(ids(&unfunded), vec![0, 1, 3]);
    let live = BettingContract::get_bets_by_status(host.get_all_bets(), BetStatus::Live);
    assert_eq!(ids(&live), vec![2]);
    assert!(BettingContract::get_bets_by_status(host.get_all_bets(), BetStatus::Resolved).is_empty());
}

#[test]
fn status_age_list_shrinks_with_a_greater_minimum() {
    let list = || {
        vec![
            bet_at(0, BetStatus::Unfunded, 0),
            bet_at(1, BetStatus::Resolved, 100),
            bet_at(2, BetStatus::Resolved, 200),
            bet_at(3, BetStatus::Live, 350),
            bet_at(4, BetStatus::Resolved, 300),
        ]
    };
    let now: u64 = 400;
    let at = |min_age: u64| ids(&select_by_status_age(list(), BetStatus::Resolved, min_age, now));
    assert_eq!(at(0), vec![1, 2, 4]);
    assert_eq!(at(100), vec![1, 2, 4]);
    assert_eq!(at(101), vec![1, 2]);
    assert_eq!(at(200), vec![1, 2]);
    assert_eq!(at(201), vec![1]);
    assert_eq!(at(300), vec![1]);
    assert_eq!(at(301), Vec::<u64>::new());
    assert_eq!(at(u64::MAX), Vec::<u64>::new());
    assert_eq!(ids(&select_by_status_age(list(), BetStatus::Live, 50, now)), vec![3]);
    assert_eq!(ids(&select_by_status_age(list(), BetStatus::Live, 51, now)), Vec::<u64>::new());
    assert_eq!(
        ids(&select_by_status_age(list(), BetStatus::Resolved, 0, now)),
        ids(&select_by_status(list(), BetStatus::Resolved))
    );
}

#[test]
fn age_is_zero_when_the_clock_reads_earlier() {
    let list = || vec![bet_at(0, BetStatus::Live, 1_000)];
    assert_eq!(ids(&select_by_status_age(list(), BetStatus::Live, 0, 10)), vec![0]);
    assert!(select_by_status_age(list(), BetStatus::Live, 1, 10).is_empty());

    set_clock(10);
    assert_eq!(ids(&BettingContract::get_bets_by_status_age(list(), BetStatus::Live, 0)), vec![0]);
    assert!(BettingContract::get_bets_by_status_age(list(), BetStatus::Live, 1).is_empty());
}

#[test]
fn clock_of_the_host_is_read_at_each_change() {
    set_clock(7);
    let mut host = Host::new();
    let id = host.new_bet("a", "b", 1, "c");
    set_clock(8);
    assert_eq!(host.update_bet_state(id, BetStatus::Live), Ok(true));
    set_clock(9);
    assert_eq!(host.update_bet_state(id, BetStatus::Resolved), Ok(true));
    let stamps: Vec<u64> =
        host.history(id).unwrap().iter().map(|change| change.timestamp).collect();
    assert_eq!(stamps, vec![7, 8, 9]);
}

#[test]
fn reloaded_state_gives_the_same_answers() {
    set_clock(3);
    let mut host = Host::new();
    host.new_bet("alice", "bob", 10, "first");
    host.new_bet("carol", "dave", 20, "second");
    set_clock(4);
    assert_eq!(host.update_bet_state(1, BetStatus::Live), Ok(true));
    let before = host.get_all_bets();

    let map_bytes = near_sdk::borsh::to_vec(&host.bets).unwrap();
    let counter_bytes = near_sdk::borsh::to_vec(&host.ledger.next_bet_id()).unwrap();
    let Host { bets, ledger } = host;
    drop(bets);
    drop(ledger);
    let reloaded = Host {
        bets: near_sdk::borsh::from_slice(&map_bytes).unwrap(),
        ledger: BettingContract::restore(near_sdk::borsh::from_slice(&counter_bytes).unwrap()),
    };

    assert_eq!(reloaded.ledger.next_bet_id(), 2);
    let after = reloaded.get_all_bets();
    assert_eq!(ids(&after), vec![0, 1]);
    for (old, new) in before.iter().zip(after.iter()) {
        assert_eq!(old.id, new.id);
        assert_eq!(old.participant1_deposit_path, new.participant1_deposit_path);
        assert_eq!(old.participant2_deposit_path, new.participant2_deposit_path);
        assert_eq!(old.amount, new.amount);
        assert_eq!(old.status, new.status);
        assert_eq!(old.created_at, new.created_at);
        assert_eq!(old.last_status_change, new.last_status_change);
        assert_eq!(old.status_history, new.status_history);
        assert_eq!(old.resolution_criteria, new.resolution_criteria);
    }
    assert_eq!(reloaded.get_bet(1).unwrap().status, BetStatus::Live);
    assert_eq!(reloaded.history(1).unwrap().len(), 2);
    assert!(reloaded.get_bet(2).is_none());
}

#[test]
fn history_of_nothing_is_absent() {
    assert!(BettingContract::get_bet_status_history(None).is_none());
    let trail = BettingContract::get_bet_status_history(Some(bet_at(2, BetStatus::Live, 9))).unwrap();
    assert_eq!(
        trail,
        vec![
            StatusChange { status: BetStatus::Unfunded, timestamp: 0 },
            StatusChange { status: BetStatus::Live, timestamp: 9 },
        ]
    );
}
