//! A ledger of wagers: creation, status changes with a complete audit
//! trail, and retrieval by status and by time spent in a status.
//!
//! The wagers are kept by the host; this library decides. Each operation
//! takes what was read from storage and returns what is to be written.
//!
//! - `status`, `bet`: the values, and the steps in the life of one wager.
//! - `steps`: the decisions of the ledger on the values read.
//! - `ledger`: the counter of ids, and the operations that read the clock.
//! - `record`: the stored form of a wager.
//! - `model`: the ledger as a mathematical value, and its operations.
//! - `laws`: what is proved of every ledger.
//! - `host`: the clock of the NEAR SDK, believed.

pub mod bet;
pub mod host;
pub mod laws;
pub mod ledger;
pub mod model;
pub mod record;
pub mod status;
pub mod steps;

pub use bet::{Bet, BetView};
pub use ledger::BettingContract;
pub use model::{LedgerError, LedgerView};
pub use status::{BetStatus, StatusChange};
pub use steps::{select_by_status, select_by_status_age, transition_step};
