//! The states a wager passes through, and one entry of its audit trail.

use vstd::prelude::*;

verus! {

/// The lifecycle state of a wager.
///
/// The four states carry no order and no transition graph: any state may
/// follow any other.
#[derive(Clone, Copy, Debug, PartialEq, Eq, Structural)]
pub enum BetStatus {
    Unfunded,
    Live,
    Resolved,
    Inconclusive,
}

/// One entry of a wager's audit trail: the state it entered, and when.
///
/// The timestamp counts nanoseconds, as the host's clock does.
#[derive(Clone, Copy, Debug, PartialEq, Eq, Structural)]
pub struct StatusChange {
    pub status: BetStatus,
    pub timestamp: u64,
}

impl BetStatus {
    /// The byte under which a state is stored: its position among the
    /// variants.
    pub open spec fn code(self) -> u8 {
        match self {
            BetStatus::Unfunded => 0,
            BetStatus::Live => 1,
            BetStatus::Resolved => 2,
            BetStatus::Inconclusive => 3,
        }
    }

    /// Whether a stored byte stands for a state.
    pub open spec fn is_code(code: u8) -> bool {
        code < 4
    }

    /// The state that a stored byte stands for. Meaningful where
    /// `is_code(code)` holds.
    pub open spec fn of_code(code: u8) -> BetStatus {
        if code == 0 {
            BetStatus::Unfunded
        } else if code == 1 {
            BetStatus::Live
        } else if code == 2 {
            BetStatus::Resolved
        } else {
            BetStatus::Inconclusive
        }
    }

    /// Encodes a state as its stored byte.
    pub fn to_code(self) -> (code: u8)
        ensures
            code == self.code(),
            Self::is_code(code),
            Self::of_code(code) == self,
    {
        match self {
            BetStatus::Unfunded => 0,
            BetStatus::Live => 1,
            BetStatus::Resolved => 2,
            BetStatus::Inconclusive => 3,
        }
    }

    /// Decodes a stored byte: `Some` exactly for the four bytes that stand
    /// for a state.
    pub fn from_code(code: u8) -> (status: Option<BetStatus>)
        ensures
            status.is_some() == Self::is_code(code),
            status matches Some(s) ==> s == Self::of_code(code) && s.code() == code,
    {
        if code == 0 {
            Some(BetStatus::Unfunded)
        } else if code == 1 {
            Some(BetStatus::Live)
        } else if code == 2 {
            Some(BetStatus::Resolved)
        } else if code == 3 {
            Some(BetStatus::Inconclusive)
        } else {
            None
        }
    }
}

} // verus!
