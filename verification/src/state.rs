use vstd::prelude::*;

verus! {

/// How many identities the access registry will hold at most.
pub const MAX_CREATORS: usize = 100;

/// How many entries one contest will record at most.
pub const MAX_PARTICIPANTS: usize = 1000;

/// How many winners every resolution names: exactly this many, paired by
/// index with as many payout amounts.
pub const WINNER_COUNT: usize = 10;

/// The platform fee is `total_pool / FEE_DIVISOR`, truncated.
pub const FEE_DIVISOR: u64 = 10;

/// The registry's single administrator plus the bounded set of identities
/// allowed to create and resolve contests.
pub struct AuthStore {
    pub admin: u64,
    pub authorized_creators: Vec<u64>,
}

impl AuthStore {
    /// The creator list is a set: no identity appears twice.
    pub open spec fn wf(self) -> bool {
        &&& forall|i: int, j: int|
            0 <= i < j < self.authorized_creators@.len()
                ==> self.authorized_creators@[i] != self.authorized_creators@[j]
        &&& self.authorized_creators@.len() <= MAX_CREATORS
    }
}

/// A named container an authority creates before contests; contests refer to
/// it by its identifier.
pub struct EventAccount {
    pub authority: u64,
    pub event_id: u64,
    pub name: String,
    pub status: EventStatus,
}

#[derive(Clone, Copy, Debug, PartialEq, Eq, Structural)]
pub enum EventStatus {
    Upcoming,
    Live,
    Open,
    Cancelled,
    Suspended,
}

/// The balance-bearing record for one contest.  `total_pool` mirrors the
/// funds actually held in the contest's custody: entries add to it, a
/// completed resolution subtracts what it disbursed.
pub struct ContestAccount {
    pub authority: u64,
    pub event_id: u64,
    pub contest_id: u64,
    pub name: String,
    pub entry_fee: u64,
    pub fee_receiver: u64,
    pub status: ContestStatus,
    pub total_pool: u64,
    pub participants: Vec<u64>,
}

#[derive(Clone, Copy, Debug, PartialEq, Eq, Structural)]
pub enum ContestStatus {
    Open,
    Resolved,
    Cancelled,
}

/// One external disbursement target: the identity it is bound to and the
/// balance it holds.  Resolution is handed one of these per position —
/// the host resolves targets by position, so each key must be checked
/// against the identity the caller named for that position.
#[derive(Clone, Copy, Debug, PartialEq, Eq, Structural)]
pub struct TargetAccount {
    pub key: u64,
    pub balance: u64,
}

} // verus!
