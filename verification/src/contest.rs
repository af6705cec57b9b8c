use vstd::prelude::*;

use crate::error::ErrorCode;
use crate::state::{AuthStore, ContestAccount, ContestStatus, MAX_PARTICIPANTS};

verus! {

/// Fact recorded when a contest is created.
#[derive(Debug)]
pub struct ContestCreated {
    pub contest_id: u64,
    pub event_id: u64,
    pub entry_fee: u64,
    pub name: String,
    pub fee_receiver: u64,
}

/// Fact recorded when a participant's entry is accepted.
#[derive(Clone, Copy, Debug, PartialEq, Eq, Structural)]
pub struct ContestEntered {
    pub contest_id: u64,
    pub user: u64,
    pub amount: u64,
}

/// Creates a contest under an event: open, with an empty pool and no
/// participants.  Only an authorized creator may do so.  When no fee
/// receiver is named, the registry's administrator takes that role.
pub fn create_contest(
    store: &AuthStore,
    authority: u64,
    event_id: u64,
    contest_id: u64,
    entry_fee: u64,
    name: String,
    fee_receiver: Option<u64>,
) -> (r: Result<(ContestAccount, ContestCreated), ErrorCode>)
    ensures
        r is Ok <==> store.authorized_creators@.contains(authority),
        r matches Err(e) ==> e == ErrorCode::Unauthorized,
        r matches Ok(p) ==> {
            &&& p.0.authority == authority
            &&& p.0.event_id == event_id
            &&& p.0.contest_id == contest_id
            &&& p.0.name@ == name@
            &&& p.0.entry_fee == entry_fee
            &&& p.0.fee_receiver == (if fee_receiver is Some {
                fee_receiver->0
            } else {
                store.admin
            })
            &&& p.0.status is Open
            &&& p.0.total_pool == 0
            &&& p.0.participants@ =~= Seq::<u64>::empty()
            &&& p.1.contest_id == contest_id
            &&& p.1.event_id == event_id
            &&& p.1.entry_fee == entry_fee
            &&& p.1.name@ == name@
            &&& p.1.fee_receiver == p.0.fee_receiver
        },
{
    if !crate::registry::is_authorized(store, authority) {
        return Err(ErrorCode::Unauthorized);
    }
    let receiver = match fee_receiver {
        Some(identity) => identity,
        None => store.admin,
    };
    let fact = ContestCreated {
        contest_id,
        event_id,
        entry_fee,
        name: name.clone(),
        fee_receiver: receiver,
    };
    let contest = ContestAccount {
        authority,
        event_id,
        contest_id,
        name,
        entry_fee,
        fee_receiver: receiver,
        status: ContestStatus::Open,
        total_pool: 0,
        participants: Vec::new(),
    };
    Ok((contest, fact))
}

/// Why an entry on this contest with this amount would be rejected, or
/// `None` when it would be accepted.  The checks run in this order.
pub open spec fn enter_error(c: ContestAccount, amount: u64) -> Option<ErrorCode> {
    if !(c.status is Open) {
        Some(ErrorCode::InvalidContestStatus)
    } else if amount != c.entry_fee {
        Some(ErrorCode::IncorrectAmount)
    } else if c.total_pool + amount > u64::MAX {
        Some(ErrorCode::Overflow)
    } else if c.participants@.len() >= MAX_PARTICIPANTS {
        Some(ErrorCode::CapacityExceeded)
    } else {
        None
    }
}

/// Records `user`'s entry: the host has moved `amount` from the user's
/// external balance into the contest's custody, and the pool and the
/// participant list are credited to mirror it.  The amount must equal the
/// contest's entry fee exactly.  Any failure leaves the contest untouched.
pub fn enter_contest(contest: &mut ContestAccount, user: u64, amount: u64) -> (r: Result<
    ContestEntered,
    ErrorCode,
>)
    ensures
        r is Ok <==> enter_error(*old(contest), amount) is None,
        r matches Err(e) ==> Some(e) == enter_error(*old(contest), amount) && *final(contest)
            == *old(contest),
        r matches Ok(fact) ==> {
            &&& final(contest).total_pool == old(contest).total_pool + amount
            &&& final(contest).participants@ == old(contest).participants@.push(user)
            &&& fact == (ContestEntered {
                contest_id: old(contest).contest_id,
                user,
                amount,
            })
        },
        !(old(contest).status is Open) ==> r == Err::<ContestEntered, ErrorCode>(
            ErrorCode::InvalidContestStatus,
        ),
        old(contest).status is Open && amount != old(contest).entry_fee ==> r == Err::<
            ContestEntered,
            ErrorCode,
        >(ErrorCode::IncorrectAmount),
        final(contest).status == old(contest).status,
        final(contest).authority == old(contest).authority,
        final(contest).event_id == old(contest).event_id,
        final(contest).contest_id == old(contest).contest_id,
        final(contest).name == old(contest).name,
        final(contest).entry_fee == old(contest).entry_fee,
        final(contest).fee_receiver == old(contest).fee_receiver,
{
    match contest.status {
        ContestStatus::Open => {},
        _ => {
            return Err(ErrorCode::InvalidContestStatus);
        },
    }
    if amount != contest.entry_fee {
        return Err(ErrorCode::IncorrectAmount);
    }
    let pool = match contest.total_pool.checked_add(amount) {
        Some(pool) => pool,
        None => {
            return Err(ErrorCode::Overflow);
        },
    };
    if contest.participants.len() >= MAX_PARTICIPANTS {
        return Err(ErrorCode::CapacityExceeded);
    }
    contest.total_pool = pool;
    contest.participants.push(user);
    Ok(ContestEntered { contest_id: contest.contest_id, user, amount })
}

/// The amounts of a series of entries, added up.
pub open spec fn sum_amounts(entries: Seq<(u64, u64)>) -> int
    decreases entries.len(),
{
    if entries.len() == 0 {
        0
    } else {
        sum_amounts(entries.drop_last()) + entries.last().1
    }
}

/// `states` is a run of one contest under successive accepted entries:
/// `states[0]` before the first, `states[k + 1]` right after entry `k`
/// (a participant paired with an amount) was accepted.
pub open spec fn accepted_entry_run(states: Seq<ContestAccount>, entries: Seq<(u64, u64)>) -> bool {
    &&& states.len() == entries.len() + 1
    &&& forall|k: int|
        0 <= k < entries.len() ==> {
            &&& enter_error(#[trigger] states[k], entries[k].1) is None
            &&& states[k + 1].total_pool == states[k].total_pool + entries[k].1
            &&& states[k + 1].participants@ == states[k].participants@.push(entries[k].0)
        }
}

/// Over any run of accepted entries the pool grows by exactly the sum of
/// the accepted amounts, and the participant list by exactly one entry per
/// accepted call — duplicates included.
pub proof fn lemma_pool_accumulates(states: Seq<ContestAccount>, entries: Seq<(u64, u64)>)
    requires
        accepted_entry_run(states, entries),
    ensures
        states.last().total_pool == states[0].total_pool + sum_amounts(entries),
        states.last().participants@.len() == states[0].participants@.len() + entries.len(),
    decreases entries.len(),
{
    if entries.len() > 0 {
        let shorter = states.drop_last();
        assert(accepted_entry_run(shorter, entries.drop_last()));
        lemma_pool_accumulates(shorter, entries.drop_last());
        assert(states.last().participants@ == states[states.len() - 2].participants@.push(
            entries.last().0,
        ));
    }
}

} // verus!
