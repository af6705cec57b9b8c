use vstd::prelude::*;

use crate::error::ErrorCode;
use crate::state::{AuthStore, ContestAccount, ContestStatus, TargetAccount};
use crate::state::{FEE_DIVISOR, WINNER_COUNT};

verus! {

/// Fact recorded when a contest is resolved.
#[derive(Clone, Copy, Debug, PartialEq, Eq, Structural)]
pub struct ContestResolved {
    pub contest_id: u64,
    pub winners_count: u64,
    pub total_payout: u64,
    pub fee_receiver: u64,
    pub fee_amount: u64,
}

/// The payout amounts, added up.
pub open spec fn sum_payouts(payouts: Seq<u64>) -> int
    decreases payouts.len(),
{
    if payouts.len() == 0 {
        0
    } else {
        sum_payouts(payouts.drop_last()) + payouts.last()
    }
}

/// The platform's cut of a pool: a tenth, truncated.
pub open spec fn fee_amount(pool: u64) -> int {
    pool as int / FEE_DIVISOR as int
}

/// Walks the winner positions from `k` up, in order, and names the first
/// rejection among them: a nonzero payout whose target is bound to the
/// wrong identity, then a credit that would wrap.  Zero payouts are
/// skipped: their targets are never inspected.
pub open spec fn winner_binding_error(
    k: int,
    winners: Seq<u64>,
    payouts: Seq<u64>,
    targets: Seq<TargetAccount>,
) -> Option<ErrorCode>
    decreases WINNER_COUNT - k,
{
    if k >= WINNER_COUNT {
        None
    } else if payouts[k] == 0 {
        winner_binding_error(k + 1, winners, payouts, targets)
    } else if targets[k].key != winners[k] {
        Some(ErrorCode::MissingWinnerAccount)
    } else if targets[k].balance + payouts[k] > u64::MAX {
        Some(ErrorCode::Overflow)
    } else {
        winner_binding_error(k + 1, winners, payouts, targets)
    }
}

/// Why this resolution call would be rejected, or `None` when it would
/// succeed.  The checks run in this order, and a failure anywhere leaves
/// every record untouched.
pub open spec fn resolve_error(
    store: AuthStore,
    c: ContestAccount,
    caller: u64,
    winners: Seq<u64>,
    payouts: Seq<u64>,
    targets: Seq<TargetAccount>,
) -> Option<ErrorCode> {
    if !store.authorized_creators@.contains(caller) {
        Some(ErrorCode::Unauthorized)
    } else if winners.len() != WINNER_COUNT || payouts.len() != WINNER_COUNT {
        Some(ErrorCode::InvalidWinnersCount)
    } else if !(c.status is Open) {
        Some(ErrorCode::InvalidContestStatus)
    } else if sum_payouts(payouts) > u64::MAX {
        Some(ErrorCode::Overflow)
    } else if sum_payouts(payouts) + fee_amount(c.total_pool) > c.total_pool {
        Some(ErrorCode::InsufficientPool)
    } else if targets.len() < WINNER_COUNT + 1 {
        Some(ErrorCode::MissingWinnerAccount)
    } else if targets[WINNER_COUNT as int].key != c.fee_receiver {
        Some(ErrorCode::MissingWinnerAccount)
    } else if targets[WINNER_COUNT as int].balance + fee_amount(c.total_pool) > u64::MAX {
        Some(ErrorCode::Overflow)
    } else {
        winner_binding_error(0, winners, payouts, targets)
    }
}

/// Whether this resolution call succeeds.
pub open spec fn resolve_ok(
    store: AuthStore,
    c: ContestAccount,
    caller: u64,
    winners: Seq<u64>,
    payouts: Seq<u64>,
    targets: Seq<TargetAccount>,
) -> bool {
    resolve_error(store, c, caller, winners, payouts, targets) is None
}

/// What position `k` of the target list is credited by a resolution:
/// winner positions get their payout, the next position is the fee
/// receiver's and gets the fee, positions beyond get nothing.
pub open spec fn credit_at(k: int, payouts: Seq<u64>, fee: int) -> int {
    if 0 <= k < WINNER_COUNT {
        payouts[k] as int
    } else if k == WINNER_COUNT {
        fee
    } else {
        0
    }
}

/// The target list after a successful resolution: same length, every key
/// unchanged, every balance grown by exactly that position's credit.
pub open spec fn disbursed(
    before: Seq<TargetAccount>,
    after: Seq<TargetAccount>,
    payouts: Seq<u64>,
    fee: int,
) -> bool {
    &&& after.len() == before.len()
    &&& forall|k: int|
        0 <= k < before.len() ==> (#[trigger] after[k]).key == before[k].key && after[k].balance
            == before[k].balance + credit_at(k, payouts, fee)
}

/// The contest after a successful resolution: terminally `Resolved`, its
/// pool debited by the fee and the payouts, everything else as it was.
pub open spec fn resolved_contest(
    before: ContestAccount,
    after: ContestAccount,
    payouts: Seq<u64>,
) -> bool {
    &&& after.status is Resolved
    &&& after.total_pool == before.total_pool - fee_amount(before.total_pool) - sum_payouts(
        payouts,
    )
    &&& after.authority == before.authority
    &&& after.event_id == before.event_id
    &&& after.contest_id == before.contest_id
    &&& after.name == before.name
    &&& after.entry_fee == before.entry_fee
    &&& after.fee_receiver == before.fee_receiver
    &&& after.participants == before.participants
}

/// A prefix of the payouts never adds up to more than the whole list does.
proof fn lemma_sum_take_bound(payouts: Seq<u64>, m: int)
    requires
        0 <= m <= payouts.len(),
    ensures
        sum_payouts(payouts.take(m)) <= sum_payouts(payouts),
    decreases payouts.len() - m,
{
    if m == payouts.len() {
        assert(payouts.take(m) =~= payouts);
    } else {
        assert(payouts.take(m + 1).drop_last() =~= payouts.take(m));
        lemma_sum_take_bound(payouts, m + 1);
    }
}

/// The balances of a list of targets, added up.
pub open spec fn balance_total(targets: Seq<TargetAccount>) -> int
    decreases targets.len(),
{
    if targets.len() == 0 {
        0
    } else {
        balance_total(targets.drop_last()) + targets.last().balance
    }
}

/// What a resolution credits to the first `n` target positions, added up.
pub open spec fn credit_total(n: int, payouts: Seq<u64>, fee: int) -> int
    decreases n,
{
    if n <= 0 {
        0
    } else {
        credit_total(n - 1, payouts, fee) + credit_at(n - 1, payouts, fee)
    }
}

/// A disbursement grows the targets' total balance by exactly the total
/// of the per-position credits.
proof fn lemma_disbursed_sum(
    before: Seq<TargetAccount>,
    after: Seq<TargetAccount>,
    payouts: Seq<u64>,
    fee: int,
)
    requires
        disbursed(before, after, payouts, fee),
    ensures
        balance_total(after) == balance_total(before) + credit_total(
            before.len() as int,
            payouts,
            fee,
        ),
    decreases before.len(),
{
    if before.len() > 0 {
        assert(disbursed(before.drop_last(), after.drop_last(), payouts, fee));
        lemma_disbursed_sum(before.drop_last(), after.drop_last(), payouts, fee);
    }
}

/// Once the target list covers every winner position and the fee
/// receiver's, the credits add up to the payouts plus the fee, and extra
/// positions add nothing.
proof fn lemma_credit_total_closed(n: int, payouts: Seq<u64>, fee: int)
    requires
        payouts.len() == WINNER_COUNT,
        0 <= n,
    ensures
        n <= WINNER_COUNT ==> credit_total(n, payouts, fee) == sum_payouts(payouts.take(n)),
        n > WINNER_COUNT ==> credit_total(n, payouts, fee) == sum_payouts(payouts) + fee,
    decreases n,
{
    if n == 0 {
        assert(credit_total(0, payouts, fee) == 0);
    } else {
        lemma_credit_total_closed(n - 1, payouts, fee);
        if n <= WINNER_COUNT {
            assert(payouts.take(n).drop_last() =~= payouts.take(n - 1));
        } else if n == WINNER_COUNT + 1 {
            assert(payouts.take(WINNER_COUNT as int) =~= payouts);
        }
    }
}

/// Conservation: a successful resolution moves value, it never makes or
/// destroys any.  The pool drops by the fee plus the payouts — never by
/// more than it held — and the targets' balances together rise by exactly
/// that amount, so custody plus external balances is unchanged.  Whatever
/// the payouts left in the pool stays there.
pub proof fn lemma_resolution_conserves_funds(
    before_c: ContestAccount,
    after_c: ContestAccount,
    payouts: Seq<u64>,
    before_t: Seq<TargetAccount>,
    after_t: Seq<TargetAccount>,
)
    requires
        payouts.len() == WINNER_COUNT,
        before_t.len() > WINNER_COUNT,
        fee_amount(before_c.total_pool) + sum_payouts(payouts) <= before_c.total_pool,
        resolved_contest(before_c, after_c, payouts),
        disbursed(before_t, after_t, payouts, fee_amount(before_c.total_pool)),
    ensures
        after_c.total_pool == before_c.total_pool - fee_amount(before_c.total_pool) - sum_payouts(
            payouts,
        ),
        balance_total(after_t) - balance_total(before_t) == fee_amount(before_c.total_pool)
            + sum_payouts(payouts),
        balance_total(after_t) + after_c.total_pool == balance_total(before_t)
            + before_c.total_pool,
{
    let fee = fee_amount(before_c.total_pool);
    lemma_disbursed_sum(before_t, after_t, payouts, fee);
    lemma_credit_total_closed(before_t.len() as int, payouts, fee);
}

/// Resolution is terminal: once a contest has been resolved, a further
/// resolution attempt — by any authorized caller, with any properly sized
/// winner and payout lists — is refused for its status, so no contest is
/// ever disbursed twice.  (A caller that is not authorized, or hands in
/// lists of the wrong length, is refused even earlier, for that reason.)
pub proof fn lemma_resolve_is_terminal(
    store: AuthStore,
    before: ContestAccount,
    after: ContestAccount,
    caller: u64,
    payouts: Seq<u64>,
    winners2: Seq<u64>,
    payouts2: Seq<u64>,
    targets2: Seq<TargetAccount>,
)
    requires
        resolved_contest(before, after, payouts),
        store.authorized_creators@.contains(caller),
        winners2.len() == WINNER_COUNT,
        payouts2.len() == WINNER_COUNT,
    ensures
        resolve_error(store, after, caller, winners2, payouts2, targets2) == Some(
            ErrorCode::InvalidContestStatus,
        ),
        !resolve_ok(store, after, caller, winners2, payouts2, targets2),
{
}

/// Pays a contest out and closes it.  `caller` must be an authorized
/// creator; `winners` and `payouts` are paired by index; `targets` is the
/// host's position-bound list of disbursement accounts — one per winner,
/// then one for the fee receiver.  On success the contest is terminally
/// `Resolved`, its custody is debited by the fee plus the payouts, each
/// nonzero payout is credited to its target, and the fee to the fee
/// receiver's.  On failure nothing changes anywhere.
#[verifier::loop_isolation(false)]
pub fn resolve_contest(
    store: &AuthStore,
    caller: u64,
    contest: &mut ContestAccount,
    winners: &Vec<u64>,
    payouts: &Vec<u64>,
    targets: &mut Vec<TargetAccount>,
) -> (r: Result<ContestResolved, ErrorCode>)
    ensures
        r is Ok <==> resolve_ok(
            *store,
            *old(contest),
            caller,
            winners@,
            payouts@,
            old(targets)@,
        ),
        r matches Err(e) ==> Some(e) == resolve_error(
            *store,
            *old(contest),
            caller,
            winners@,
            payouts@,
            old(targets)@,
        ) && *final(contest) == *old(contest) && final(targets)@ == old(targets)@,
        r matches Ok(fact) ==> {
            &&& resolved_contest(*old(contest), *final(contest), payouts@)
            &&& disbursed(
                old(targets)@,
                final(targets)@,
                payouts@,
                fee_amount(old(contest).total_pool),
            )
            &&& fact == (ContestResolved {
                contest_id: old(contest).contest_id,
                winners_count: WINNER_COUNT as u64,
                total_payout: sum_payouts(payouts@) as u64,
                fee_receiver: old(contest).fee_receiver,
                fee_amount: fee_amount(old(contest).total_pool) as u64,
            })
        },
        !store.authorized_creators@.contains(caller) ==> r == Err::<ContestResolved, ErrorCode>(
            ErrorCode::Unauthorized,
        ),
        store.authorized_creators@.contains(caller) && (winners@.len() != WINNER_COUNT
            || payouts@.len() != WINNER_COUNT) ==> r == Err::<ContestResolved, ErrorCode>(
            ErrorCode::InvalidWinnersCount,
        ),
        store.authorized_creators@.contains(caller) && winners@.len() == WINNER_COUNT
            && payouts@.len() == WINNER_COUNT && !(old(contest).status is Open) ==> r == Err::<
            ContestResolved,
            ErrorCode,
        >(ErrorCode::InvalidContestStatus),
        store.authorized_creators@.contains(caller) && winners@.len() == WINNER_COUNT
            && payouts@.len() == WINNER_COUNT && old(contest).status is Open && sum_payouts(
            payouts@,
        ) <= u64::MAX && sum_payouts(payouts@) + fee_amount(old(contest).total_pool) > old(
            contest,
        ).total_pool ==> r == Err::<ContestResolved, ErrorCode>(ErrorCode::InsufficientPool),
{
    if !crate::registry::is_authorized(store, caller) {
        return Err(ErrorCode::Unauthorized);
    }
    if winners.len() != WINNER_COUNT || payouts.len() != WINNER_COUNT {
        return Err(ErrorCode::InvalidWinnersCount);
    }
    match contest.status {
        ContestStatus::Open => {},
        _ => {
            return Err(ErrorCode::InvalidContestStatus);
        },
    }

    // Add the payouts up, refusing any wraparound.
    let mut total_payout: u64 = 0;
    let mut k: usize = 0;
    while k < WINNER_COUNT
        invariant
            k <= WINNER_COUNT,
            total_payout == sum_payouts(payouts@.take(k as int)),
        decreases WINNER_COUNT - k,
    {
        proof {
            assert(payouts@.take(k as int + 1).drop_last() =~= payouts@.take(k as int));
        }
        total_payout = match total_payout.checked_add(payouts[k]) {
            Some(t) => t,
            None => {
                proof {
                    lemma_sum_take_bound(payouts@, k as int + 1);
                }
                return Err(ErrorCode::Overflow);
            },
        };
        k += 1;
    }
    proof {
        assert(payouts@.take(WINNER_COUNT as int) =~= payouts@);
    }

    let fee: u64 = contest.total_pool / FEE_DIVISOR;
    proof {
        vstd::arithmetic::div_mod::lemma_div_nonincreasing(
            contest.total_pool as int,
            FEE_DIVISOR as int,
        );
    }
    let remaining: u64 = contest.total_pool - fee;
    if total_payout > remaining {
        return Err(ErrorCode::InsufficientPool);
    }

    // Every target must be bound to the identity the caller named for its
    // position, and every credit must fit, before anything moves.
    if targets.len() < WINNER_COUNT + 1 {
        return Err(ErrorCode::MissingWinnerAccount);
    }
    if targets[WINNER_COUNT].key != contest.fee_receiver {
        return Err(ErrorCode::MissingWinnerAccount);
    }
    let fee_target_balance = match targets[WINNER_COUNT].balance.checked_add(fee) {
        Some(b) => b,
        None => {
            return Err(ErrorCode::Overflow);
        },
    };
    let mut k: usize = 0;
    while k < WINNER_COUNT
        invariant
            k <= WINNER_COUNT,
            winner_binding_error(0, winners@, payouts@, targets@) == winner_binding_error(
                k as int,
                winners@,
                payouts@,
                targets@,
            ),
            forall|j: int|
                0 <= j < k ==> payouts@[j] == 0 || ((#[trigger] targets@[j]).key == winners@[j]
                    && targets@[j].balance + payouts@[j] <= u64::MAX),
        decreases WINNER_COUNT - k,
    {
        if payouts[k] != 0 {
            if targets[k].key != winners[k] {
                return Err(ErrorCode::MissingWinnerAccount);
            }
            if targets[k].balance.checked_add(payouts[k]).is_none() {
                return Err(ErrorCode::Overflow);
            }
        }
        k += 1;
    }

    // Disburse: close the contest, debit its custody, credit each target.
    contest.status = ContestStatus::Resolved;
    contest.total_pool = remaining - total_payout;
    let mut k: usize = 0;
    while k < WINNER_COUNT
        invariant
            k <= WINNER_COUNT,
            targets@.len() == old(targets)@.len(),
            forall|j: int|
                0 <= j < k ==> (#[trigger] targets@[j]).key == old(targets)@[j].key
                    && targets@[j].balance == old(targets)@[j].balance + payouts@[j],
            forall|j: int| k <= j < targets@.len() ==> targets@[j] == old(targets)@[j],
            forall|j: int|
                0 <= j < WINNER_COUNT ==> payouts@[j] == 0 || (#[trigger] old(
                    targets,
                )@[j]).balance + payouts@[j] <= u64::MAX,
        decreases WINNER_COUNT - k,
    {
        let p = payouts[k];
        let t = targets[k];
        targets[k] = TargetAccount { key: t.key, balance: t.balance + p };
        k += 1;
    }
    let t = targets[WINNER_COUNT];
    targets[WINNER_COUNT] = TargetAccount { key: t.key, balance: fee_target_balance };

    Ok(
        ContestResolved {
            contest_id: contest.contest_id,
            winners_count: WINNER_COUNT as u64,
            total_payout,
            fee_receiver: contest.fee_receiver,
            fee_amount: fee,
        },
    )
}

} // verus!
