use shoot9::contest::enter_contest;
use shoot9::error::ErrorCode;
use shoot9::registry::{initialize_auth, update_creator_auth};
use shoot9::resolution::resolve_contest;
use shoot9::state::{AuthStore, ContestAccount, ContestStatus, TargetAccount};

fn store_with_creator(admin: u64, creator: u64) -> AuthStore {
    let (mut store, _) = initialize_auth(admin);
    update_creator_auth(&mut store, admin, creator).unwrap();
    store
}

fn open_contest(entry_fee: u64, fee_receiver: u64, total_pool: u64) -> ContestAccount {
    ContestAccount {
        authority: 42,
        event_id: 1,
        contest_id: 3,
        name: String::from("weekly"),
        entry_fee,
        fee_receiver,
        status: ContestStatus::Open,
        total_pool,
        participants: Vec::new(),
    }
}

/// Ten winner targets matching `winners` by position, then the fee
/// receiver's target, all starting at balance 0.
fn matching_targets(winners: &[u64], fee_receiver: u64) -> Vec<TargetAccount> {
    let mut targets: Vec<TargetAccount> = winners
        .iter()
        .map(|&key| TargetAccount { key, balance: 0 })
        .collect();
    targets.push(TargetAccount { key: fee_receiver, balance: 0 });
    targets
}

#[test]
fn resolve_pays_winners_fee_and_closes_the_contest() {
    let store = store_with_creator(7, 42);
    let mut contest = open_contest(100, 9, 1000);
    let winners: Vec<u64> = (101..=110).collect();
    let payouts = vec![90u64; 10];
    let mut targets = matching_targets(&winners, 9);

    let fact = resolve_contest(&store, 42, &mut contest, &winners, &payouts, &mut targets)
        .expect("fee 100 plus payouts 900 fit a pool of 1000 exactly");

    assert_eq!(contest.status, ContestStatus::Resolved);
    assert_eq!(contest.total_pool, 0);
    for target in targets.iter().take(10) {
        assert_eq!(target.balance, 90);
    }
    assert_eq!(targets[10].balance, 100);
    assert_eq!(fact.contest_id, 3);
    assert_eq!(fact.winners_count, 10);
    assert_eq!(fact.total_payout, 900);
    assert_eq!(fact.fee_receiver, 9);
    assert_eq!(fact.fee_amount, 100);
}

#[test]
fn resolve_conserves_funds_and_leaves_any_remainder_in_custody() {
    let store = store_with_creator(7, 42);
    let mut contest = open_contest(100, 9, 1000);
    let winners: Vec<u64> = (101..=110).collect();
    let mut payouts = vec![80u64; 10];
    payouts[4] = 0; // a skipped winner
    let mut targets = matching_targets(&winners, 9);
    targets[4].key = 555; // a zero payout's binding is never inspected
    targets[6].balance = 17;

    resolve_contest(&store, 42, &mut contest, &winners, &payouts, &mut targets).unwrap();

    // fee 100 + payouts 720 leave 180 in custody for good
    assert_eq!(contest.total_pool, 180);
    let credited: u64 = targets.iter().map(|t| t.balance).sum();
    assert_eq!(credited, 17 + 720 + 100);
    assert_eq!(targets[4].balance, 0);
    assert_eq!(targets[6].balance, 97);
}

#[test]
fn resolve_after_entries_fails_when_fee_plus_payouts_exceed_pool() {
    let store = store_with_creator(7, 42);
    let mut contest = open_contest(100, 9, 0);
    for user in [21u64, 22, 23, 24] {
        enter_contest(&mut contest, user, 100).unwrap();
    }
    assert_eq!(contest.total_pool, 400);

    let winners: Vec<u64> = (101..=110).collect();
    let payouts = vec![45u64; 10]; // sum 450 > 400 - fee 40 = 360
    let mut targets = matching_targets(&winners, 9);

    let r = resolve_contest(&store, 42, &mut contest, &winners, &payouts, &mut targets);
    assert_eq!(r, Err(ErrorCode::InsufficientPool));
    assert_eq!(contest.status, ContestStatus::Open);
    assert_eq!(contest.total_pool, 400);
    assert!(targets.iter().all(|t| t.balance == 0));
}

#[test]
fn resolve_needs_exactly_ten_winners_and_ten_payouts() {
    let store = store_with_creator(7, 42);
    for (n_winners, n_payouts) in [(9, 10), (11, 10), (10, 9), (10, 11), (0, 0)] {
        let mut contest = open_contest(100, 9, 1000);
        let winners: Vec<u64> = (0..n_winners as u64).collect();
        let payouts = vec![1u64; n_payouts];
        let mut targets = matching_targets(&winners, 9);
        let r = resolve_contest(&store, 42, &mut contest, &winners, &payouts, &mut targets);
        assert_eq!(r, Err(ErrorCode::InvalidWinnersCount));
        assert_eq!(contest.status, ContestStatus::Open);
        assert_eq!(contest.total_pool, 1000);
    }
}

#[test]
fn resolve_by_unauthorized_caller_is_refused() {
    let store = store_with_creator(7, 42);
    let mut contest = open_contest(100, 9, 1000);
    let winners: Vec<u64> = (101..=110).collect();
    let payouts = vec![1u64; 10];
    let mut targets = matching_targets(&winners, 9);
    // neither a stranger nor the admin itself is an authorized creator
    for caller in [55u64, 7] {
        let r = resolve_contest(&store, caller, &mut contest, &winners, &payouts, &mut targets);
        assert_eq!(r, Err(ErrorCode::Unauthorized));
        assert_eq!(contest.status, ContestStatus::Open);
    }
}

#[test]
fn resolve_twice_fails_with_invalid_status_and_moves_nothing() {
    let store = store_with_creator(7, 42);
    let mut contest = open_contest(100, 9, 1000);
    let winners: Vec<u64> = (101..=110).collect();
    let payouts = vec![10u64; 10];
    let mut targets = matching_targets(&winners, 9);
    resolve_contest(&store, 42, &mut contest, &winners, &payouts, &mut targets).unwrap();
    let pool_after = contest.total_pool;
    let balances_after: Vec<u64> = targets.iter().map(|t| t.balance).collect();

    let r = resolve_contest(&store, 42, &mut contest, &winners, &payouts, &mut targets);
    assert_eq!(r, Err(ErrorCode::InvalidContestStatus));
    assert_eq!(contest.status, ContestStatus::Resolved);
    assert_eq!(contest.total_pool, pool_after);
    let balances_now: Vec<u64> = targets.iter().map(|t| t.balance).collect();
    assert_eq!(balances_now, balances_after);
}

#[test]
fn resolve_with_overflowing_payout_sum_is_refused() {
    let store = store_with_creator(7, 42);
    let mut contest = open_contest(100, 9, 1000);
    let winners: Vec<u64> = (101..=110).collect();
    let payouts = vec![u64::MAX; 10];
    let mut targets = matching_targets(&winners, 9);
    let r = resolve_contest(&store, 42, &mut contest, &winners, &payouts, &mut targets);
    assert_eq!(r, Err(ErrorCode::Overflow));
    assert_eq!(contest.status, ContestStatus::Open);
}

#[test]
fn resolve_without_a_fee_receiver_target_is_refused() {
    let store = store_with_creator(7, 42);
    let mut contest = open_contest(100, 9, 1000);
    let winners: Vec<u64> = (101..=110).collect();
    let payouts = vec![10u64; 10];
    // only the ten winner targets, no eleventh for the fee receiver
    let mut targets: Vec<TargetAccount> =
        winners.iter().map(|&key| TargetAccount { key, balance: 0 }).collect();
    let r = resolve_contest(&store, 42, &mut contest, &winners, &payouts, &mut targets);
    assert_eq!(r, Err(ErrorCode::MissingWinnerAccount));
    assert_eq!(contest.status, ContestStatus::Open);
}

#[test]
fn resolve_with_mismatched_fee_receiver_target_is_refused() {
    let store = store_with_creator(7, 42);
    let mut contest = open_contest(100, 9, 1000);
    let winners: Vec<u64> = (101..=110).collect();
    let payouts = vec![10u64; 10];
    let mut targets = matching_targets(&winners, 888);
    let r = resolve_contest(&store, 42, &mut contest, &winners, &payouts, &mut targets);
    assert_eq!(r, Err(ErrorCode::MissingWinnerAccount));
    assert_eq!(contest.status, ContestStatus::Open);
}

#[test]
fn resolve_with_substituted_winner_target_is_refused() {
    let store = store_with_creator(7, 42);
    let mut contest = open_contest(100, 9, 1000);
    let winners: Vec<u64> = (101..=110).collect();
    let payouts = vec![10u64; 10];
    let mut targets = matching_targets(&winners, 9);
    targets[3].key = 777; // bound to someone other than winners[3]
    let r = resolve_contest(&store, 42, &mut contest, &winners, &payouts, &mut targets);
    assert_eq!(r, Err(ErrorCode::MissingWinnerAccount));
    assert_eq!(contest.status, ContestStatus::Open);
    assert_eq!(contest.total_pool, 1000);
    assert!(targets.iter().all(|t| t.balance == 0), "a binding mismatch moves nothing at all");
}

#[test]
fn resolve_with_overflowing_winner_credit_is_refused() {
    let store = store_with_creator(7, 42);
    let mut contest = open_contest(100, 9, 1000);
    let winners: Vec<u64> = (101..=110).collect();
    let payouts = vec![10u64; 10];
    let mut targets = matching_targets(&winners, 9);
    targets[5].balance = u64::MAX;
    let r = resolve_contest(&store, 42, &mut contest, &winners, &payouts, &mut targets);
    assert_eq!(r, Err(ErrorCode::Overflow));
    assert_eq!(contest.status, ContestStatus::Open);
    assert_eq!(targets[0].balance, 0);
}

#[test]
fn resolve_with_overflowing_fee_credit_is_refused() {
    let store = store_with_creator(7, 42);
    let mut contest = open_contest(100, 9, 1000);
    let winners: Vec<u64> = (101..=110).collect();
    let payouts = vec![10u64; 10];
    let mut targets = matching_targets(&winners, 9);
    targets[10].balance = u64::MAX;
    let r = resolve_contest(&store, 42, &mut contest, &winners, &payouts, &mut targets);
    assert_eq!(r, Err(ErrorCode::Overflow));
    assert_eq!(contest.status, ContestStatus::Open);
}

#[test]
fn resolve_accepts_duplicate_winners_as_separate_positions() {
    let store = store_with_creator(7, 42);
    let mut contest = open_contest(100, 9, 1000);
    let winners = vec![101u64; 10];
    let payouts = vec![90u64; 10];
    let mut targets = matching_targets(&winners, 9);
    resolve_contest(&store, 42, &mut contest, &winners, &payouts, &mut targets).unwrap();
    for target in targets.iter().take(10) {
        assert_eq!(target.key, 101);
        assert_eq!(target.balance, 90);
    }
}

#[test]
fn fee_is_the_truncated_tenth_of_the_pool() {
    let store = store_with_creator(7, 42);
    let mut contest = open_contest(100, 9, 19);
    let winners: Vec<u64> = (101..=110).collect();
    let mut payouts = vec![0u64; 10];
    payouts[0] = 18; // fee is floor(19 / 10) = 1, leaving exactly 18
    let mut targets = matching_targets(&winners, 9);
    let fact =
        resolve_contest(&store, 42, &mut contest, &winners, &payouts, &mut targets).unwrap();
    assert_eq!(fact.fee_amount, 1);
    assert_eq!(fact.total_payout, 18);
    assert_eq!(contest.total_pool, 0);
    assert_eq!(targets[0].balance, 18);
    assert_eq!(targets[10].balance, 1);
}
