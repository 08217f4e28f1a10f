use staking_build::accrual::calculate_rewards;
use staking_build::instructions::{
    claim_rewards, commit, get_or_create, initialize_pool, stake_sol, unstake_sol, ClaimPlan,
    ClaimRewards, EntrySlot, InitializePool, StakeSol, UnstakeSol,
};
use staking_build::state::{ErrorCode, Pubkey, StakeEntry, StakePool};

fn key(b: u8) -> Pubkey {
    Pubkey { bytes: [b; 32] }
}

fn pool(rate: u64) -> StakePool {
    StakePool { authority: key(9), reward_mint: key(7), reward_vault: key(8), reward_rate_per_sec: rate }
}

fn entry(owner: u8, staked: u64, last: u64) -> StakeEntry {
    StakeEntry { user_wallet: key(owner), staked_amount: staked, last_staked_at: last }
}

fn stake_ctx(slot: Option<StakeEntry>, rate: u64) -> StakeSol {
    StakeSol { user: key(1), stake_pool: pool(rate), stake_entry: slot }
}

fn claim_ctx(slot: Option<StakeEntry>, rate: u64) -> ClaimRewards {
    ClaimRewards { user: key(1), stake_pool: pool(rate), stake_entry: slot }
}

fn unstake_ctx(slot: Option<StakeEntry>, lamports: u64, rent_min: u64) -> UnstakeSol {
    UnstakeSol { user: key(1), stake_entry: slot, entry_lamports: lamports, rent_exempt_minimum: rent_min }
}

#[test]
fn keys_compare_by_bytes() {
    assert!(key(1) == key(1));
    let mut other = key(1);
    other.bytes[31] = 2;
    assert!(key(1) != other);
}

#[test]
fn rewards_formula_exact() {
    assert_eq!(calculate_rewards(100, 0, 1, 10), Ok((1000, 10)));
    assert_eq!(calculate_rewards(3, 5, 7, 9), Ok((84, 9)));
}

#[test]
fn rewards_zero_stake_moves_checkpoint() {
    assert_eq!(calculate_rewards(0, 5, 7, 100), Ok((0, 100)));
}

#[test]
fn rewards_clock_not_advanced() {
    assert_eq!(calculate_rewards(10, 50, 7, 50), Ok((0, 50)));
    assert_eq!(calculate_rewards(10, 50, 7, 20), Ok((0, 20)));
}

#[test]
fn rewards_overflow_is_an_error() {
    assert_eq!(calculate_rewards(u64::MAX, 0, 2, 2), Err(ErrorCode::Overflow));
    assert_eq!(calculate_rewards(u64::MAX, 0, 1, 2), Err(ErrorCode::Overflow));
}

#[test]
fn rewards_largest_that_fits() {
    assert_eq!(calculate_rewards(u64::MAX, 0, 1, 1), Ok((u64::MAX, 1)));
    assert_eq!(calculate_rewards(u64::MAX, 0, 0, 1000), Ok((0, 1000)));
}

#[test]
fn initialize_records_pool() {
    let ctx = InitializePool { stake_pool: None, reward_mint: key(7), reward_vault: key(8), initializer: key(9) };
    assert_eq!(initialize_pool(&ctx, 5), Ok(pool(5)));
}

#[test]
fn initialize_twice_refused() {
    let ctx = InitializePool { stake_pool: Some(pool(5)), reward_mint: key(7), reward_vault: key(8), initializer: key(9) };
    assert_eq!(initialize_pool(&ctx, 6), Err(ErrorCode::AlreadyInitialized));
}

#[test]
fn get_or_create_tags_slot() {
    match get_or_create(&None, key(1)) {
        EntrySlot::Created(e) => assert_eq!(e, entry(1, 0, 0)),
        EntrySlot::Existing(_) => panic!("expected a new position"),
    }
    match get_or_create(&Some(entry(1, 4, 3)), key(1)) {
        EntrySlot::Existing(e) => assert_eq!(e, entry(1, 4, 3)),
        EntrySlot::Created(_) => panic!("expected the stored position"),
    }
}

#[test]
fn first_stake_creates_position() {
    let plan = stake_sol(&stake_ctx(None, 1), 100, 0).unwrap();
    assert_eq!(plan.reward_due, 0);
    assert_eq!(plan.deposit, 100);
    assert_eq!(plan.entry, entry(1, 100, 0));
}

#[test]
fn stake_again_pays_only_old_window() {
    let mut slot = None;
    let first = stake_sol(&stake_ctx(slot, 1), 100, 0).unwrap();
    assert_eq!(commit(&mut slot, Some(first.entry), Ok(())), Ok(()));
    let second = stake_sol(&stake_ctx(slot, 1), 50, 10).unwrap();
    assert_eq!(second.reward_due, 1000);
    assert_eq!(commit(&mut slot, Some(second.entry), Ok(())), Ok(()));
    assert_eq!(slot, Some(entry(1, 150, 10)));
    let claim = claim_rewards(&claim_ctx(slot, 1), 12).unwrap();
    assert_eq!(claim.reward_due, 300);
}

#[test]
fn stake_reward_independent_of_amount() {
    let slot = Some(entry(1, 100, 0));
    let a = stake_sol(&stake_ctx(slot, 3), 1, 10).unwrap();
    let b = stake_sol(&stake_ctx(slot, 3), 1_000_000, 10).unwrap();
    assert_eq!(a.reward_due, 3000);
    assert_eq!(a.reward_due, b.reward_due);
    assert_eq!(b.entry.last_staked_at, 10);
}

#[test]
fn stake_by_other_user_refused() {
    let ctx = stake_ctx(Some(entry(2, 100, 0)), 1);
    assert_eq!(stake_sol(&ctx, 10, 5), Err(ErrorCode::Unauthorized));
}

#[test]
fn stake_balance_overflow() {
    let ctx = stake_ctx(Some(entry(1, u64::MAX - 1, 5)), 0);
    assert_eq!(stake_sol(&ctx, 2, 9), Err(ErrorCode::Overflow));
    assert_eq!(stake_sol(&ctx, 1, 9).unwrap().entry.staked_amount, u64::MAX);
}

#[test]
fn stake_reward_overflow() {
    let ctx = stake_ctx(Some(entry(1, u64::MAX, 0)), 2);
    assert_eq!(stake_sol(&ctx, 1, 2), Err(ErrorCode::Overflow));
}

#[test]
fn stake_failed_issuance_changes_nothing() {
    let before = Some(entry(1, 100, 0));
    let mut slot = before;
    let plan = stake_sol(&stake_ctx(slot, 1), 50, 10).unwrap();
    assert_eq!(plan.reward_due, 1000);
    let r = commit(&mut slot, Some(plan.entry), Err(ErrorCode::Unauthorized));
    assert_eq!(r, Err(ErrorCode::Unauthorized));
    assert_eq!(slot, before);
}

#[test]
fn claim_pays_and_moves_checkpoint() {
    let plan = claim_rewards(&claim_ctx(Some(entry(1, 20, 100)), 3), 110).unwrap();
    assert_eq!(plan, ClaimPlan { reward_due: 600, entry: entry(1, 20, 110) });
}

#[test]
fn claim_twice_same_instant() {
    let mut slot = Some(entry(1, 20, 100));
    let first = claim_rewards(&claim_ctx(slot, 3), 110).unwrap();
    assert_eq!(first.reward_due, 600);
    commit(&mut slot, Some(first.entry), Ok(())).unwrap();
    let second = claim_rewards(&claim_ctx(slot, 3), 110).unwrap();
    assert_eq!(second.reward_due, 0);
    assert_eq!(second.entry, entry(1, 20, 110));
}

#[test]
fn claim_nothing_new_still_advances() {
    let plan = claim_rewards(&claim_ctx(Some(entry(1, 20, 100)), 0), 150).unwrap();
    assert_eq!(plan, ClaimPlan { reward_due: 0, entry: entry(1, 20, 150) });
}

#[test]
fn claim_errors() {
    assert_eq!(claim_rewards(&claim_ctx(None, 1), 5), Err(ErrorCode::NoStakedBalance));
    assert_eq!(claim_rewards(&claim_ctx(Some(entry(1, 0, 0)), 1), 5), Err(ErrorCode::NoStakedBalance));
    assert_eq!(claim_rewards(&claim_ctx(Some(entry(3, 10, 0)), 1), 5), Err(ErrorCode::Unauthorized));
    assert_eq!(
        claim_rewards(&claim_ctx(Some(entry(1, u64::MAX, 0)), 2), 2),
        Err(ErrorCode::Overflow)
    );
}

#[test]
fn unstake_keeps_account_above_minimum() {
    let plan = unstake_sol(&unstake_ctx(Some(entry(1, 100, 3)), 1_000, 890), 40).unwrap();
    assert_eq!(plan.amount, 100);
    assert_eq!(plan.next, Some(entry(1, 0, 40)));
}

#[test]
fn unstake_closes_account_at_minimum() {
    let plan = unstake_sol(&unstake_ctx(Some(entry(1, 100, 3)), 990, 890), 40).unwrap();
    assert_eq!(plan.amount, 100);
    assert_eq!(plan.next, None);
}

#[test]
fn unstake_then_claim_or_unstake_fails() {
    let mut slot = Some(entry(1, 100, 3));
    let plan = unstake_sol(&unstake_ctx(slot, 1_000, 890), 40).unwrap();
    commit(&mut slot, plan.next, Ok(())).unwrap();
    assert_eq!(slot.unwrap().staked_amount, 0);
    assert_eq!(claim_rewards(&claim_ctx(slot, 1), 50), Err(ErrorCode::NoStakedBalance));
    assert_eq!(unstake_sol(&unstake_ctx(slot, 900, 890), 50), Err(ErrorCode::NoStakedBalance));
}

#[test]
fn unstake_closed_then_restake_starts_fresh() {
    let mut slot = Some(entry(1, 100, 3));
    let plan = unstake_sol(&unstake_ctx(slot, 100, 0), 40).unwrap();
    commit(&mut slot, plan.next, Ok(())).unwrap();
    assert_eq!(slot, None);
    assert_eq!(claim_rewards(&claim_ctx(slot, 1), 50), Err(ErrorCode::NoStakedBalance));
    let again = stake_sol(&stake_ctx(slot, 1), 5, 60).unwrap();
    assert_eq!(again.reward_due, 0);
    assert_eq!(again.entry, entry(1, 5, 60));
}

#[test]
fn unstake_errors() {
    assert_eq!(unstake_sol(&unstake_ctx(None, 10, 0), 5), Err(ErrorCode::NoStakedBalance));
    assert_eq!(unstake_sol(&unstake_ctx(Some(entry(1, 0, 0)), 10, 0), 5), Err(ErrorCode::NoStakedBalance));
    assert_eq!(unstake_sol(&unstake_ctx(Some(entry(4, 5, 0)), 10, 0), 5), Err(ErrorCode::Unauthorized));
    assert_eq!(
        unstake_sol(&unstake_ctx(Some(entry(1, 50, 0)), 49, 0), 5),
        Err(ErrorCode::InsufficientBalance)
    );
}

#[test]
fn checkpoint_never_goes_back_over_a_run() {
    let mut slot = None;
    let mut last = 0u64;
    let p = stake_sol(&stake_ctx(slot, 2), 10, 5).unwrap();
    commit(&mut slot, Some(p.entry), Ok(())).unwrap();
    assert!(slot.unwrap().last_staked_at >= last);
    last = slot.unwrap().last_staked_at;
    let c = claim_rewards(&claim_ctx(slot, 2), 9).unwrap();
    commit(&mut slot, Some(c.entry), Err(ErrorCode::Unauthorized)).unwrap_err();
    assert!(slot.unwrap().last_staked_at >= last);
    let c = claim_rewards(&claim_ctx(slot, 2), 12).unwrap();
    assert_eq!(c.reward_due, 140);
    commit(&mut slot, Some(c.entry), Ok(())).unwrap();
    assert!(slot.unwrap().last_staked_at >= last);
    last = slot.unwrap().last_staked_at;
    let u = unstake_sol(&unstake_ctx(slot, 1_000, 10), 20).unwrap();
    commit(&mut slot, u.next, Ok(())).unwrap();
    assert!(slot.unwrap().last_staked_at >= last);
    assert_eq!(slot.unwrap().last_staked_at, 20);
}
