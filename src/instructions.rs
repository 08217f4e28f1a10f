use vstd::prelude::*;
use crate::accrual::{calculate_rewards, reward_of};
use crate::state::{ErrorCode, Pubkey, StakeEntry, StakePool};

verus! {

/// What pool creation reads: the pool already stored at the target address,
/// if any, and the identities the new pool records.
#[derive(Clone, Copy, Debug)]
pub struct InitializePool {
    pub stake_pool: Option<StakePool>,
    pub reward_mint: Pubkey,
    pub reward_vault: Pubkey,
    pub initializer: Pubkey,
}

/// What a stake reads: the caller, the pool, and the caller's stored position
/// (`None` before the first stake or after the position was closed).
#[derive(Clone, Copy, Debug)]
pub struct StakeSol {
    pub user: Pubkey,
    pub stake_pool: StakePool,
    pub stake_entry: Option<StakeEntry>,
}

/// What a claim reads.
#[derive(Clone, Copy, Debug)]
pub struct ClaimRewards {
    pub user: Pubkey,
    pub stake_pool: StakePool,
    pub stake_entry: Option<StakeEntry>,
}

/// What an unstake reads: besides the position, the base-asset balance held
/// in its custody and the least balance the position's account must keep to
/// go on existing.
#[derive(Clone, Copy, Debug)]
pub struct UnstakeSol {
    pub user: Pubkey,
    pub stake_entry: Option<StakeEntry>,
    pub entry_lamports: u64,
    pub rent_exempt_minimum: u64,
}

/// The position a stake works on, and whether it was there before.
#[derive(Clone, Copy, Debug)]
pub enum EntrySlot {
    Existing(StakeEntry),
    Created(StakeEntry),
}

/// Effects of an accepted stake: `reward_due` is issued to the user first
/// (nothing when zero), then `deposit` moves into custody; `entry` is the
/// position to store once both succeeded.
#[derive(Clone, Copy, Debug, PartialEq, Eq)]
pub struct StakePlan {
    pub reward_due: u64,
    pub deposit: u64,
    pub entry: StakeEntry,
}

/// Effects of an accepted claim: `reward_due` is issued to the user (nothing
/// when zero); `entry` is the position to store afterwards.
#[derive(Clone, Copy, Debug, PartialEq, Eq)]
pub struct ClaimPlan {
    pub reward_due: u64,
    pub entry: StakeEntry,
}

/// Effects of an accepted unstake: `amount` moves from custody back to the
/// user; `next` is the position to store, `None` when the account is closed.
#[derive(Clone, Copy, Debug, PartialEq, Eq)]
pub struct UnstakePlan {
    pub amount: u64,
    pub next: Option<StakeEntry>,
}

/// The empty position a first stake creates for `user`.
pub open spec fn fresh_entry(user: Pubkey) -> StakeEntry {
    StakeEntry { user_wallet: user, staked_amount: 0, last_staked_at: 0 }
}

impl EntrySlot {
    pub open spec fn spec_entry(self) -> StakeEntry {
        match self {
            EntrySlot::Existing(e) => e,
            EntrySlot::Created(e) => e,
        }
    }

    /// The position itself, whichever way it was obtained.
    pub fn entry(&self) -> (r: StakeEntry)
        ensures
            r == self.spec_entry(),
    {
        match self {
            EntrySlot::Existing(e) => *e,
            EntrySlot::Created(e) => *e,
        }
    }
}

pub open spec fn spec_get_or_create(stored: Option<StakeEntry>, user: Pubkey) -> EntrySlot {
    match stored {
        Some(e) => EntrySlot::Existing(e),
        None => EntrySlot::Created(fresh_entry(user)),
    }
}

pub open spec fn initialize_outcome(ctx: InitializePool, rate: u64) -> Result<
    StakePool,
    ErrorCode,
> {
    if ctx.stake_pool is Some {
        Err(ErrorCode::AlreadyInitialized)
    } else {
        Ok(
            StakePool {
                authority: ctx.initializer,
                reward_mint: ctx.reward_mint,
                reward_vault: ctx.reward_vault,
                reward_rate_per_sec: rate,
            },
        )
    }
}

/// A stake settles the stored position at `now` with the pool's rate, then
/// adds `amount`; the new accrual window starts at `now`.
pub open spec fn stake_outcome(ctx: StakeSol, amount: u64, now: u64) -> Result<
    StakePlan,
    ErrorCode,
> {
    let e = spec_get_or_create(ctx.stake_entry, ctx.user).spec_entry();
    let reward = reward_of(e.staked_amount, e.last_staked_at, ctx.stake_pool.reward_rate_per_sec, now);
    if e.user_wallet != ctx.user {
        Err(ErrorCode::Unauthorized)
    } else if reward > u64::MAX || e.staked_amount + amount > u64::MAX {
        Err(ErrorCode::Overflow)
    } else {
        Ok(
            StakePlan {
                reward_due: reward as u64,
                deposit: amount,
                entry: StakeEntry {
                    user_wallet: ctx.user,
                    staked_amount: (e.staked_amount + amount) as u64,
                    last_staked_at: now,
                },
            },
        )
    }
}

/// A claim pays what the position earned up to `now` and moves its
/// checkpoint to `now`; the staked amount stays.
pub open spec fn claim_outcome(ctx: ClaimRewards, now: u64) -> Result<ClaimPlan, ErrorCode> {
    match ctx.stake_entry {
        None => Err(ErrorCode::NoStakedBalance),
        Some(e) => {
            let reward = reward_of(e.staked_amount, e.last_staked_at, ctx.stake_pool.reward_rate_per_sec, now);
            if e.user_wallet != ctx.user {
                Err(ErrorCode::Unauthorized)
            } else if e.staked_amount == 0 {
                Err(ErrorCode::NoStakedBalance)
            } else if reward > u64::MAX {
                Err(ErrorCode::Overflow)
            } else {
                Ok(ClaimPlan { reward_due: reward as u64, entry: StakeEntry { last_staked_at: now, ..e } })
            }
        },
    }
}

/// An unstake returns the whole stake without settling rewards, empties the
/// position and restarts its window at `now`; the account is closed when what
/// it keeps after the transfer is at most the minimum for existing.
pub open spec fn unstake_outcome(ctx: UnstakeSol, now: u64) -> Result<UnstakePlan, ErrorCode> {
    match ctx.stake_entry {
        None => Err(ErrorCode::NoStakedBalance),
        Some(e) => {
            if e.user_wallet != ctx.user {
                Err(ErrorCode::Unauthorized)
            } else if e.staked_amount == 0 {
                Err(ErrorCode::NoStakedBalance)
            } else if ctx.entry_lamports < e.staked_amount {
                Err(ErrorCode::InsufficientBalance)
            } else {
                Ok(
                    UnstakePlan {
                        amount: e.staked_amount,
                        next: if ctx.entry_lamports - e.staked_amount <= ctx.rent_exempt_minimum {
                            None
                        } else {
                            Some(StakeEntry { staked_amount: 0, last_staked_at: now, ..e })
                        },
                    },
                )
            }
        },
    }
}

/// Creates a pool with the given rate, unless one is already stored.
pub fn initialize_pool(ctx: &InitializePool, reward_rate_per_sec: u64) -> (r: Result<
    StakePool,
    ErrorCode,
>)
    ensures
        r == initialize_outcome(*ctx, reward_rate_per_sec),
{
    if ctx.stake_pool.is_some() {
        return Err(ErrorCode::AlreadyInitialized);
    }
    Ok(
        StakePool {
            authority: ctx.initializer,
            reward_mint: ctx.reward_mint,
            reward_vault: ctx.reward_vault,
            reward_rate_per_sec,
        },
    )
}

/// The stored position, or an empty one for `user` when none is stored.
pub fn get_or_create(stored: &Option<StakeEntry>, user: Pubkey) -> (r: EntrySlot)
    ensures
        r == spec_get_or_create(*stored, user),
{
    match stored {
        Some(e) => EntrySlot::Existing(*e),
        None => EntrySlot::Created(StakeEntry { user_wallet: user, staked_amount: 0, last_staked_at: 0 }),
    }
}

/// Plans a stake of `amount` at time `now`. Nothing is changed here: the
/// caller performs the plan's effects and then calls `commit`.
pub fn stake_sol(ctx: &StakeSol, amount: u64, now: u64) -> (r: Result<StakePlan, ErrorCode>)
    ensures
        r == stake_outcome(*ctx, amount, now),
{
    let slot = get_or_create(&ctx.stake_entry, ctx.user);
    let entry = slot.entry();
    if !(entry.user_wallet == ctx.user) {
        return Err(ErrorCode::Unauthorized);
    }
    let settled = calculate_rewards(
        entry.staked_amount,
        entry.last_staked_at,
        ctx.stake_pool.reward_rate_per_sec,
        now,
    );
    let (reward_due, checkpoint) = match settled {
        Ok(pair) => pair,
        Err(e) => return Err(e),
    };
    let staked_amount = match entry.staked_amount.checked_add(amount) {
        Some(total) => total,
        None => return Err(ErrorCode::Overflow),
    };
    Ok(
        StakePlan {
            reward_due,
            deposit: amount,
            entry: StakeEntry { user_wallet: ctx.user, staked_amount, last_staked_at: checkpoint },
        },
    )
}

/// Plans a claim at time `now`.
pub fn claim_rewards(ctx: &ClaimRewards, now: u64) -> (r: Result<ClaimPlan, ErrorCode>)
    ensures
        r == claim_outcome(*ctx, now),
{
    let entry = match ctx.stake_entry {
        Some(e) => e,
        None => return Err(ErrorCode::NoStakedBalance),
    };
    if !(entry.user_wallet == ctx.user) {
        return Err(ErrorCode::Unauthorized);
    }
    if entry.staked_amount == 0 {
        return Err(ErrorCode::NoStakedBalance);
    }
    let settled = calculate_rewards(
        entry.staked_amount,
        entry.last_staked_at,
        ctx.stake_pool.reward_rate_per_sec,
        now,
    );
    match settled {
        Ok((reward_due, checkpoint)) => Ok(
            ClaimPlan {
                reward_due,
                entry: StakeEntry {
                    user_wallet: entry.user_wallet,
                    staked_amount: entry.staked_amount,
                    last_staked_at: checkpoint,
                },
            },
        ),
        Err(e) => Err(e),
    }
}

/// Plans an unstake at time `now`.
pub fn unstake_sol(ctx: &UnstakeSol, now: u64) -> (r: Result<UnstakePlan, ErrorCode>)
    ensures
        r == unstake_outcome(*ctx, now),
{
    let entry = match ctx.stake_entry {
        Some(e) => e,
        None => return Err(ErrorCode::NoStakedBalance),
    };
    if !(entry.user_wallet == ctx.user) {
        return Err(ErrorCode::Unauthorized);
    }
    if entry.staked_amount == 0 {
        return Err(ErrorCode::NoStakedBalance);
    }
    if ctx.entry_lamports < entry.staked_amount {
        return Err(ErrorCode::InsufficientBalance);
    }
    let remaining: u64 = ctx.entry_lamports - entry.staked_amount;
    let next = if remaining <= ctx.rent_exempt_minimum {
        None
    } else {
        Some(StakeEntry { user_wallet: entry.user_wallet, staked_amount: 0, last_staked_at: now })
    };
    Ok(UnstakePlan { amount: entry.staked_amount, next })
}

/// The slot after a commit: `next` when the outside effects succeeded, the
/// slot unchanged otherwise.
pub open spec fn committed(
    slot: Option<StakeEntry>,
    next: Option<StakeEntry>,
    outcome: Result<(), ErrorCode>,
) -> Option<StakeEntry> {
    if outcome is Ok {
        next
    } else {
        slot
    }
}

/// Stores `next` in `slot` when the plan's outside effects all succeeded
/// (`outcome` is `Ok`); otherwise leaves `slot` as it was and hands the
/// failure back.
pub fn commit(
    slot: &mut Option<StakeEntry>,
    next: Option<StakeEntry>,
    outcome: Result<(), ErrorCode>,
) -> (r: Result<(), ErrorCode>)
    ensures
        r == outcome,
        *final(slot) == committed(*old(slot), next, outcome),
{
    if outcome.is_ok() {
        *slot = next;
    }
    outcome
}

} // verus!
