use vstd::prelude::*;
use crate::accrual::reward_of;
use crate::instructions::{
    claim_outcome, committed, spec_get_or_create, stake_outcome, unstake_outcome, ClaimPlan,
    ClaimRewards, StakeSol, UnstakePlan, UnstakeSol,
};
use crate::state::{ErrorCode, StakeEntry, StakePool};

verus! {

/// One operation on a participant's position: the accounts it reads (the
/// stored position among them is replaced by the one current when it runs),
/// its time, and the result of its outside effects.
#[derive(Clone, Copy, Debug)]
pub enum Operation {
    Stake { stake_ctx: StakeSol, amount: u64, now: u64, outcome: Result<(), ErrorCode> },
    Claim { claim_ctx: ClaimRewards, now: u64, outcome: Result<(), ErrorCode> },
    Unstake { unstake_ctx: UnstakeSol, now: u64, outcome: Result<(), ErrorCode> },
}

pub open spec fn op_time(op: Operation) -> u64 {
    match op {
        Operation::Stake { now, .. } => now,
        Operation::Claim { now, .. } => now,
        Operation::Unstake { now, .. } => now,
    }
}

/// The stored position after `op` runs on `slot`: planned, then committed;
/// a refused operation changes nothing.
pub open spec fn apply_op(slot: Option<StakeEntry>, op: Operation) -> Option<StakeEntry> {
    match op {
        Operation::Stake { stake_ctx, amount, now, outcome } => {
            match stake_outcome(StakeSol { stake_entry: slot, ..stake_ctx }, amount, now) {
                Ok(plan) => committed(slot, Some(plan.entry), outcome),
                Err(_) => slot,
            }
        },
        Operation::Claim { claim_ctx, now, outcome } => {
            match claim_outcome(ClaimRewards { stake_entry: slot, ..claim_ctx }, now) {
                Ok(plan) => committed(slot, Some(plan.entry), outcome),
                Err(_) => slot,
            }
        },
        Operation::Unstake { unstake_ctx, now, outcome } => {
            match unstake_outcome(UnstakeSol { stake_entry: slot, ..unstake_ctx }, now) {
                Ok(plan) => committed(slot, plan.next, outcome),
                Err(_) => slot,
            }
        },
    }
}

/// The stored position after running `ops` in order from `slot`.
pub open spec fn replay(slot: Option<StakeEntry>, ops: Seq<Operation>) -> Option<StakeEntry>
    decreases ops.len(),
{
    if ops.len() == 0 {
        slot
    } else {
        apply_op(replay(slot, ops.drop_last()), ops.last())
    }
}

/// A clock that never goes back, and a starting position settled no later
/// than the first operation.
pub open spec fn clock_monotone(slot: Option<StakeEntry>, ops: Seq<Operation>) -> bool {
    &&& forall|k: int, l: int|
        0 <= k <= l < ops.len() ==> op_time(#[trigger] ops[k]) <= op_time(#[trigger] ops[l])
    &&& (slot is Some && ops.len() > 0 ==> slot->Some_0.last_staked_at <= op_time(ops[0]))
}

proof fn lemma_apply_op_checkpoint(slot: Option<StakeEntry>, op: Operation)
    ensures
        apply_op(slot, op) == slot || apply_op(slot, op) is None || apply_op(
            slot,
            op,
        )->Some_0.last_staked_at == op_time(op),
{
}

proof fn lemma_checkpoint_before_next(slot: Option<StakeEntry>, ops: Seq<Operation>, k: int)
    requires
        0 <= k < ops.len(),
        clock_monotone(slot, ops),
    ensures
        replay(slot, ops.take(k)) matches Some(e) ==> e.last_staked_at <= op_time(ops[k]),
    decreases k,
{
    if k == 0 {
        assert(ops.take(0) =~= Seq::<Operation>::empty());
    } else {
        assert(ops.take(k).drop_last() =~= ops.take(k - 1));
        lemma_checkpoint_before_next(slot, ops, k - 1);
        lemma_apply_op_checkpoint(replay(slot, ops.take(k - 1)), ops[k - 1]);
        assert(op_time(ops[k - 1]) <= op_time(ops[k]));
    }
}

/// Under a clock that never goes back, the checkpoint of a position never
/// decreases: whenever the position exists after the first `i` and after the
/// first `j >= i` operations, its checkpoint after `j` is at least the one
/// after `i`.
pub proof fn lemma_checkpoint_monotone(
    slot: Option<StakeEntry>,
    ops: Seq<Operation>,
    i: int,
    j: int,
)
    requires
        0 <= i <= j <= ops.len(),
        clock_monotone(slot, ops),
        replay(slot, ops.take(i)) is Some,
        replay(slot, ops.take(j)) is Some,
    ensures
        replay(slot, ops.take(i))->Some_0.last_staked_at <= replay(
            slot,
            ops.take(j),
        )->Some_0.last_staked_at,
    decreases j - i,
{
    if j > i {
        let before = replay(slot, ops.take(j - 1));
        assert(ops.take(j).drop_last() =~= ops.take(j - 1));
        lemma_apply_op_checkpoint(before, ops[j - 1]);
        lemma_checkpoint_before_next(slot, ops, i);
        assert(op_time(ops[i]) <= op_time(ops[j - 1]));
        if apply_op(before, ops[j - 1]) == before {
            lemma_checkpoint_monotone(slot, ops, i, j - 1);
        }
    }
}

/// A stake at `now` pays, for the window ending at `now`, exactly what the
/// position held before earned, whatever amount is added; the added amount
/// starts accruing only at `now`.
pub proof fn lemma_no_retroactive_credit(ctx: StakeSol, amount1: u64, amount2: u64, now: u64)
    requires
        stake_outcome(ctx, amount1, now) is Ok,
        stake_outcome(ctx, amount2, now) is Ok,
    ensures
        ({
            let before = spec_get_or_create(ctx.stake_entry, ctx.user).spec_entry();
            let plan1 = stake_outcome(ctx, amount1, now)->Ok_0;
            let plan2 = stake_outcome(ctx, amount2, now)->Ok_0;
            &&& plan1.reward_due == plan2.reward_due
            &&& plan1.reward_due == reward_of(
                before.staked_amount,
                before.last_staked_at,
                ctx.stake_pool.reward_rate_per_sec,
                now,
            )
            &&& plan1.entry.last_staked_at == now
            &&& plan1.entry.staked_amount == before.staked_amount + amount1
        }),
{
}

/// A second claim at the same instant, on the position the first one stored,
/// succeeds and pays nothing.
pub proof fn lemma_claim_idempotent(ctx: ClaimRewards, now: u64)
    requires
        claim_outcome(ctx, now) is Ok,
    ensures
        ({
            let first = claim_outcome(ctx, now)->Ok_0;
            claim_outcome(ClaimRewards { stake_entry: Some(first.entry), ..ctx }, now) == Ok::<
                ClaimPlan,
                ErrorCode,
            >(ClaimPlan { reward_due: 0, entry: first.entry })
        }),
{
}

/// After an unstake the position is empty or closed, and a later claim or
/// unstake by its owner fails with `NoStakedBalance`.
pub proof fn lemma_unstake_empties(
    ctx: UnstakeSol,
    now: u64,
    pool: StakePool,
    later: u64,
    entry_lamports: u64,
    rent_exempt_minimum: u64,
)
    requires
        unstake_outcome(ctx, now) is Ok,
    ensures
        ({
            let next = unstake_outcome(ctx, now)->Ok_0.next;
            &&& next matches Some(e) ==> e.staked_amount == 0
            &&& claim_outcome(ClaimRewards { user: ctx.user, stake_pool: pool, stake_entry: next }, later)
                == Err::<ClaimPlan, ErrorCode>(ErrorCode::NoStakedBalance)
            &&& unstake_outcome(
                UnstakeSol { user: ctx.user, stake_entry: next, entry_lamports, rent_exempt_minimum },
                later,
            ) == Err::<UnstakePlan, ErrorCode>(ErrorCode::NoStakedBalance)
        }),
{
}

/// A stake whose issuance or deposit fails leaves the stored position, its
/// staked amount and checkpoint included, as it was.
pub proof fn lemma_stake_failure_atomic(
    ctx: StakeSol,
    amount: u64,
    now: u64,
    failure: ErrorCode,
)
    requires
        stake_outcome(ctx, amount, now) is Ok,
    ensures
        committed(
            ctx.stake_entry,
            Some(stake_outcome(ctx, amount, now)->Ok_0.entry),
            Err(failure),
        ) == ctx.stake_entry,
{
}

} // verus!
