use vstd::prelude::*;
use crate::state::ErrorCode;

verus! {

/// Reward earned by `staked` units from `last` to `now` at `rate` per unit per
/// second; nothing when there is no stake or the clock did not advance.
pub open spec fn reward_of(staked: u64, last: u64, rate: u64, now: u64) -> int {
    if staked == 0 || now <= last {
        0
    } else {
        staked * (now - last) * rate
    }
}

proof fn lemma_product_bounds(a: u64, b: u64, c: u64)
    requires
        c >= 1,
    ensures
        a * b <= a * b * c,
        0 <= a * b,
{
    assert(a * b <= a * b * c) by (nonlinear_arith)
        requires c >= 1, a >= 0, b >= 0;
    assert(0 <= a * b) by (nonlinear_arith)
        requires a >= 0, b >= 0;
}

/// Settles a position: the reward due since `last_staked_at` and the new
/// checkpoint, which is always `current_time`. Fails with `Overflow` exactly
/// when the reward does not fit in a `u64`.
pub fn calculate_rewards(
    staked_amount: u64,
    last_staked_at: u64,
    reward_rate_per_sec: u64,
    current_time: u64,
) -> (r: Result<(u64, u64), ErrorCode>)
    ensures
        r is Ok <==> reward_of(staked_amount, last_staked_at, reward_rate_per_sec, current_time)
            <= u64::MAX,
        r matches Ok((reward, checkpoint)) ==> {
            &&& reward == reward_of(
                staked_amount,
                last_staked_at,
                reward_rate_per_sec,
                current_time,
            )
            &&& checkpoint == current_time
        },
        r matches Err(e) ==> e == ErrorCode::Overflow,
        staked_amount == 0 || current_time <= last_staked_at ==> r == Ok::<(u64, u64), ErrorCode>(
            (0u64, current_time),
        ),
{
    if staked_amount == 0 || current_time <= last_staked_at || reward_rate_per_sec == 0 {
        return Ok((0, current_time));
    }
    let time_elapsed: u64 = current_time - last_staked_at;
    proof {
        lemma_product_bounds(staked_amount, time_elapsed, reward_rate_per_sec);
    }
    match staked_amount.checked_mul(time_elapsed) {
        None => Err(ErrorCode::Overflow),
        Some(partial) => match partial.checked_mul(reward_rate_per_sec) {
            None => Err(ErrorCode::Overflow),
            Some(total) => Ok((total, current_time)),
        },
    }
}

} // verus!
