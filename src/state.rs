use vstd::prelude::*;

verus! {

/// A 32-byte account address.
#[derive(Clone, Copy, Debug)]
pub struct Pubkey {
    pub bytes: [u8; 32],
}

impl PartialEq for Pubkey {
    /// Two addresses are equal when all their bytes are.
    fn eq(&self, o: &Pubkey) -> (r: bool) {
        let mut i: usize = 0;
        while i < 32
            invariant
                i <= 32,
                forall|j: int| 0 <= j < i ==> self.bytes@[j] == o.bytes@[j],
            decreases 32 - i,
        {
            if self.bytes[i] != o.bytes[i] {
                return false;
            }
            i = i + 1;
        }
        assert(self.bytes =~= o.bytes);
        true
    }
}

impl vstd::std_specs::cmp::PartialEqSpecImpl for Pubkey {
    open spec fn obeys_eq_spec() -> bool {
        true
    }

    open spec fn eq_spec(&self, o: &Pubkey) -> bool {
        *self == *o
    }
}

impl Eq for Pubkey {
}

/// Pool configuration, fixed once created.
#[derive(Clone, Copy, Debug, PartialEq, Eq)]
pub struct StakePool {
    /// Administrator who created the pool.
    pub authority: Pubkey,
    /// Asset handed out as reward.
    pub reward_mint: Pubkey,
    /// Address holding the permission to issue the reward asset.
    pub reward_vault: Pubkey,
    /// Reward accrued per staked unit per second, counted in the reward
    /// asset's smallest unit. No scaling factor is divided out anywhere: the
    /// product of amount, seconds and rate is exactly what is issued, so a
    /// fractional rate must be expressed by choosing the reward asset's
    /// decimals.
    pub reward_rate_per_sec: u64,
}

/// One participant's position.
#[derive(Clone, Copy, Debug, PartialEq, Eq)]
pub struct StakeEntry {
    pub user_wallet: Pubkey,
    /// Base-asset units currently deposited.
    pub staked_amount: u64,
    /// Unix time (seconds) up to which rewards have been settled.
    pub last_staked_at: u64,
}

/// Failures of the pool's operations.
#[derive(Clone, Copy, Debug, PartialEq, Eq, Structural)]
pub enum ErrorCode {
    /// A pool already exists at the target address.
    AlreadyInitialized,
    /// Claim or unstake on an empty or missing position.
    NoStakedBalance,
    /// The custody backing a position holds less than must be moved.
    InsufficientBalance,
    /// An amount would exceed the range of `u64`.
    Overflow,
    /// The caller does not own the position, or issuance was refused.
    Unauthorized,
}

} // verus!
