//! The persisted records: policy, distribution accumulator, per-holder
//! ledger entry, and the fee-pool records of the fixed-rate trading path.
use vstd::prelude::*;
use solana_program::pubkey::Pubkey;
use crate::math::BPS_DENOMINATOR;

verus! {

/// Policy of one deployment: tax rate, owner, exchange route and pause flag.
#[derive(Clone, Copy, Debug)]
pub struct Config {
    pub tax_rate_bps: u16,
    pub owner: Pubkey,
    pub dex_program: Pubkey,
    pub paused: bool,
}

impl Config {
    /// Encoded size: u16 + Pubkey + Pubkey + bool.
    pub const LEN: usize = 2 + 32 + 32 + 1;

    /// The tax rate is at most 100%.
    pub open spec fn wf(&self) -> bool {
        self.tax_rate_bps <= BPS_DENOMINATOR
    }
}

/// Token supply the proceeds are shared over, and the cumulative reward per
/// token, scaled by `SCALE`.
#[derive(Clone, Copy, Debug, PartialEq, Eq, Structural)]
pub struct GlobalState {
    pub total_supply: u64,
    pub cum_reward_per_token: u128,
}

impl GlobalState {
    /// Encoded size: u64 + u128.
    pub const LEN: usize = 8 + 16;
}

/// A holder's ledger entry: the accumulator at the last settlement and the
/// token balance held since then.
#[derive(Clone, Copy, Debug, Default, PartialEq, Eq, Structural)]
pub struct UserInfo {
    pub last_cum: u128,
    pub balance_snapshot: u64,
}

impl UserInfo {
    /// Encoded size: u128 + u64.
    pub const LEN: usize = 16 + 8;

    /// An entry for a holder that has never been settled.
    pub fn new() -> (r: UserInfo)
        ensures
            r.last_cum == 0,
            r.balance_snapshot == 0,
    {
        UserInfo { last_cum: 0, balance_snapshot: 0 }
    }
}

/// Tokens collected as tax and not yet swapped.
#[derive(Clone, Copy, Debug, Default, PartialEq, Eq, Structural)]
pub struct FeePool {
    pub collected_tokens: u64,
}

/// Lamports held for paying out rewards.
#[derive(Clone, Copy, Debug, Default, PartialEq, Eq, Structural)]
pub struct RewardPool {
    pub sol_balance: u64,
}

/// A holder's balance and pending rewards on the fixed-rate trading path.
#[derive(Clone, Copy, Debug, Default)]
pub struct HolderInfo {
    pub owner: Pubkey,
    pub token_balance: u64,
    pub pending_rewards: u64,
    pub total_claimed_rewards: u64,
}

/// Balances of the holders recorded under one snapshot id.
#[derive(Clone, Debug, Default)]
pub struct Snapshot {
    pub snapshot_id: u64,
    pub holder_balances: Vec<(Pubkey, u64)>,
}

} // verus!
