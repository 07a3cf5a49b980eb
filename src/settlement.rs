//! Lazy, pull-based settlement of one holder against the accumulator.
use vstd::prelude::*;
use crate::error::TaxRewardError;
use crate::math::{calculate_owed_rewards, owed_result};
use crate::state::{GlobalState, UserInfo};

verus! {

/// The entry after a successful settlement: its pointer moved up to the
/// current accumulator, its balance kept.
pub open spec fn settled_entry(user_info: UserInfo, global: GlobalState) -> UserInfo {
    UserInfo { last_cum: global.cum_reward_per_token, ..user_info }
}

/// Settles a holder: returns what the holder is owed since the last
/// settlement and moves the entry's pointer up to the current accumulator,
/// also when nothing is owed. On failure the entry is left as it was.
pub fn settle(user_info: &mut UserInfo, global: &GlobalState) -> (r: Result<u64, TaxRewardError>)
    ensures
        r == owed_result(old(user_info).balance_snapshot, global.cum_reward_per_token, old(user_info).last_cum),
        r is Ok ==> *final(user_info) == settled_entry(*old(user_info), *global),
        r is Err ==> *final(user_info) == *old(user_info),
{
    let owed = calculate_owed_rewards(
        user_info.balance_snapshot,
        global.cum_reward_per_token,
        user_info.last_cum,
    )?;
    user_info.last_cum = global.cum_reward_per_token;
    Ok(owed)
}

/// Claims a holder's pending reward from a vault holding `vault_balance`
/// lamports: settles the entry and records `current_balance` as the holder's
/// balance from now on. Fails with `InsufficientRewardVault` when a positive
/// amount is owed that the vault cannot cover; on any failure the entry is
/// left as it was. The caller pays out the returned amount.
pub fn claim_rewards(
    user_info: &mut UserInfo,
    global: &GlobalState,
    vault_balance: u64,
    current_balance: u64,
) -> (r: Result<u64, TaxRewardError>)
    ensures
        owed_result(old(user_info).balance_snapshot, global.cum_reward_per_token, old(user_info).last_cum)
            matches Err(e) ==> r == Err::<u64, TaxRewardError>(e),
        owed_result(old(user_info).balance_snapshot, global.cum_reward_per_token, old(user_info).last_cum)
            matches Ok(v) ==> r == if v > 0 && vault_balance < v {
                Err::<u64, TaxRewardError>(TaxRewardError::InsufficientRewardVault)
            } else {
                Ok::<u64, TaxRewardError>(v)
            },
        r is Ok ==> *final(user_info) == (UserInfo {
            last_cum: global.cum_reward_per_token,
            balance_snapshot: current_balance,
        }),
        r is Err ==> *final(user_info) == *old(user_info),
{
    let owed = calculate_owed_rewards(
        user_info.balance_snapshot,
        global.cum_reward_per_token,
        user_info.last_cum,
    )?;
    if owed > 0 && vault_balance < owed {
        return Err(TaxRewardError::InsufficientRewardVault);
    }
    user_info.last_cum = global.cum_reward_per_token;
    user_info.balance_snapshot = current_balance;
    Ok(owed)
}

/// Settlement is idempotent: right after a successful settlement, with no
/// accrual in between, settling again succeeds and owes nothing.
pub proof fn lemma_settle_twice_owes_nothing(user_info: UserInfo, global: GlobalState)
    requires
        owed_result(user_info.balance_snapshot, global.cum_reward_per_token, user_info.last_cum) is Ok,
    ensures
        owed_result(
            settled_entry(user_info, global).balance_snapshot,
            global.cum_reward_per_token,
            settled_entry(user_info, global).last_cum,
        ) == Ok::<u64, TaxRewardError>(0),
{
    let b = user_info.balance_snapshot as int;
    assert(b * 0 == 0);
    assert(b * (global.cum_reward_per_token as int - global.cum_reward_per_token as int) == 0);
}

} // verus!
