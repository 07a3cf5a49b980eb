//! The distribution ledger: creating the policy and accumulator records,
//! owner-gated policy and supply changes, and accrual of the accumulator.
//!
//! Each operation either succeeds with all of its writes or fails with none.
use vstd::prelude::*;
use solana_program::pubkey::Pubkey;
use crate::error::TaxRewardError;
use crate::math::{owed_result, BPS_DENOMINATOR};
use crate::state::{Config, GlobalState, UserInfo};

verus! {

/// Creates the policy and the accumulator of a new deployment: unpaused, at
/// `tax_rate_bps`, owned by `owner`, sharing proceeds over `mint_supply`
/// tokens with nothing accrued yet.
pub fn initialize(
    owner: Pubkey,
    tax_rate_bps: u16,
    dex_program: Pubkey,
    mint_supply: u64,
) -> (r: Result<(Config, GlobalState), TaxRewardError>)
    ensures
        tax_rate_bps > BPS_DENOMINATOR ==> r == Err::<(Config, GlobalState), TaxRewardError>(
            TaxRewardError::InvalidTaxRate,
        ),
        tax_rate_bps <= BPS_DENOMINATOR && mint_supply == 0 ==> r == Err::<
            (Config, GlobalState),
            TaxRewardError,
        >(TaxRewardError::InvalidMintSupply),
        r is Ok <==> (tax_rate_bps <= BPS_DENOMINATOR && mint_supply > 0),
        r matches Ok((config, global)) ==> {
            &&& config.tax_rate_bps == tax_rate_bps
            &&& config.owner == owner
            &&& config.dex_program == dex_program
            &&& !config.paused
            &&& config.wf()
            &&& global.total_supply == mint_supply
            &&& global.cum_reward_per_token == 0
        },
{
    if tax_rate_bps as u64 > BPS_DENOMINATOR {
        return Err(TaxRewardError::InvalidTaxRate);
    }
    if mint_supply == 0 {
        return Err(TaxRewardError::InvalidMintSupply);
    }
    let config = Config { tax_rate_bps, owner, dex_program, paused: false };
    let global = GlobalState { total_supply: mint_supply, cum_reward_per_token: 0 };
    Ok((config, global))
}

/// A requested tax rate above 100%.
pub open spec fn rate_refused(new_tax_rate_bps: Option<u16>) -> bool {
    match new_tax_rate_bps {
        Some(rate) => rate > BPS_DENOMINATOR,
        None => false,
    }
}

/// Changes the tax rate and the pause flag, each only where a new value is
/// given. Only the owner may do so, and the rate may not exceed 100%.
pub fn update_config(
    config: &mut Config,
    caller: &Pubkey,
    new_tax_rate_bps: Option<u16>,
    paused: Option<bool>,
) -> (r: Result<(), TaxRewardError>)
    ensures
        *caller != old(config).owner ==> r == Err::<(), TaxRewardError>(TaxRewardError::Unauthorized),
        *caller == old(config).owner && rate_refused(new_tax_rate_bps)
            ==> r == Err::<(), TaxRewardError>(TaxRewardError::InvalidTaxRate),
        r is Ok <==> (*caller == old(config).owner && !rate_refused(new_tax_rate_bps)),
        r is Ok ==> *final(config) == (Config {
            tax_rate_bps: match new_tax_rate_bps {
                Some(rate) => rate,
                None => old(config).tax_rate_bps,
            },
            paused: match paused {
                Some(p) => p,
                None => old(config).paused,
            },
            ..*old(config)
        }),
        r is Err ==> *final(config) == *old(config),
        old(config).wf() ==> final(config).wf(),
{
    if *caller != config.owner {
        return Err(TaxRewardError::Unauthorized);
    }
    if let Some(rate) = new_tax_rate_bps {
        if rate as u64 > BPS_DENOMINATOR {
            return Err(TaxRewardError::InvalidTaxRate);
        }
        config.tax_rate_bps = rate;
    }
    if let Some(p) = paused {
        config.paused = p;
    }
    Ok(())
}

/// Sets the supply the proceeds are shared over. Only the owner may do so;
/// the accumulator is left as it is.
pub fn update_total_supply(
    config: &Config,
    global: &mut GlobalState,
    caller: &Pubkey,
    new_supply: u64,
) -> (r: Result<(), TaxRewardError>)
    ensures
        r is Ok <==> *caller == config.owner,
        r is Err ==> r == Err::<(), TaxRewardError>(TaxRewardError::Unauthorized),
        r is Ok ==> *final(global) == (GlobalState {
            total_supply: new_supply,
            ..*old(global)
        }),
        r is Err ==> *final(global) == *old(global),
{
    if *caller != config.owner {
        return Err(TaxRewardError::Unauthorized);
    }
    global.total_supply = new_supply;
    Ok(())
}

/// Adds `delta_cum` to the cumulative reward per token, refusing a sum that
/// does not fit.
pub fn accrue(global: &mut GlobalState, delta_cum: u128) -> (r: Result<(), TaxRewardError>)
    ensures
        r is Ok <==> old(global).cum_reward_per_token as int + delta_cum as int <= u128::MAX as int,
        r is Err ==> r == Err::<(), TaxRewardError>(TaxRewardError::Overflow),
        r is Ok ==> *final(global) == (GlobalState {
            cum_reward_per_token: (old(global).cum_reward_per_token + delta_cum) as u128,
            ..*old(global)
        }),
        r is Err ==> *final(global) == *old(global),
        final(global).cum_reward_per_token >= old(global).cum_reward_per_token,
{
    match global.cum_reward_per_token.checked_add(delta_cum) {
        None => Err(TaxRewardError::Overflow),
        Some(cum) => {
            global.cum_reward_per_token = cum;
            Ok(())
        },
    }
}

/// Whether a ledger entry may be closed: only once nothing is owed on it, so
/// that closing never forfeits a reward. An entry with a pending reward is
/// refused as `InvalidInstruction` (claim first); an entry whose settlement
/// itself fails is refused with that failure.
pub fn close_user_info(user_info: &UserInfo, global: &GlobalState) -> (r: Result<(), TaxRewardError>)
    ensures
        r is Ok <==> owed_result(
            user_info.balance_snapshot,
            global.cum_reward_per_token,
            user_info.last_cum,
        ) == Ok::<u64, TaxRewardError>(0),
        owed_result(user_info.balance_snapshot, global.cum_reward_per_token, user_info.last_cum)
            matches Err(e) ==> r == Err::<(), TaxRewardError>(e),
        owed_result(user_info.balance_snapshot, global.cum_reward_per_token, user_info.last_cum)
            matches Ok(v) && v > 0 ==> r == Err::<(), TaxRewardError>(
            TaxRewardError::InvalidInstruction,
        ),
{
    let owed = crate::math::calculate_owed_rewards(
        user_info.balance_snapshot,
        global.cum_reward_per_token,
        user_info.last_cum,
    )?;
    if owed > 0 {
        return Err(TaxRewardError::InvalidInstruction);
    }
    Ok(())
}

} // verus!
