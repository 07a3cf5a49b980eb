//! The taxed swap: validate, settle the acting holder, account the swap's
//! proceeds into the accumulator, and compute the tax.
//!
//! The host runs the steps that move assets. It calls
//! `validate_taxed_swap` before anything else, reads the proceeds vault,
//! runs the swap, reads the vault again, and hands both readings to
//! `taxed_swap_and_distribute`. Only the difference of the two readings is
//! trusted as the swap's output. Every check of that function comes before
//! its first write, so a refusal leaves the accumulator and the entry as they
//! were. After a success the host pays the owed reward, moves the tax, and
//! records the holder's new balance with `record_balance`.
use vstd::prelude::*;
use crate::error::TaxRewardError;
use crate::math::{
    calculate_delta_cum, calculate_owed_rewards, calculate_tax, delta_cum_result, lemma_tax_bounds,
    owed_result, tax_result, BPS_DENOMINATOR,
};
use crate::state::{Config, GlobalState, UserInfo};

verus! {

/// What a successful taxed swap asks the host to do, and what it accrued.
#[derive(Clone, Copy, Debug, PartialEq, Eq, Structural)]
pub struct TaxedSwapOutcome {
    /// Lamports to pay the holder from the reward vault (their prior reward).
    pub owed: u64,
    /// Lamports the swap added to the proceeds vault.
    pub proceeds: u64,
    /// Growth of the cumulative reward per token.
    pub delta_cum: u128,
    /// Tokens to move from the holder to the tax vault.
    pub tax: u64,
}

/// The first check of a taxed swap that fails, if any: the program is
/// paused, nothing is swapped, the rate is above 100%, the holder's token
/// account is of another mint, the holder holds less than `amount_in`, or
/// there is no supply to share proceeds over.
pub open spec fn validation_error(
    config: Config,
    global: GlobalState,
    amount_in: u64,
    holder_balance: u64,
    holder_mint_ok: bool,
) -> Option<TaxRewardError> {
    if config.paused {
        Some(TaxRewardError::ProgramPaused)
    } else if amount_in == 0 {
        Some(TaxRewardError::InvalidInstruction)
    } else if config.tax_rate_bps > BPS_DENOMINATOR {
        Some(TaxRewardError::InvalidTaxRate)
    } else if !holder_mint_ok {
        Some(TaxRewardError::InvalidTokenAccount)
    } else if holder_balance < amount_in {
        Some(TaxRewardError::InsufficientFunds)
    } else if global.total_supply == 0 {
        Some(TaxRewardError::InvalidMintSupply)
    } else {
        None
    }
}

/// The outcome of a taxed swap, step by step: validation, settlement of the
/// holder, the proceeds as the vault's growth, the slippage bound, the vault
/// covering the owed reward, the accrual, and the tax.
pub open spec fn taxed_swap_result(
    config: Config,
    global: GlobalState,
    user_info: UserInfo,
    amount_in: u64,
    min_amount_out: u64,
    holder_balance: u64,
    holder_mint_ok: bool,
    vault_before: u64,
    vault_after: u64,
) -> Result<TaxedSwapOutcome, TaxRewardError> {
    match validation_error(config, global, amount_in, holder_balance, holder_mint_ok) {
        Some(e) => Err(e),
        None => match owed_result(user_info.balance_snapshot, global.cum_reward_per_token, user_info.last_cum) {
            Err(e) => Err(e),
            Ok(owed) => if vault_after < vault_before {
                Err(TaxRewardError::Overflow)
            } else if vault_after - vault_before < min_amount_out {
                Err(TaxRewardError::SlippageExceeded)
            } else if owed > 0 && vault_after < owed {
                Err(TaxRewardError::InsufficientRewardVault)
            } else {
                match delta_cum_result((vault_after - vault_before) as u128, global.total_supply) {
                    Err(e) => Err(e),
                    Ok(delta_cum) => if global.cum_reward_per_token as int + delta_cum as int > u128::MAX as int {
                        Err(TaxRewardError::Overflow)
                    } else {
                        match tax_result(amount_in, config.tax_rate_bps) {
                            Err(e) => Err(e),
                            Ok(tax) => Ok(TaxedSwapOutcome {
                                owed,
                                proceeds: (vault_after - vault_before) as u64,
                                delta_cum,
                                tax,
                            }),
                        }
                    },
                }
            },
        },
    }
}

/// The checks that come before any read beyond the policy and the supply,
/// and before the swap: see `validation_error`.
pub fn validate_taxed_swap(
    config: &Config,
    global: &GlobalState,
    amount_in: u64,
    holder_balance: u64,
    holder_mint_ok: bool,
) -> (r: Result<(), TaxRewardError>)
    ensures
        r == match validation_error(*config, *global, amount_in, holder_balance, holder_mint_ok) {
            Some(e) => Err::<(), TaxRewardError>(e),
            None => Ok::<(), TaxRewardError>(()),
        },
        config.paused ==> r == Err::<(), TaxRewardError>(TaxRewardError::ProgramPaused),
{
    if config.paused {
        return Err(TaxRewardError::ProgramPaused);
    }
    if amount_in == 0 {
        return Err(TaxRewardError::InvalidInstruction);
    }
    if config.tax_rate_bps as u64 > BPS_DENOMINATOR {
        return Err(TaxRewardError::InvalidTaxRate);
    }
    if !holder_mint_ok {
        return Err(TaxRewardError::InvalidTokenAccount);
    }
    if holder_balance < amount_in {
        return Err(TaxRewardError::InsufficientFunds);
    }
    if global.total_supply == 0 {
        return Err(TaxRewardError::InvalidMintSupply);
    }
    Ok(())
}

/// Runs a taxed swap of `amount_in` tokens whose proceeds moved the proceeds
/// vault from `vault_before` to `vault_after` lamports. On success the holder
/// is settled up to the accumulator as it stood before this swap, and the
/// accumulator grows by the proceeds shared over the supply; the outcome
/// says what the host must pay and move. On failure nothing is written.
pub fn taxed_swap_and_distribute(
    config: &Config,
    global: &mut GlobalState,
    user_info: &mut UserInfo,
    amount_in: u64,
    min_amount_out: u64,
    holder_balance: u64,
    holder_mint_ok: bool,
    vault_before: u64,
    vault_after: u64,
) -> (r: Result<TaxedSwapOutcome, TaxRewardError>)
    ensures
        r == taxed_swap_result(
            *config,
            *old(global),
            *old(user_info),
            amount_in,
            min_amount_out,
            holder_balance,
            holder_mint_ok,
            vault_before,
            vault_after,
        ),
        config.paused ==> r == Err::<TaxedSwapOutcome, TaxRewardError>(TaxRewardError::ProgramPaused),
        r matches Ok(o) ==> *final(global) == (GlobalState {
            cum_reward_per_token: (old(global).cum_reward_per_token + o.delta_cum) as u128,
            ..*old(global)
        }),
        r is Ok ==> *final(user_info) == (UserInfo {
            last_cum: old(global).cum_reward_per_token,
            ..*old(user_info)
        }),
        r matches Ok(o) ==> o.tax <= amount_in && o.proceeds >= min_amount_out,
        r is Ok ==> final(user_info).last_cum <= final(global).cum_reward_per_token,
        r is Err ==> *final(global) == *old(global) && *final(user_info) == *old(user_info),
        final(global).cum_reward_per_token >= old(global).cum_reward_per_token,
        final(global).total_supply == old(global).total_supply,
{
    validate_taxed_swap(config, global, amount_in, holder_balance, holder_mint_ok)?;
    let owed = calculate_owed_rewards(
        user_info.balance_snapshot,
        global.cum_reward_per_token,
        user_info.last_cum,
    )?;
    if vault_after < vault_before {
        return Err(TaxRewardError::Overflow);
    }
    let proceeds: u64 = vault_after - vault_before;
    if proceeds < min_amount_out {
        return Err(TaxRewardError::SlippageExceeded);
    }
    if owed > 0 && vault_after < owed {
        return Err(TaxRewardError::InsufficientRewardVault);
    }
    let delta_cum = calculate_delta_cum(proceeds as u128, global.total_supply)?;
    let new_cum = match global.cum_reward_per_token.checked_add(delta_cum) {
        None => return Err(TaxRewardError::Overflow),
        Some(c) => c,
    };
    let tax = calculate_tax(amount_in, config.tax_rate_bps)?;
    proof {
        lemma_tax_bounds(amount_in, config.tax_rate_bps);
    }
    user_info.last_cum = global.cum_reward_per_token;
    global.cum_reward_per_token = new_cum;
    Ok(TaxedSwapOutcome { owed, proceeds, delta_cum, tax })
}

/// Records the holder's token balance after the taxed transfer, from which
/// the holder earns until the next settlement.
pub fn record_balance(user_info: &mut UserInfo, balance: u64)
    ensures
        *final(user_info) == (UserInfo { balance_snapshot: balance, ..*old(user_info) }),
{
    user_info.balance_snapshot = balance;
}

} // verus!
