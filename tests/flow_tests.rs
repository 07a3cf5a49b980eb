use solana_program::pubkey::Pubkey;
use solana_tax_reward::error::TaxRewardError;
use solana_tax_reward::ledger::{accrue, close_user_info, initialize, update_config, update_total_supply};
use solana_tax_reward::math::{calculate_delta_cum, calculate_owed_rewards, calculate_tax};
use solana_tax_reward::orchestrator::{record_balance, taxed_swap_and_distribute, validate_taxed_swap};
use solana_tax_reward::settlement::{claim_rewards, settle};
use solana_tax_reward::state::{Config, GlobalState, UserInfo};
use solana_tax_reward::swap::{swap_next, swap_start, SwapAction};

const SCALE: u128 = 1_000_000_000_000_000_000;

fn setup(tax_rate_bps: u16, supply: u64) -> (Pubkey, Config, GlobalState) {
    let owner = Pubkey::new_unique();
    let (config, global) = initialize(owner, tax_rate_bps, Pubkey::new_unique(), supply).unwrap();
    (owner, config, global)
}

#[test]
fn test_tax_calculation_scenarios() {
    let cases = [(1000u64, 500u16, 50u64), (10_000, 250, 250), (1, 10_000, 1), (1000, 0, 0)];
    for (amount, rate, expected) in cases {
        assert_eq!(calculate_tax(amount, rate), Ok(expected), "Failed test case: {} at {}", amount, rate);
    }
}

#[test]
fn test_reward_calculation_scenarios() {
    let cases = [
        (1000u64, 2 * SCALE, 1 * SCALE, 1000u64),
        (500, 1 * SCALE, 0, 500),
        (1000, 1 * SCALE, 1 * SCALE, 0),
    ];
    for (balance, now, last, expected) in cases {
        assert_eq!(calculate_owed_rewards(balance, now, last), Ok(expected));
    }
}

#[test]
fn test_overflow_conditions() {
    assert_eq!(calculate_tax(u64::MAX, 20_000), Err(TaxRewardError::Overflow));
    assert_eq!(calculate_delta_cum(u128::MAX, 1_000), Err(TaxRewardError::Overflow));
    assert_eq!(calculate_tax(1000, 500), Ok(50));
    assert_eq!(calculate_owed_rewards(1000, SCALE, 0), Ok(1000));
    assert_eq!(calculate_delta_cum(1000, 0), Err(TaxRewardError::DivideByZero));
    assert_eq!(calculate_owed_rewards(1, 0, 1), Err(TaxRewardError::Overflow));
}

#[test]
fn anchor_tests_test_error_conditions() {
    for invalid_rate in [10_001u16, u16::MAX] {
        let r = initialize(Pubkey::new_unique(), invalid_rate, Pubkey::new_unique(), 1_000_000);
        assert_eq!(r.err(), Some(TaxRewardError::InvalidTaxRate), "Tax rate {} should be invalid", invalid_rate);
    }
    for valid_rate in [0u16, 500u16, 10_000u16] {
        let r = initialize(Pubkey::new_unique(), valid_rate, Pubkey::new_unique(), 1_000_000);
        assert!(r.is_ok(), "Tax rate {} should be valid", valid_rate);
    }
    let r = initialize(Pubkey::new_unique(), 500, Pubkey::new_unique(), 0);
    assert_eq!(r.err(), Some(TaxRewardError::InvalidMintSupply));
}

#[test]
fn test_swap_mock_functionality() {
    let token_amount = 1000u64;
    let min_amount_out = 500u64;
    assert_eq!(swap_start(token_amount, 2), SwapAction::TryRoute(0));
    assert_eq!(swap_start(0, 2), SwapAction::Failed(TaxRewardError::InvalidInstruction));
    assert_eq!(swap_start(token_amount, 0), SwapAction::Failed(TaxRewardError::SwapFailed));
    // primary fails, exactly one fallback is tried, then the swap fails
    assert_eq!(swap_next(0, false, 2), SwapAction::TryRoute(1));
    assert_eq!(swap_next(1, false, 2), SwapAction::Failed(TaxRewardError::SwapFailed));
    assert_eq!(swap_next(0, true, 2), SwapAction::Completed);
    assert_eq!(swap_next(1, true, 2), SwapAction::Completed);
    let simulated_output = token_amount / 2;
    assert!(simulated_output >= min_amount_out, "Mock swap should meet minimum output requirement");
}

#[test]
fn test_taxed_swap_and_distribute_flow() {
    let (_owner, config, mut global) = setup(500, 1_000_000);
    let mut user = UserInfo::new();
    let holder_balance = 1_000_000u64;
    let amount_in = 100_000u64;
    let min_out = 90_000u64;

    assert_eq!(validate_taxed_swap(&config, &global, amount_in, holder_balance, true), Ok(()));
    let outcome = taxed_swap_and_distribute(
        &config, &mut global, &mut user, amount_in, min_out, holder_balance, true, 10_000, 110_000,
    )
    .unwrap();
    assert_eq!(outcome.owed, 0);
    assert_eq!(outcome.proceeds, 100_000);
    assert_eq!(outcome.tax, 5_000);
    assert_eq!(outcome.delta_cum, 100_000 * SCALE / 1_000_000);
    assert!(global.cum_reward_per_token > 0, "Rewards should be distributed");
    assert_eq!(global.cum_reward_per_token, outcome.delta_cum);
    assert_eq!(user.last_cum, 0);
    record_balance(&mut user, holder_balance - outcome.tax);
    assert_eq!(user.balance_snapshot, 995_000);

    // a second swap first pays the holder's share of the first
    let outcome2 = taxed_swap_and_distribute(
        &config, &mut global, &mut user, amount_in, min_out, 995_000, true, 110_000, 210_000,
    )
    .unwrap();
    assert_eq!(outcome2.owed, 99_500);
    assert_eq!(user.last_cum, outcome.delta_cum);
}

#[test]
fn test_slippage_leaves_state_unchanged() {
    let (_owner, config, mut global) = setup(500, 1_000);
    global.cum_reward_per_token = 7 * SCALE;
    let mut user = UserInfo { last_cum: SCALE, balance_snapshot: 10 };
    let global_before = global;
    let user_before = user;

    let r = taxed_swap_and_distribute(&config, &mut global, &mut user, 1_000, 500, 5_000, true, 1_000, 1_400);
    assert_eq!(r, Err(TaxRewardError::SlippageExceeded));
    assert_eq!(global, global_before);
    assert_eq!(user, user_before);
}

#[test]
fn e2e_tests_test_error_conditions() {
    let (owner, mut config, mut global) = setup(500, 1_000_000);
    update_config(&mut config, &owner, None, Some(true)).unwrap();
    let mut user = UserInfo::new();
    let global_before = global;

    assert_eq!(
        validate_taxed_swap(&config, &global, 100_000, 1_000_000, true),
        Err(TaxRewardError::ProgramPaused)
    );
    // paused wins over every other check, whatever the rest holds
    let r = taxed_swap_and_distribute(&config, &mut global, &mut user, 0, 90_000, 0, false, 5, 0);
    assert_eq!(r, Err(TaxRewardError::ProgramPaused), "Transaction should fail when program is paused");
    assert_eq!(global, global_before);
}

#[test]
fn test_taxed_swap_validation_errors() {
    let (_owner, config, mut global) = setup(500, 1_000_000);
    let mut user = UserInfo::new();
    let mut run = |amount: u64, balance: u64, mint_ok: bool, before: u64, after: u64| {
        taxed_swap_and_distribute(&config, &mut global, &mut user, amount, 10, balance, mint_ok, before, after)
    };
    assert_eq!(run(0, 100, true, 0, 100).err(), Some(TaxRewardError::InvalidInstruction));
    assert_eq!(run(50, 100, false, 0, 100).err(), Some(TaxRewardError::InvalidTokenAccount));
    assert_eq!(run(500, 100, true, 0, 100).err(), Some(TaxRewardError::InsufficientFunds));
    assert_eq!(run(50, 100, true, 100, 50).err(), Some(TaxRewardError::Overflow));

    let empty = GlobalState { total_supply: 0, cum_reward_per_token: 0 };
    assert_eq!(
        validate_taxed_swap(&config, &empty, 50, 100, true),
        Err(TaxRewardError::InvalidMintSupply)
    );
    let bad_rate = Config { tax_rate_bps: 10_001, ..config };
    assert_eq!(validate_taxed_swap(&bad_rate, &global, 50, 100, true), Err(TaxRewardError::InvalidTaxRate));
}

#[test]
fn test_taxed_swap_vault_must_cover_owed() {
    let (_owner, config, mut global) = setup(500, 1_000);
    global.cum_reward_per_token = 2 * SCALE;
    let mut user = UserInfo { last_cum: 0, balance_snapshot: 1_000 };
    // owed 2000 lamports, but the vault holds only 1500 after the swap
    let r = taxed_swap_and_distribute(&config, &mut global, &mut user, 100, 500, 1_000, true, 1_000, 1_500);
    assert_eq!(r, Err(TaxRewardError::InsufficientRewardVault));
    assert_eq!(user.last_cum, 0);
    assert_eq!(global.cum_reward_per_token, 2 * SCALE);
}

#[test]
fn test_cum_reward_never_decreases() {
    let (_owner, config, mut global) = setup(1_000, 3);
    let mut user = UserInfo::new();
    let mut last = global.cum_reward_per_token;
    let mut vault = 0u64;
    for proceeds in [0u64, 1, 2, 1_000, 0, 7] {
        taxed_swap_and_distribute(&config, &mut global, &mut user, 10, 0, 100, true, vault, vault + proceeds)
            .unwrap();
        vault += proceeds;
        assert!(global.cum_reward_per_token >= last);
        last = global.cum_reward_per_token;
    }
}

#[test]
fn test_claim_rewards_flow() {
    let global = GlobalState { total_supply: 1_000_000, cum_reward_per_token: SCALE };
    let mut user = UserInfo { last_cum: 0, balance_snapshot: 1_000 };
    let owed = claim_rewards(&mut user, &global, 5_000, 1_200).unwrap();
    assert!(owed > 0, "User should receive SOL rewards");
    assert_eq!(owed, 1_000);
    assert!(user.last_cum > 0, "User last cum should be updated");
    assert_eq!(user, UserInfo { last_cum: SCALE, balance_snapshot: 1_200 });

    let mut poor = UserInfo { last_cum: 0, balance_snapshot: 1_000 };
    assert_eq!(claim_rewards(&mut poor, &global, 999, 1_000), Err(TaxRewardError::InsufficientRewardVault));
    assert_eq!(poor, UserInfo { last_cum: 0, balance_snapshot: 1_000 });
}

#[test]
fn test_settle_twice_owes_nothing() {
    let global = GlobalState { total_supply: 10, cum_reward_per_token: 3 * SCALE };
    let mut user = UserInfo { last_cum: SCALE, balance_snapshot: 4 };
    assert_eq!(settle(&mut user, &global), Ok(8));
    assert_eq!(settle(&mut user, &global), Ok(0));
    assert_eq!(user.last_cum, 3 * SCALE);
}

#[test]
fn test_update_config_flow() {
    let (owner, mut config, _global) = setup(500, 1_000);
    update_config(&mut config, &owner, Some(1000), Some(true)).unwrap();
    assert_eq!(config.tax_rate_bps, 1000);
    assert!(config.paused);

    update_config(&mut config, &owner, None, Some(false)).unwrap();
    assert_eq!(config.tax_rate_bps, 1000);
    assert!(!config.paused);

    let stranger = Pubkey::new_unique();
    assert_eq!(update_config(&mut config, &stranger, Some(0), None), Err(TaxRewardError::Unauthorized));
    assert_eq!(update_config(&mut config, &owner, Some(10_001), None), Err(TaxRewardError::InvalidTaxRate));
    assert_eq!(config.tax_rate_bps, 1000);
}

#[test]
fn test_update_total_supply_and_accrue() {
    let (owner, config, mut global) = setup(500, 1_000);
    assert_eq!(update_total_supply(&config, &mut global, &Pubkey::new_unique(), 5), Err(TaxRewardError::Unauthorized));
    assert_eq!(global.total_supply, 1_000);
    update_total_supply(&config, &mut global, &owner, 2_000).unwrap();
    assert_eq!(global.total_supply, 2_000);

    accrue(&mut global, u128::MAX - 1).unwrap();
    assert_eq!(accrue(&mut global, 2), Err(TaxRewardError::Overflow));
    assert_eq!(global.cum_reward_per_token, u128::MAX - 1);
}

#[test]
fn test_close_user_info_requires_settlement() {
    let global = GlobalState { total_supply: 10, cum_reward_per_token: SCALE };
    let mut user = UserInfo { last_cum: 0, balance_snapshot: 5 };
    assert_eq!(close_user_info(&user, &global), Err(TaxRewardError::InvalidInstruction));
    settle(&mut user, &global).unwrap();
    assert_eq!(close_user_info(&user, &global), Ok(()));
    let broken = UserInfo { last_cum: 2 * SCALE, balance_snapshot: 5 };
    assert_eq!(close_user_info(&broken, &global), Err(TaxRewardError::Overflow));
}

#[test]
fn test_no_over_distribution_between_accruals() {
    let supply = 7u64;
    let mut global = GlobalState { total_supply: supply, cum_reward_per_token: 0 };
    let proceeds = 10u128;
    let delta = calculate_delta_cum(proceeds, supply).unwrap();
    accrue(&mut global, delta).unwrap();
    let mut paid = 0u64;
    for balance in [1u64, 2, 4] {
        let mut user = UserInfo { last_cum: 0, balance_snapshot: balance };
        paid += settle(&mut user, &global).unwrap();
    }
    assert!(paid as u128 <= proceeds);
    assert_eq!(paid, 1 + 2 + 5);
}

#[test]
fn test_owed_zero_exactly_without_growth() {
    assert_eq!(calculate_owed_rewards(0, 5 * SCALE, 0), Ok(0));
    assert_eq!(calculate_owed_rewards(9, SCALE, SCALE), Ok(0));
    assert_eq!(calculate_owed_rewards(1, SCALE, 0), Ok(1));
    // below one unit of reward the amount rounds down to zero
    assert_eq!(calculate_owed_rewards(1, SCALE - 1, 0), Ok(0));
}

#[test]
fn test_reward_math_is_deterministic() {
    for (balance, now, last) in [(1000u64, 3 * SCALE + 17, SCALE), (7, SCALE / 3, 0), (0, 5, 5)] {
        assert_eq!(calculate_owed_rewards(balance, now, last), calculate_owed_rewards(balance, now, last));
    }
    for (proceeds, supply) in [(10u128, 7u64), (0, 1), (u128::MAX, 3), (5, 0)] {
        assert_eq!(calculate_delta_cum(proceeds, supply), calculate_delta_cum(proceeds, supply));
    }
    assert_eq!(calculate_delta_cum(10, 7), Ok(1_428_571_428_571_428_571));
}
