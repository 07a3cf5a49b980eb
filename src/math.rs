//! Fixed-point reward arithmetic: the transfer tax, the growth of the
//! cumulative reward per token, and what a holder is owed.
//!
//! Every function here is total: an intermediate or a result that does not
//! fit its type is reported as an error, never wrapped or truncated.
use vstd::prelude::*;
use crate::error::TaxRewardError;

verus! {

/// Fixed-point scale of the cumulative reward per token (10^18).
pub const SCALE: u128 = 1_000_000_000_000_000_000;

/// Basis points in a whole: a rate of this many bps is 100%.
pub const BPS_DENOMINATOR: u64 = 10_000;

/// `floor(amount * rate_bps / 10000)`, as an unbounded integer.
pub open spec fn tax_value(amount: u64, rate_bps: u16) -> int {
    (amount as int * rate_bps as int) / (BPS_DENOMINATOR as int)
}

/// The outcome of taxing `amount` at `rate_bps`.
pub open spec fn tax_result(amount: u64, rate_bps: u16) -> Result<u64, TaxRewardError> {
    if tax_value(amount, rate_bps) <= u64::MAX as int {
        Ok(tax_value(amount, rate_bps) as u64)
    } else {
        Err(TaxRewardError::Overflow)
    }
}

/// `floor(proceeds * SCALE / total_supply)`, as an unbounded integer.
pub open spec fn delta_cum_value(proceeds: u128, total_supply: u64) -> int {
    (proceeds as int * SCALE as int) / (total_supply as int)
}

/// The outcome of turning `proceeds` into a growth of the reward per token.
pub open spec fn delta_cum_result(proceeds: u128, total_supply: u64) -> Result<u128, TaxRewardError> {
    if total_supply == 0 {
        Err(TaxRewardError::DivideByZero)
    } else if proceeds as int * SCALE as int > u128::MAX as int {
        Err(TaxRewardError::Overflow)
    } else {
        Ok(delta_cum_value(proceeds, total_supply) as u128)
    }
}

/// `floor(balance * (cum_now - cum_last) / SCALE)`, as an unbounded integer.
pub open spec fn owed_value(balance: u64, cum_now: u128, cum_last: u128) -> int {
    (balance as int * (cum_now as int - cum_last as int)) / (SCALE as int)
}

/// The outcome of settling a holder of `balance` from `cum_last` up to `cum_now`.
pub open spec fn owed_result(balance: u64, cum_now: u128, cum_last: u128) -> Result<u64, TaxRewardError> {
    if cum_now < cum_last {
        Err(TaxRewardError::Overflow)
    } else if balance as int * (cum_now as int - cum_last as int) > u128::MAX as int {
        Err(TaxRewardError::Overflow)
    } else if owed_value(balance, cum_now, cum_last) > u64::MAX as int {
        Err(TaxRewardError::Overflow)
    } else {
        Ok(owed_value(balance, cum_now, cum_last) as u64)
    }
}

/// The outcome of `floor(a * b / divisor)` computed in 64 bits.
pub open spec fn mul_div_result(a: u64, b: u64, divisor: u64) -> Result<u64, TaxRewardError> {
    if divisor == 0 {
        Err(TaxRewardError::DivideByZero)
    } else if a as int * b as int > u64::MAX as int {
        Err(TaxRewardError::Overflow)
    } else {
        Ok(((a as int * b as int) / (divisor as int)) as u64)
    }
}

/// The tax on a transfer of `amount` at `rate_bps` basis points, rounded
/// down. The product is formed in 128 bits, so only a quotient that does not
/// fit 64 bits (possible for rates above 100%) is an overflow.
pub fn calculate_tax(amount: u64, rate_bps: u16) -> (r: Result<u64, TaxRewardError>)
    ensures
        r == tax_result(amount, rate_bps),
{
    proof {
        assert(amount as int * rate_bps as int <= u64::MAX as int * u16::MAX as int)
            by (nonlinear_arith);
    }
    let wide: u128 = amount as u128 * rate_bps as u128;
    let quotient: u128 = wide / (BPS_DENOMINATOR as u128);
    if quotient > u64::MAX as u128 {
        Err(TaxRewardError::Overflow)
    } else {
        Ok(quotient as u64)
    }
}

/// Growth of the cumulative reward per token when `proceeds` are shared
/// among `total_supply` tokens.
pub fn calculate_delta_cum(proceeds: u128, total_supply: u64) -> (r: Result<u128, TaxRewardError>)
    ensures
        r == delta_cum_result(proceeds, total_supply),
{
    if total_supply == 0 {
        return Err(TaxRewardError::DivideByZero);
    }
    match proceeds.checked_mul(SCALE) {
        None => Err(TaxRewardError::Overflow),
        Some(scaled) => Ok(scaled / (total_supply as u128)),
    }
}

/// What a holder of `balance` tokens is owed for the growth of the
/// cumulative reward per token from `cum_last` to `cum_now`, rounded down.
pub fn calculate_owed_rewards(balance: u64, cum_now: u128, cum_last: u128) -> (r: Result<u64, TaxRewardError>)
    ensures
        r == owed_result(balance, cum_now, cum_last),
{
    let diff = match cum_now.checked_sub(cum_last) {
        None => return Err(TaxRewardError::Overflow),
        Some(d) => d,
    };
    let product = match (balance as u128).checked_mul(diff) {
        None => return Err(TaxRewardError::Overflow),
        Some(p) => p,
    };
    let quotient: u128 = product / SCALE;
    if quotient > u64::MAX as u128 {
        Err(TaxRewardError::Overflow)
    } else {
        Ok(quotient as u64)
    }
}

/// `floor(a * b / divisor)` in 64 bits, refusing a zero divisor and a
/// product that does not fit.
pub fn safe_mul_div(a: u64, b: u64, divisor: u64) -> (r: Result<u64, TaxRewardError>)
    ensures
        r == mul_div_result(a, b, divisor),
{
    if divisor == 0 {
        return Err(TaxRewardError::DivideByZero);
    }
    match a.checked_mul(b) {
        None => Err(TaxRewardError::Overflow),
        Some(product) => Ok(product / divisor),
    }
}

/// What a settlement actually pays: the owed amount, or nothing when the
/// settlement is refused.
pub open spec fn paid_value(balance: u64, cum_now: u128, cum_last: u128) -> int {
    match owed_result(balance, cum_now, cum_last) {
        Ok(v) => v as int,
        Err(_) => 0,
    }
}

/// Sum of a sequence of token balances.
pub open spec fn sum_balances(balances: Seq<u64>) -> int
    decreases balances.len(),
{
    if balances.len() == 0 {
        0
    } else {
        sum_balances(balances.drop_last()) + balances.last() as int
    }
}

/// What settling every holder of `balances` from `cum_last` to `cum_now` pays in all.
pub open spec fn total_paid(balances: Seq<u64>, cum_now: u128, cum_last: u128) -> int
    decreases balances.len(),
{
    if balances.len() == 0 {
        0
    } else {
        total_paid(balances.drop_last(), cum_now, cum_last) + paid_value(balances.last(), cum_now, cum_last)
    }
}

/// At a rate of at most 100% the tax never fails and never exceeds the
/// amount; a zero rate takes nothing and a full rate takes everything.
pub proof fn lemma_tax_bounds(amount: u64, rate_bps: u16)
    requires
        rate_bps <= BPS_DENOMINATOR,
    ensures
        tax_result(amount, rate_bps) is Ok,
        tax_result(amount, rate_bps)->Ok_0 <= amount,
        tax_result(amount, 0) == Ok::<u64, TaxRewardError>(0),
        tax_result(amount, 10000) == Ok::<u64, TaxRewardError>(amount),
{
    assert(amount as int * rate_bps as int <= amount as int * 10000) by (nonlinear_arith)
        requires rate_bps <= 10000;
    assert((amount as int * rate_bps as int) / 10000 <= (amount as int * 10000) / 10000)
        by (nonlinear_arith)
        requires amount as int * rate_bps as int <= amount as int * 10000;
    assert((amount as int * 10000) / 10000 == amount as int) by (nonlinear_arith);
    assert(amount as int * 0 == 0);
}

/// Whenever the accumulator has not moved backwards, the amount owed is zero
/// exactly when the accumulator did not move or the balance is zero. Left
/// out are the inputs whose product `balance * (cum_now - cum_last)` is
/// positive but below `SCALE`: there the amount rounds down to zero.
pub proof fn lemma_owed_zero_iff_no_growth(balance: u64, cum_now: u128, cum_last: u128)
    requires
        cum_now >= cum_last,
        balance as int * (cum_now as int - cum_last as int) == 0
            || balance as int * (cum_now as int - cum_last as int) >= SCALE as int,
    ensures
        (owed_result(balance, cum_now, cum_last) == Ok::<u64, TaxRewardError>(0))
            <==> (cum_now == cum_last || balance == 0),
{
    let p = balance as int * (cum_now as int - cum_last as int);
    if p == 0 {
        assert(balance == 0 || cum_now == cum_last) by (nonlinear_arith)
            requires p == balance as int * (cum_now as int - cum_last as int), p == 0;
        assert(owed_value(balance, cum_now, cum_last) == 0);
    } else {
        assert(p / (SCALE as int) >= 1) by (nonlinear_arith)
            requires p >= SCALE as int;
        assert(balance != 0 && cum_now != cum_last) by (nonlinear_arith)
            requires p == balance as int * (cum_now as int - cum_last as int), p != 0;
    }
}

/// The reward math is a function of its arguments: equal inputs give equal
/// outcomes, for the owed amount and for the growth of the accumulator.
pub proof fn lemma_reward_math_deterministic(
    balance: u64,
    cum_now: u128,
    cum_last: u128,
    proceeds: u128,
    total_supply: u64,
    balance2: u64,
    cum_now2: u128,
    cum_last2: u128,
    proceeds2: u128,
    total_supply2: u64,
)
    requires
        balance == balance2,
        cum_now == cum_now2,
        cum_last == cum_last2,
        proceeds == proceeds2,
        total_supply == total_supply2,
    ensures
        owed_result(balance, cum_now, cum_last) == owed_result(balance2, cum_now2, cum_last2),
        delta_cum_result(proceeds, total_supply) == delta_cum_result(proceeds2, total_supply2),
{
}

proof fn lemma_paid_scaled_bound(balance: u64, cum_now: u128, cum_last: u128)
    requires
        cum_now >= cum_last,
    ensures
        paid_value(balance, cum_now, cum_last) * SCALE as int
            <= balance as int * (cum_now as int - cum_last as int),
        paid_value(balance, cum_now, cum_last) >= 0,
{
    let p = balance as int * (cum_now as int - cum_last as int);
    assert(p >= 0) by (nonlinear_arith)
        requires p == balance as int * (cum_now as int - cum_last as int), cum_now >= cum_last;
    assert((p / (SCALE as int)) * (SCALE as int) <= p) by (nonlinear_arith)
        requires p >= 0;
    assert(p / (SCALE as int) >= 0) by (nonlinear_arith)
        requires p >= 0;
}

proof fn lemma_total_paid_scaled_bound(balances: Seq<u64>, cum_now: u128, cum_last: u128)
    requires
        cum_now >= cum_last,
    ensures
        total_paid(balances, cum_now, cum_last) * SCALE as int
            <= sum_balances(balances) * (cum_now as int - cum_last as int),
    decreases balances.len(),
{
    if balances.len() > 0 {
        let rest = balances.drop_last();
        let d = cum_now as int - cum_last as int;
        lemma_total_paid_scaled_bound(rest, cum_now, cum_last);
        lemma_paid_scaled_bound(balances.last(), cum_now, cum_last);
        let a = total_paid(rest, cum_now, cum_last);
        let b = paid_value(balances.last(), cum_now, cum_last);
        let x = sum_balances(rest);
        let y = balances.last() as int;
        assert((a + b) * SCALE as int <= (x + y) * d) by (nonlinear_arith)
            requires
                a * SCALE as int <= x * d,
                b * SCALE as int <= y * d;
    }
}

/// No over-distribution: when proceeds are accrued over `total_supply`
/// tokens, settling any set of holders whose balances add up to at most
/// `total_supply`, all last settled just before the accrual, pays out at most
/// the proceeds in all.
pub proof fn lemma_no_over_distribution(
    balances: Seq<u64>,
    proceeds: u128,
    total_supply: u64,
    cum_before: u128,
)
    requires
        sum_balances(balances) <= total_supply as int,
        delta_cum_result(proceeds, total_supply) is Ok,
        cum_before as int + delta_cum_result(proceeds, total_supply)->Ok_0 as int <= u128::MAX as int,
    ensures
        total_paid(
            balances,
            (cum_before as int + delta_cum_result(proceeds, total_supply)->Ok_0 as int) as u128,
            cum_before,
        ) <= proceeds as int,
{
    let d = delta_cum_value(proceeds, total_supply);
    let cum_now = (cum_before as int + d) as u128;
    let t = total_supply as int;
    let ps = proceeds as int * SCALE as int;
    assert(d >= 0 && d * t <= ps) by (nonlinear_arith)
        requires d == ps / t, t > 0, ps >= 0;
    lemma_total_paid_scaled_bound(balances, cum_now, cum_before);
    let total = total_paid(balances, cum_now, cum_before);
    let s = sum_balances(balances);
    lemma_sum_balances_nonneg(balances);
    assert(total <= proceeds as int) by (nonlinear_arith)
        requires
            total * SCALE as int <= s * d,
            s <= t,
            s >= 0,
            d >= 0,
            d * t <= ps,
            ps == proceeds as int * SCALE as int;
}

proof fn lemma_sum_balances_nonneg(balances: Seq<u64>)
    ensures
        sum_balances(balances) >= 0,
    decreases balances.len(),
{
    if balances.len() > 0 {
        lemma_sum_balances_nonneg(balances.drop_last());
    }
}

} // verus!
