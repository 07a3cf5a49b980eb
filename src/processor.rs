//! Decisions of the fixed-rate trading path: a flat tax on every buy and
//! sell gathered in a fee pool and swapped once it reaches a threshold,
//! snapshots of holder balances, and claims of pending rewards.
use vstd::prelude::*;
use solana_program::pubkey::Pubkey;
use crate::error::TaxRewardError;
use crate::math::safe_mul_div;
use crate::state::{FeePool, HolderInfo, RewardPool, Snapshot};

verus! {

/// Tax on a trade, in percent.
pub const TRADE_TAX_PERCENT: u64 = 5;

/// Collected tax, in tokens, at which the fee pool is swapped.
pub const SWAP_THRESHOLD: u64 = 1_000_000;

/// Snapshot id under which balances are recorded.
pub const CURRENT_SNAPSHOT_ID: u64 = 1;

/// What a trade asks the host to do.
#[derive(Clone, Copy, Debug, PartialEq, Eq, Structural)]
pub struct TradeOutcome {
    /// Tokens taken as tax.
    pub tax: u64,
    /// Tokens that reach the recipient.
    pub net_amount: u64,
    /// Tokens of the fee pool to swap now; zero when the pool stays below
    /// the threshold.
    pub swap_amount: u64,
}

/// The flat tax on a trade of `amount` tokens, rounded down.
pub open spec fn trade_tax(amount: u64) -> int {
    (amount as int * TRADE_TAX_PERCENT as int) / 100
}

/// Handles a buy or a sell of `amount` tokens: takes the flat tax into the
/// fee pool and, once the pool reaches `SWAP_THRESHOLD`, hands all of it to
/// the swap and empties it. Fails with `Overflow`, leaving the pool as it
/// was, when the tax or the pool's total does not fit.
pub fn process_trade(fee_pool: &mut FeePool, amount: u64) -> (r: Result<TradeOutcome, TaxRewardError>)
    ensures
        r is Ok <==> (amount as int * TRADE_TAX_PERCENT as int <= u64::MAX as int
            && old(fee_pool).collected_tokens as int + trade_tax(amount) <= u64::MAX as int),
        r is Err ==> r == Err::<TradeOutcome, TaxRewardError>(TaxRewardError::Overflow)
            && *final(fee_pool) == *old(fee_pool),
        r matches Ok(o) ==> {
            let collected = old(fee_pool).collected_tokens as int + trade_tax(amount);
            &&& o.tax as int == trade_tax(amount)
            &&& o.net_amount as int == amount as int - trade_tax(amount)
            &&& collected >= SWAP_THRESHOLD as int ==> o.swap_amount as int == collected
                && final(fee_pool).collected_tokens == 0
            &&& collected < SWAP_THRESHOLD as int ==> o.swap_amount == 0
                && final(fee_pool).collected_tokens as int == collected
        },
{
    let tax = safe_mul_div(amount, TRADE_TAX_PERCENT, 100)?;
    let net_amount: u64 = amount - tax;
    let collected = match fee_pool.collected_tokens.checked_add(tax) {
        None => return Err(TaxRewardError::Overflow),
        Some(c) => c,
    };
    if collected >= SWAP_THRESHOLD {
        fee_pool.collected_tokens = 0;
        Ok(TradeOutcome { tax, net_amount, swap_amount: collected })
    } else {
        fee_pool.collected_tokens = collected;
        Ok(TradeOutcome { tax, net_amount, swap_amount: 0 })
    }
}

/// Pays out a holder's pending rewards from the reward pool: nothing to pay
/// changes nothing; a pool that cannot cover them fails with
/// `InsufficientFunds` and changes nothing; otherwise the pool is debited,
/// the holder's pending rewards are cleared, and the amount is returned for
/// the host to transfer.
pub fn process_claim(reward_pool: &mut RewardPool, holder: &mut HolderInfo) -> (r: Result<u64, TaxRewardError>)
    ensures
        old(holder).pending_rewards == 0 ==> r == Ok::<u64, TaxRewardError>(0),
        old(holder).pending_rewards > 0 && old(reward_pool).sol_balance < old(holder).pending_rewards
            ==> r == Err::<u64, TaxRewardError>(TaxRewardError::InsufficientFunds),
        old(holder).pending_rewards > 0 && old(reward_pool).sol_balance >= old(holder).pending_rewards
            ==> r == Ok::<u64, TaxRewardError>(old(holder).pending_rewards)
            && final(reward_pool).sol_balance == old(reward_pool).sol_balance - old(holder).pending_rewards
            && *final(holder) == (HolderInfo { pending_rewards: 0, ..*old(holder) }),
        r is Err || old(holder).pending_rewards == 0 ==> *final(reward_pool) == *old(reward_pool)
            && *final(holder) == *old(holder),
{
    let pending = holder.pending_rewards;
    if pending == 0 {
        return Ok(0);
    }
    if reward_pool.sol_balance < pending {
        return Err(TaxRewardError::InsufficientFunds);
    }
    reward_pool.sol_balance = reward_pool.sol_balance - pending;
    holder.pending_rewards = 0;
    Ok(pending)
}

impl Snapshot {
    /// The pairs that recording under `current_id` starts from: all of them
    /// for the same id, none for another.
    pub open spec fn kept_balances(&self, current_id: u64) -> Seq<(Pubkey, u64)> {
        if self.snapshot_id == current_id {
            self.holder_balances@
        } else {
            Seq::empty()
        }
    }

    /// Records `balance` for `owner` under `current_id`. A snapshot of another
    /// id is first emptied and takes the new id; the owner's pair is then
    /// replaced where it first occurs, or appended.
    pub fn record(&mut self, owner: Pubkey, balance: u64, current_id: u64)
        ensures
            final(self).snapshot_id == current_id,
            (forall|j: int|
                0 <= j < old(self).kept_balances(current_id).len()
                    ==> old(self).kept_balances(current_id)[j].0 != owner)
                ==> final(self).holder_balances@ == old(self).kept_balances(current_id).push((owner, balance)),
            forall|i: int|
                0 <= i < old(self).kept_balances(current_id).len()
                    && old(self).kept_balances(current_id)[i].0 == owner
                    && (forall|j: int| 0 <= j < i ==> old(self).kept_balances(current_id)[j].0 != owner)
                ==> final(self).holder_balances@ == old(self).kept_balances(current_id).update(i, (owner, balance)),
    {
        if self.snapshot_id != current_id {
            self.snapshot_id = current_id;
            self.holder_balances.clear();
        }
        let ghost base = self.holder_balances@;
        assert(base =~= old(self).kept_balances(current_id));
        let mut i: usize = 0;
        while i < self.holder_balances.len()
            invariant
                self.holder_balances@ == base,
                base == old(self).kept_balances(current_id),
                self.snapshot_id == current_id,
                i <= base.len(),
                forall|j: int| 0 <= j < i ==> base[j].0 != owner,
            decreases base.len() - i,
        {
            let key: Pubkey = self.holder_balances[i].0;
            if key == owner {
                self.holder_balances[i] = (owner, balance);
                assert forall|k: int|
                    0 <= k < base.len() && base[k].0 == owner && (forall|j: int| 0 <= j < k ==> base[j].0 != owner)
                    implies k == i by {
                    if k < i {
                    } else if k > i {
                        assert(base[i as int].0 == owner);
                    }
                }
                assert(self.holder_balances@ =~= base.update(i as int, (owner, balance)));
                return;
            }
            i = i + 1;
        }
        self.holder_balances.push((owner, balance));
    }
}

} // verus!
