//! Byte encoding of the fee-pool records: each is its single u64 field in
//! the 8 little-endian bytes that borsh writes for an integer.
use vstd::prelude::*;
use borsh::{BorshDeserialize, BorshSerialize};
use crate::error::TaxRewardError;
use crate::instructions::le_u64_value;
use crate::state::{FeePool, RewardPool};

verus! {

/// The 8 little-endian bytes of `x`.
pub open spec fn u64_le_bytes(x: u64) -> Seq<u8> {
    seq![
        (x % 256) as u8,
        ((x / 256) % 256) as u8,
        ((x / 65536) % 256) as u8,
        ((x / 16777216) % 256) as u8,
        ((x / 4294967296) % 256) as u8,
        ((x / 1099511627776) % 256) as u8,
        ((x / 281474976710656) % 256) as u8,
        ((x / 72057594037927936) % 256) as u8,
    ]
}

/// Relies on borsh's `BorshSerialize::try_to_vec` for `u64`, which writes
/// `to_le_bytes` into a fresh `Vec`; writing into a `Vec` does not fail.
#[verifier::external_body]
fn encode_u64(x: u64) -> (r: Vec<u8>)
    ensures
        r@ == u64_le_bytes(x),
{
    x.try_to_vec().unwrap_or_default()
}

/// Relies on borsh's `BorshDeserialize::try_from_slice` for `u64`: it reads
/// 8 bytes with `from_le_bytes` and fails on fewer, or on bytes left over.
#[verifier::external_body]
fn decode_u64(b: &[u8]) -> (r: Option<u64>)
    ensures
        b@.len() == 8 ==> r == Some(le_u64_value(b@) as u64),
        b@.len() != 8 ==> r is None,
{
    <u64 as BorshDeserialize>::try_from_slice(b).ok()
}

/// Writes `bytes` over the front of `data`, keeping the rest.
fn write_front(data: &mut Vec<u8>, bytes: &Vec<u8>)
    requires
        bytes@.len() <= old(data)@.len(),
    ensures
        final(data)@ == bytes@ + old(data)@.subrange(bytes@.len() as int, old(data)@.len() as int),
{
    let mut i: usize = 0;
    while i < bytes.len()
        invariant
            i <= bytes@.len(),
            bytes@.len() <= old(data)@.len(),
            data@.len() == old(data)@.len(),
            forall|k: int| 0 <= k < i ==> data@[k] == bytes@[k],
            forall|k: int| i <= k < data@.len() ==> data@[k] == old(data)@[k],
        decreases bytes@.len() - i,
    {
        data.set(i, bytes[i]);
        i = i + 1;
    }
    assert(data@ =~= bytes@ + old(data)@.subrange(bytes@.len() as int, old(data)@.len() as int));
}

/// Reading back what was written: the little-endian value of the bytes of
/// `x` is `x`.
pub proof fn lemma_u64_le_round_trip(x: u64)
    ensures
        le_u64_value(u64_le_bytes(x)) == x as int,
{
    let b = u64_le_bytes(x);
    assert(b[0] as int == x % 256);
    assert(b[7] as int == x / 72057594037927936);
}

impl FeePool {
    /// Encoded size: one u64.
    pub const LEN: usize = 8;

    /// The record's encoding.
    pub fn try_to_vec(&self) -> (r: Vec<u8>)
        ensures
            r@ == u64_le_bytes(self.collected_tokens),
    {
        encode_u64(self.collected_tokens)
    }

    /// Writes the record's encoding over the front of `data`; a buffer too
    /// short for it is refused and left as it was.
    pub fn serialize(&self, data: &mut Vec<u8>) -> (r: Result<(), TaxRewardError>)
        ensures
            old(data)@.len() < 8 ==> r == Err::<(), TaxRewardError>(TaxRewardError::AccountDataTooSmall)
                && final(data)@ == old(data)@,
            old(data)@.len() >= 8 ==> r is Ok && final(data)@ == u64_le_bytes(self.collected_tokens)
                + old(data)@.subrange(8, old(data)@.len() as int),
    {
        if data.len() < 8 {
            return Err(TaxRewardError::AccountDataTooSmall);
        }
        let bytes = encode_u64(self.collected_tokens);
        write_front(data, &bytes);
        Ok(())
    }

    /// Reads a record from exactly its encoding; any other length is refused.
    pub fn try_from_slice(data: &[u8]) -> (r: Result<FeePool, TaxRewardError>)
        ensures
            data@.len() == 8 ==> r == Ok::<FeePool, TaxRewardError>(
                FeePool { collected_tokens: le_u64_value(data@) as u64 },
            ),
            data@.len() != 8 ==> r == Err::<FeePool, TaxRewardError>(TaxRewardError::InvalidAccountData),
    {
        match decode_u64(data) {
            Some(v) => Ok(FeePool { collected_tokens: v }),
            None => Err(TaxRewardError::InvalidAccountData),
        }
    }
}

impl RewardPool {
    /// Encoded size: one u64.
    pub const LEN: usize = 8;

    /// The record's encoding.
    pub fn try_to_vec(&self) -> (r: Vec<u8>)
        ensures
            r@ == u64_le_bytes(self.sol_balance),
    {
        encode_u64(self.sol_balance)
    }

    /// Writes the record's encoding over the front of `data`; a buffer too
    /// short for it is refused and left as it was.
    pub fn serialize(&self, data: &mut Vec<u8>) -> (r: Result<(), TaxRewardError>)
        ensures
            old(data)@.len() < 8 ==> r == Err::<(), TaxRewardError>(TaxRewardError::AccountDataTooSmall)
                && final(data)@ == old(data)@,
            old(data)@.len() >= 8 ==> r is Ok && final(data)@ == u64_le_bytes(self.sol_balance)
                + old(data)@.subrange(8, old(data)@.len() as int),
    {
        if data.len() < 8 {
            return Err(TaxRewardError::AccountDataTooSmall);
        }
        let bytes = encode_u64(self.sol_balance);
        write_front(data, &bytes);
        Ok(())
    }

    /// Reads a record from exactly its encoding; any other length is refused.
    pub fn try_from_slice(data: &[u8]) -> (r: Result<RewardPool, TaxRewardError>)
        ensures
            data@.len() == 8 ==> r == Ok::<RewardPool, TaxRewardError>(
                RewardPool { sol_balance: le_u64_value(data@) as u64 },
            ),
            data@.len() != 8 ==> r == Err::<RewardPool, TaxRewardError>(TaxRewardError::InvalidAccountData),
    {
        match decode_u64(data) {
            Some(v) => Ok(RewardPool { sol_balance: v }),
            None => Err(TaxRewardError::InvalidAccountData),
        }
    }
}

/// Loading what was saved gives the record back, for both fee-pool records.
pub proof fn lemma_pool_round_trip(fee_pool: FeePool, reward_pool: RewardPool)
    ensures
        u64_le_bytes(fee_pool.collected_tokens).len() == 8,
        (FeePool { collected_tokens: le_u64_value(u64_le_bytes(fee_pool.collected_tokens)) as u64 }) == fee_pool,
        (RewardPool { sol_balance: le_u64_value(u64_le_bytes(reward_pool.sol_balance)) as u64 }) == reward_pool,
{
    lemma_u64_le_round_trip(fee_pool.collected_tokens);
    lemma_u64_le_round_trip(reward_pool.sol_balance);
}

} // verus!
