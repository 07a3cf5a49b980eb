//! Instructions of the fixed-rate trading path and their byte encoding: a
//! tag byte, followed for a trade by the amount as 8 little-endian bytes.
use vstd::prelude::*;
use crate::error::TaxRewardError;

verus! {

/// An instruction of the fixed-rate trading path.
#[derive(Debug, Clone, Copy, PartialEq, Eq, Structural)]
pub enum TaxRewardInstruction {
    /// Buy `amount` tokens, taxed.
    Buy { amount: u64 },
    /// Sell `amount` tokens, taxed.
    Sell { amount: u64 },
    /// Claim the holder's pending rewards.
    ClaimRewards,
}

/// The unsigned integer whose little-endian encoding is the first 8 bytes of `b`.
pub open spec fn le_u64_value(b: Seq<u8>) -> int {
    b[0] as int + 256 * (b[1] as int + 256 * (b[2] as int + 256 * (b[3] as int + 256 * (
    b[4] as int + 256 * (b[5] as int + 256 * (b[6] as int + 256 * b[7] as int))))))
}

/// The instruction that `input` encodes: tag 0 is a buy and tag 1 a sell,
/// each with at least 8 further bytes holding the amount (more are ignored);
/// tag 2 is a claim; anything else, or a short input, is invalid.
pub open spec fn unpack_result(input: Seq<u8>) -> Result<TaxRewardInstruction, TaxRewardError> {
    if input.len() == 0 {
        Err(TaxRewardError::InvalidInstruction)
    } else if input[0] == 0 || input[0] == 1 {
        if input.len() < 9 {
            Err(TaxRewardError::InvalidInstruction)
        } else if input[0] == 0 {
            Ok(TaxRewardInstruction::Buy { amount: le_u64_value(input.drop_first()) as u64 })
        } else {
            Ok(TaxRewardInstruction::Sell { amount: le_u64_value(input.drop_first()) as u64 })
        }
    } else if input[0] == 2 {
        Ok(TaxRewardInstruction::ClaimRewards)
    } else {
        Err(TaxRewardError::InvalidInstruction)
    }
}

impl TaxRewardInstruction {
    /// Decodes instruction bytes.
    pub fn unpack(input: &[u8]) -> (r: Result<TaxRewardInstruction, TaxRewardError>)
        ensures
            r == unpack_result(input@),
    {
        if input.len() == 0 {
            return Err(TaxRewardError::InvalidInstruction);
        }
        let tag = input[0];
        if tag == 0 || tag == 1 {
            let amount = Self::unpack_amount(input, 1)?;
            proof {
                assert(input@.drop_first() =~= input@.subrange(1, input@.len() as int));
            }
            if tag == 0 {
                Ok(TaxRewardInstruction::Buy { amount })
            } else {
                Ok(TaxRewardInstruction::Sell { amount })
            }
        } else if tag == 2 {
            Ok(TaxRewardInstruction::ClaimRewards)
        } else {
            Err(TaxRewardError::InvalidInstruction)
        }
    }

    /// Reads the little-endian amount in the 8 bytes of `input` from `start` on.
    fn unpack_amount(input: &[u8], start: usize) -> (r: Result<u64, TaxRewardError>)
        requires
            start <= input@.len(),
        ensures
            input@.len() < start + 8 ==> r == Err::<u64, TaxRewardError>(TaxRewardError::InvalidInstruction),
            input@.len() >= start + 8 ==> r == Ok::<u64, TaxRewardError>(
                le_u64_value(input@.subrange(start as int, input@.len() as int)) as u64,
            ),
    {
        if input.len() - start < 8 {
            return Err(TaxRewardError::InvalidInstruction);
        }
        let mut value: u64 = input[start + 7] as u64;
        value = value * 256 + input[start + 6] as u64;
        value = value * 256 + input[start + 5] as u64;
        value = value * 256 + input[start + 4] as u64;
        value = value * 256 + input[start + 3] as u64;
        value = value * 256 + input[start + 2] as u64;
        value = value * 256 + input[start + 1] as u64;
        value = value * 256 + input[start] as u64;
        Ok(value)
    }
}

} // verus!
