//! Account identities, as the host chain's `Pubkey`.
use vstd::prelude::*;
use solana_program::pubkey::Pubkey;

verus! {

/// The host's 32-byte account address, carried through opaquely.
#[verifier::external_type_specification]
#[verifier::external_body]
pub struct ExPubkey(Pubkey);

/// Relies on the derived `PartialEq` of `Pubkey`, which compares its 32
/// bytes: two addresses are equal exactly when they are the same value.
pub assume_specification[ <Pubkey as core::cmp::PartialEq>::eq ](a: &Pubkey, b: &Pubkey) -> (r: bool)
    ensures
        r == (*a == *b),
;

} // verus!
