//! Account identities.
//!
//! An identity is an `anchor_lang` public key. The library stores keys and compares them; it
//! never looks inside one.

use anchor_lang::prelude::Pubkey;
use vstd::prelude::*;

verus! {

/// Makes `Pubkey` known to the verifier as an opaque value.
#[verifier::external_type_specification]
#[verifier::external_body]
pub struct ExPubkey(Pubkey);

/// Cloning a key gives the same key.
///
/// Trusted: `Pubkey` derives `Clone` over its 32 bytes.
pub assume_specification[ <Pubkey as Clone>::clone ](key: &Pubkey) -> (copy: Pubkey)
    ensures
        copy == *key,
;

/// Compares two keys with `Pubkey`'s own `==`.
///
/// Trusted: a `Pubkey` is a 32-byte array with a derived `PartialEq`, so `==` holds exactly when
/// both keys are the same value.
#[verifier::external_body]
pub(crate) fn same_key(a: &Pubkey, b: &Pubkey) -> (same: bool)
    ensures
        same == (*a == *b),
{
    a == b
}

} // verus!
