//! Account addresses.

use vstd::prelude::*;

verus! {

/// The 32-byte account address of `anchor_lang`, taken as an opaque value:
/// the rules never look inside a key, they only carry it and compare it.
#[verifier::external_type_specification]
#[verifier::external_body]
pub struct ExPubkey(anchor_lang::prelude::Pubkey);

/// Trusted: `Clone::clone` of `Pubkey`, which the type derives over its single
/// field, the 32 bytes. The contract claims that the copy is the same address.
pub assume_specification[ <anchor_lang::prelude::Pubkey as Clone>::clone ](
    key: &anchor_lang::prelude::Pubkey,
) -> (copy: anchor_lang::prelude::Pubkey)
    ensures
        copy == *key,
;

/// Whether two keys are the same address.
///
/// Trusted: calls `PartialEq::eq` of `Pubkey`, which the type derives over its
/// single field, the 32 bytes. The contract claims that this comparison holds
/// exactly of equal keys.
#[verifier::external_body]
pub(crate) fn same_key(
    a: &anchor_lang::prelude::Pubkey,
    b: &anchor_lang::prelude::Pubkey,
) -> (same: bool)
    ensures
        same == (*a == *b),
{
    a == b
}

} // verus!
