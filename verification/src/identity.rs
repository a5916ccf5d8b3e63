//! The submitter identity type, taken from the host chain's SDK.

use vstd::prelude::*;

verus! {

/// Relies on `anchor_lang::prelude::Pubkey` (`solana_address::Address`): a
/// 32-byte account address.  The registry only stores and compares such
/// values; it never looks inside one, so the type is declared opaque.
#[verifier::external_type_specification]
#[verifier::external_body]
pub struct ExPubkey(anchor_lang::prelude::Pubkey);

} // verus!
