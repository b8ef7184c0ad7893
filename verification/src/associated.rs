//! The canonical associated account derivation. The derivation itself is a
//! hash-based address computation done by an outside crate; this module
//! names its result and trusts nothing more about it.

use vstd::prelude::*;
use crate::identity::AccountId;

verus! {

/// The canonical associated token account for an (owner, mint) pair: the
/// single deterministic address derived from the two identities. The
/// derivation is a fixed hash computation; its value is named here, never
/// restated.
pub uninterp spec fn ata_of(owner: Seq<u8>, mint: Seq<u8>) -> Seq<u8>;

/// Relies on `spl_associated_token_account_client::address::get_associated_token_address`:
/// the canonical associated token account for `(owner, mint)`, a pure
/// function of its two arguments (the program identities it folds in are
/// compile-time constants of that crate).
#[verifier::external_body]
pub(crate) fn derive_associated_address(owner: &AccountId, mint: &AccountId) -> (r: AccountId)
    ensures
        r@ == ata_of(owner@, mint@),
{
    let owner_key = solana_pubkey::Pubkey::new_from_array(owner.bytes);
    let mint_key = solana_pubkey::Pubkey::new_from_array(mint.bytes);
    let derived = spl_associated_token_account_client::address::get_associated_token_address(
        &owner_key,
        &mint_key,
    );
    AccountId { bytes: derived.to_bytes() }
}

} // verus!
