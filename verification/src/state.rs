//! Persisted pool state: what the protocol stores between requests, and
//! the invariants that pool creation establishes once and for all.

use vstd::prelude::*;
use crate::identity::{AccountId, bytes_lt};

verus! {

/// Persisted configuration of one asset side of a pool: the underlying
/// asset mint, the reserve holding pooled funds, and the account where
/// protocol fees accrue.
#[derive(Clone, Copy, Debug)]
pub struct SwapTokenInfo {
    pub mint: AccountId,
    pub reserves: AccountId,
    pub admin_fees: AccountId,
}

/// Persisted state of one two-asset constant-product pool. Validators read
/// it and never write it.
#[derive(Clone, Copy, Debug)]
pub struct SwapInfo {
    /// The pool's own identity.
    pub key: AccountId,
    pub token_0: SwapTokenInfo,
    pub token_1: SwapTokenInfo,
    /// The mint of the pool-share token.
    pub pool_mint: AccountId,
    pub is_paused: bool,
}

/// Slot invariant: the reserve and the fee account are distinct, else
/// protocol fees would accrue to the liquidity providers.
pub open spec fn token_wf(t: SwapTokenInfo) -> bool {
    t.reserves@ != t.admin_fees@
}

/// Pool invariant: the two asset mints are distinct and in canonical
/// (strictly sorted) order, and both slots are well formed. Established at
/// creation; no later operation can change the fields it speaks of.
pub open spec fn swap_wf(s: SwapInfo) -> bool {
    &&& bytes_lt(s.token_0.mint@, s.token_1.mint@)
    &&& token_wf(s.token_0)
    &&& token_wf(s.token_1)
}

/// A logical role an account can fill for a pool.
#[derive(Clone, Copy, Debug, PartialEq, Eq, Structural)]
pub enum Role {
    Token0Mint,
    Token0Reserve,
    Token0Fees,
    Token1Mint,
    Token1Reserve,
    Token1Fees,
    PoolMint,
    PoolKey,
}

/// The single canonical identity that must fill `role` for pool `s`.
pub open spec fn spec_resolve(s: SwapInfo, role: Role) -> Seq<u8> {
    match role {
        Role::Token0Mint => s.token_0.mint@,
        Role::Token0Reserve => s.token_0.reserves@,
        Role::Token0Fees => s.token_0.admin_fees@,
        Role::Token1Mint => s.token_1.mint@,
        Role::Token1Reserve => s.token_1.reserves@,
        Role::Token1Fees => s.token_1.admin_fees@,
        Role::PoolMint => s.pool_mint@,
        Role::PoolKey => s.key@,
    }
}

/// Reference resolver: returns the single expected account identity for a
/// role. Pure, total, and read-only on the pool.
pub fn resolve(s: &SwapInfo, role: Role) -> (r: AccountId)
    ensures
        r@ == spec_resolve(*s, role),
{
    match role {
        Role::Token0Mint => s.token_0.mint,
        Role::Token0Reserve => s.token_0.reserves,
        Role::Token0Fees => s.token_0.admin_fees,
        Role::Token1Mint => s.token_1.mint,
        Role::Token1Reserve => s.token_1.reserves,
        Role::Token1Fees => s.token_1.admin_fees,
        Role::PoolMint => s.pool_mint,
        Role::PoolKey => s.key,
    }
}

} // verus!
