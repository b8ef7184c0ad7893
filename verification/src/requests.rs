//! Request account sets: the ephemeral accounts a caller presents for one
//! operation, as the validators read them — each account reduced to its
//! identity plus, where relevant, its declared mint, owner or authorities.

use vstd::prelude::*;
use crate::identity::AccountId;

verus! {

/// A token account as presented in a request: its identity, the mint it
/// declares to hold, and its owner.
#[derive(Clone, Copy, Debug)]
pub struct TokenAccountInfo {
    pub key: AccountId,
    pub mint: AccountId,
    pub owner: AccountId,
}

/// A mint account as presented in a request: its identity, its decimal
/// precision, and its (possibly absent) mint and freeze authorities.
#[derive(Clone, Copy, Debug)]
pub struct MintInfo {
    pub key: AccountId,
    pub decimals: u8,
    pub mint_authority: Option<AccountId>,
    pub freeze_authority: Option<AccountId>,
}

/// One proposed asset side at pool creation, before any slot is persisted.
#[derive(Clone, Copy, Debug)]
pub struct InitSwapToken {
    pub mint: MintInfo,
    pub reserve: TokenAccountInfo,
    pub fees: TokenAccountInfo,
}

/// One asset side of a swap request: the user's token account and the
/// reserve the request declares for that side.
#[derive(Clone, Copy, Debug)]
pub struct SwapToken {
    pub user: TokenAccountInfo,
    pub reserve: TokenAccountInfo,
}

/// One asset side of a deposit or withdrawal: as `SwapToken`, plus the
/// fee account the request declares.
#[derive(Clone, Copy, Debug)]
pub struct SwapTokenWithFees {
    pub user: TokenAccountInfo,
    pub reserve: TokenAccountInfo,
    pub fees: TokenAccountInfo,
}

/// The account set for pool creation: the new pool's identity, the
/// proposed pool-share mint, the destination of the first liquidity
/// shares, and both proposed asset sides.
#[derive(Clone, Copy, Debug)]
pub struct NewSwap {
    pub swap: AccountId,
    pub pool_mint: MintInfo,
    pub output_lp: TokenAccountInfo,
    pub token_0: InitSwapToken,
    pub token_1: InitSwapToken,
}

/// The account set for a swap: the input side and the output side. The
/// direction is inferred from which persisted reserve the input side's
/// declared reserve matches.
#[derive(Clone, Copy, Debug)]
pub struct Swap {
    pub input: SwapToken,
    pub output: SwapToken,
}

/// The account set for a deposit: both asset sides, the pool-share mint
/// the request declares, and the destination of the minted shares.
#[derive(Clone, Copy, Debug)]
pub struct Deposit {
    pub input_0: SwapTokenWithFees,
    pub input_1: SwapTokenWithFees,
    pub pool_mint: AccountId,
    pub output_lp: TokenAccountInfo,
}

/// The account set for a withdrawal: the pool-share mint the request
/// declares, the source of the burned shares, and both asset sides.
#[derive(Clone, Copy, Debug)]
pub struct Withdraw {
    pub pool_mint: AccountId,
    pub input_lp: TokenAccountInfo,
    pub output_0: SwapTokenWithFees,
    pub output_1: SwapTokenWithFees,
}

} // verus!
