//! The validators: the pairwise key-equality primitives, one validator per
//! token-slot shape, one per protocol operation, and the dispatch over the
//! closed set of operations. Each executable validator's outcome equals a
//! spec function of its inputs alone.

use vstd::prelude::*;
use crate::identity::{AccountId, bytes_lt, key_eq, key_lt};
use crate::outcome::{Outcome, Violation, chain};
use crate::state::{SwapInfo, SwapTokenInfo};
use crate::requests::{
    Deposit, InitSwapToken, NewSwap, Swap, SwapToken, SwapTokenWithFees, Withdraw,
};
use crate::associated::{ata_of, derive_associated_address};

verus! {

/// What the pairwise key-equality check reports.
pub open spec fn spec_check_keys(expected: Seq<u8>, actual: Seq<u8>, on_mismatch: Violation) -> Outcome {
    if expected == actual {
        Outcome::Valid
    } else {
        Outcome::Invalid(on_mismatch)
    }
}

/// Pairwise key-equality checker: the sole primitive for identity
/// comparison. Fails with the caller's labeled signal when the supplied
/// identity is not the expected one.
pub fn check_keys(expected: &AccountId, actual: &AccountId, on_mismatch: Violation) -> (r: Outcome)
    ensures
        r == spec_check_keys(expected@, actual@, on_mismatch),
{
    if key_eq(expected, actual) {
        Outcome::Valid
    } else {
        Outcome::Invalid(on_mismatch)
    }
}

/// What the anti-self-dealing inequality check reports.
pub open spec fn spec_check_distinct(a: Seq<u8>, b: Seq<u8>, on_equal: Violation) -> Outcome {
    if a == b {
        Outcome::Invalid(on_equal)
    } else {
        Outcome::Valid
    }
}

/// Inequality assertion: fails with the caller's signal when the two
/// identities coincide.
pub fn check_distinct(a: &AccountId, b: &AccountId, on_equal: Violation) -> (r: Outcome)
    ensures
        r == spec_check_distinct(a@, b@, on_equal),
{
    if key_eq(a, b) {
        Outcome::Invalid(on_equal)
    } else {
        Outcome::Valid
    }
}

/// What checking one (possibly absent) authority against the pool reports:
/// absence is an explicit failure, never an unchecked assumption.
pub open spec fn spec_check_authority(auth: Option<AccountId>, swap: Seq<u8>) -> Outcome {
    match auth {
        Option::Some(a) => spec_check_keys(swap, a@, Violation::AuthorityMismatch),
        Option::None => Outcome::Invalid(Violation::MissingAuthority),
    }
}

/// Checks that an authority is present and is the pool itself.
pub fn check_authority(auth: &Option<AccountId>, swap: &AccountId) -> (r: Outcome)
    ensures
        r == spec_check_authority(*auth, swap@),
{
    match auth {
        Option::Some(a) => check_keys(swap, a, Violation::AuthorityMismatch),
        Option::None => Outcome::Invalid(Violation::MissingAuthority),
    }
}

/// Plain slot validation for one swap leg, in check order: declared
/// reserve is the slot's reserve; the user account holds the slot's mint;
/// the user account is not the reserve itself.
pub open spec fn spec_validate_swap_token(req: SwapToken, info: SwapTokenInfo) -> Outcome {
    chain(
        spec_check_keys(info.reserves@, req.reserve.key@, Violation::ReserveMismatch),
        chain(
            spec_check_keys(info.mint@, req.user.mint@, Violation::MintMismatch),
            spec_check_distinct(req.reserve.key@, req.user.key@, Violation::SelfDealing),
        ),
    )
}

/// Validates one plain swap leg against its persisted slot.
pub fn validate_swap_token(req: &SwapToken, info: &SwapTokenInfo) -> (r: Outcome)
    ensures
        r == spec_validate_swap_token(*req, *info),
{
    let c = check_keys(&info.reserves, &req.reserve.key, Violation::ReserveMismatch);
    if !c.is_valid() {
        return c;
    }
    let c = check_keys(&info.mint, &req.user.mint, Violation::MintMismatch);
    if !c.is_valid() {
        return c;
    }
    check_distinct(&req.reserve.key, &req.user.key, Violation::SelfDealing)
}

/// Fee-bearing slot validation for one deposit or withdrawal leg, in check
/// order: declared fee account, declared reserve, user account's mint,
/// then the two anti-self-dealing inequalities.
pub open spec fn spec_validate_swap_token_with_fees(req: SwapTokenWithFees, info: SwapTokenInfo) -> Outcome {
    chain(
        spec_check_keys(info.admin_fees@, req.fees.key@, Violation::FeeMismatch),
        chain(
            spec_check_keys(info.reserves@, req.reserve.key@, Violation::ReserveMismatch),
            chain(
                spec_check_keys(info.mint@, req.user.mint@, Violation::MintMismatch),
                chain(
                    spec_check_distinct(req.fees.key@, req.user.key@, Violation::SelfDealing),
                    spec_check_distinct(req.reserve.key@, req.user.key@, Violation::SelfDealing),
                ),
            ),
        ),
    )
}

/// Validates one fee-bearing leg against its persisted slot.
pub fn validate_swap_token_with_fees(req: &SwapTokenWithFees, info: &SwapTokenInfo) -> (r: Outcome)
    ensures
        r == spec_validate_swap_token_with_fees(*req, *info),
{
    let c = check_keys(&info.admin_fees, &req.fees.key, Violation::FeeMismatch);
    if !c.is_valid() {
        return c;
    }
    let c = check_keys(&info.reserves, &req.reserve.key, Violation::ReserveMismatch);
    if !c.is_valid() {
        return c;
    }
    let c = check_keys(&info.mint, &req.user.mint, Violation::MintMismatch);
    if !c.is_valid() {
        return c;
    }
    let c = check_distinct(&req.fees.key, &req.user.key, Violation::SelfDealing);
    if !c.is_valid() {
        return c;
    }
    check_distinct(&req.reserve.key, &req.user.key, Violation::SelfDealing)
}

/// Initialization validation for one proposed slot, in check order: the
/// fee account holds the proposed mint; the fee account is owned by the
/// pool; the reserve is the canonical associated account of (pool, mint);
/// the fee account and the reserve are distinct.
pub open spec fn spec_validate_init_swap_token(req: InitSwapToken, swap: Seq<u8>) -> Outcome {
    chain(
        spec_check_keys(req.mint.key@, req.fees.mint@, Violation::MintMismatch),
        chain(
            spec_check_keys(swap, req.fees.owner@, Violation::KeyMismatch),
            chain(
                spec_check_keys(ata_of(swap, req.mint.key@), req.reserve.key@, Violation::ReserveMismatch),
                spec_check_distinct(req.fees.key@, req.reserve.key@, Violation::FeeEqualsReserve),
            ),
        ),
    )
}

/// Validates one proposed slot at pool creation, against the not yet
/// persisted pool identity.
pub fn validate_init_swap_token(req: &InitSwapToken, swap: &AccountId) -> (r: Outcome)
    ensures
        r == spec_validate_init_swap_token(*req, swap@),
{
    let c = check_keys(&req.mint.key, &req.fees.mint, Violation::MintMismatch);
    if !c.is_valid() {
        return c;
    }
    let c = check_keys(swap, &req.fees.owner, Violation::KeyMismatch);
    if !c.is_valid() {
        return c;
    }
    let expected_reserve = derive_associated_address(swap, &req.mint.key);
    let c = check_keys(&expected_reserve, &req.reserve.key, Violation::ReserveMismatch);
    if !c.is_valid() {
        return c;
    }
    check_distinct(&req.fees.key, &req.reserve.key, Violation::FeeEqualsReserve)
}

/// The pool-share mint's precision must be the larger of the two asset
/// precisions.
pub open spec fn spec_max_decimals(a: u8, b: u8) -> u8 {
    if a >= b {
        a
    } else {
        b
    }
}

/// Pool-creation validation, in check order: pool-share precision; mint
/// and freeze authority both present and equal to the pool; the share
/// destination holds the pool-share mint; the asset mints distinct and in
/// canonical order; then both proposed slots.
pub open spec fn spec_validate_new_swap(req: NewSwap) -> Outcome {
    if req.pool_mint.decimals != spec_max_decimals(req.token_0.mint.decimals, req.token_1.mint.decimals) {
        Outcome::Invalid(Violation::DecimalsMismatch)
    } else {
        chain(
            spec_check_authority(req.pool_mint.mint_authority, req.swap@),
            chain(
                spec_check_authority(req.pool_mint.freeze_authority, req.swap@),
                chain(
                    spec_check_keys(req.pool_mint.key@, req.output_lp.mint@, Violation::MintMismatch),
                    if req.token_0.mint.key@ == req.token_1.mint.key@ {
                        Outcome::Invalid(Violation::TokensEqual)
                    } else if !bytes_lt(req.token_0.mint.key@, req.token_1.mint.key@) {
                        Outcome::Invalid(Violation::TokensNotSorted)
                    } else {
                        chain(
                            spec_validate_init_swap_token(req.token_0, req.swap@),
                            spec_validate_init_swap_token(req.token_1, req.swap@),
                        )
                    },
                ),
            ),
        )
    }
}

/// Validates a pool-creation request against the proposed pool identity it
/// carries. No pool is persisted yet; acceptance establishes the pool
/// invariant that every later operation assumes.
pub fn validate_new_swap(req: &NewSwap) -> (r: Outcome)
    ensures
        r == spec_validate_new_swap(*req),
{
    let d0 = req.token_0.mint.decimals;
    let d1 = req.token_1.mint.decimals;
    let max_decimals = if d0 >= d1 { d0 } else { d1 };
    if req.pool_mint.decimals != max_decimals {
        return Outcome::Invalid(Violation::DecimalsMismatch);
    }
    let c = check_authority(&req.pool_mint.mint_authority, &req.swap);
    if !c.is_valid() {
        return c;
    }
    let c = check_authority(&req.pool_mint.freeze_authority, &req.swap);
    if !c.is_valid() {
        return c;
    }
    let c = check_keys(&req.pool_mint.key, &req.output_lp.mint, Violation::MintMismatch);
    if !c.is_valid() {
        return c;
    }
    if key_eq(&req.token_0.mint.key, &req.token_1.mint.key) {
        return Outcome::Invalid(Violation::TokensEqual);
    }
    if !key_lt(&req.token_0.mint.key, &req.token_1.mint.key) {
        return Outcome::Invalid(Violation::TokensNotSorted);
    }
    let c = validate_init_swap_token(&req.token_0, &req.swap);
    if !c.is_valid() {
        return c;
    }
    validate_init_swap_token(&req.token_1, &req.swap)
}

/// Pool-metadata creation validates nothing: the metadata is informational
/// only.
pub fn validate_new_swap_meta() -> (r: Outcome)
    ensures
        r == Outcome::Valid,
{
    Outcome::Valid
}

/// The (input, output) slots a swap runs against: the slot whose persisted
/// reserve matches the declared input reserve is the input side; when
/// neither matches, token_1 is treated as input and the leg check fails
/// downstream.
pub open spec fn spec_swap_sides(pool: SwapInfo, declared_input_reserve: Seq<u8>) -> (SwapTokenInfo, SwapTokenInfo) {
    if declared_input_reserve == pool.token_0.reserves@ {
        (pool.token_0, pool.token_1)
    } else {
        (pool.token_1, pool.token_0)
    }
}

/// Swap validation: the pool is not paused, and each leg passes plain slot
/// validation against the side inferred from the declared input reserve.
pub open spec fn spec_validate_swap(pool: SwapInfo, req: Swap) -> Outcome {
    if pool.is_paused {
        Outcome::Invalid(Violation::PoolPaused)
    } else {
        let sides = spec_swap_sides(pool, req.input.reserve.key@);
        chain(
            spec_validate_swap_token(req.input, sides.0),
            spec_validate_swap_token(req.output, sides.1),
        )
    }
}

/// Validates a swap request against the persisted pool.
pub fn validate_swap(pool: &SwapInfo, req: &Swap) -> (r: Outcome)
    ensures
        r == spec_validate_swap(*pool, *req),
{
    if pool.is_paused {
        return Outcome::Invalid(Violation::PoolPaused);
    }
    let input_is_token_0 = key_eq(&req.input.reserve.key, &pool.token_0.reserves);
    let (input_side, output_side) = if input_is_token_0 {
        (&pool.token_0, &pool.token_1)
    } else {
        (&pool.token_1, &pool.token_0)
    };
    let c = validate_swap_token(&req.input, input_side);
    if !c.is_valid() {
        return c;
    }
    validate_swap_token(&req.output, output_side)
}

/// Deposit validation, in check order: the pool is not paused; both legs
/// pass fee-bearing slot validation; the declared pool-share mint and the
/// share destination's mint both equal the persisted pool-share mint; the
/// share destination is not owned by the pool itself.
pub open spec fn spec_validate_deposit(pool: SwapInfo, req: Deposit) -> Outcome {
    if pool.is_paused {
        Outcome::Invalid(Violation::PoolPaused)
    } else {
        chain(
            spec_validate_swap_token_with_fees(req.input_0, pool.token_0),
            chain(
                spec_validate_swap_token_with_fees(req.input_1, pool.token_1),
                chain(
                    spec_check_keys(pool.pool_mint@, req.pool_mint@, Violation::MintMismatch),
                    chain(
                        spec_check_keys(pool.pool_mint@, req.output_lp.mint@, Violation::MintMismatch),
                        spec_check_distinct(req.output_lp.owner@, pool.key@, Violation::SelfOwnership),
                    ),
                ),
            ),
        )
    }
}

/// Validates a deposit request against the persisted pool.
pub fn validate_deposit(pool: &SwapInfo, req: &Deposit) -> (r: Outcome)
    ensures
        r == spec_validate_deposit(*pool, *req),
{
    if pool.is_paused {
        return Outcome::Invalid(Violation::PoolPaused);
    }
    let c = validate_swap_token_with_fees(&req.input_0, &pool.token_0);
    if !c.is_valid() {
        return c;
    }
    let c = validate_swap_token_with_fees(&req.input_1, &pool.token_1);
    if !c.is_valid() {
        return c;
    }
    let c = check_keys(&pool.pool_mint, &req.pool_mint, Violation::MintMismatch);
    if !c.is_valid() {
        return c;
    }
    let c = check_keys(&pool.pool_mint, &req.output_lp.mint, Violation::MintMismatch);
    if !c.is_valid() {
        return c;
    }
    check_distinct(&req.output_lp.owner, &pool.key, Violation::SelfOwnership)
}

/// Withdrawal validation, in check order: the pool is not paused; the
/// declared pool-share mint equals the persisted one; the share source
/// holds that mint; both legs pass fee-bearing slot validation.
pub open spec fn spec_validate_withdraw(pool: SwapInfo, req: Withdraw) -> Outcome {
    if pool.is_paused {
        Outcome::Invalid(Violation::PoolPaused)
    } else {
        chain(
            spec_check_keys(pool.pool_mint@, req.pool_mint@, Violation::MintMismatch),
            chain(
                spec_check_keys(req.pool_mint@, req.input_lp.mint@, Violation::MintMismatch),
                chain(
                    spec_validate_swap_token_with_fees(req.output_0, pool.token_0),
                    spec_validate_swap_token_with_fees(req.output_1, pool.token_1),
                ),
            ),
        )
    }
}

/// Validates a withdrawal request against the persisted pool.
pub fn validate_withdraw(pool: &SwapInfo, req: &Withdraw) -> (r: Outcome)
    ensures
        r == spec_validate_withdraw(*pool, *req),
{
    if pool.is_paused {
        return Outcome::Invalid(Violation::PoolPaused);
    }
    let c = check_keys(&pool.pool_mint, &req.pool_mint, Violation::MintMismatch);
    if !c.is_valid() {
        return c;
    }
    let c = check_keys(&req.pool_mint, &req.input_lp.mint, Violation::MintMismatch);
    if !c.is_valid() {
        return c;
    }
    let c = validate_swap_token_with_fees(&req.output_0, &pool.token_0);
    if !c.is_valid() {
        return c;
    }
    validate_swap_token_with_fees(&req.output_1, &pool.token_1)
}

/// The closed set of protocol operations, each carrying its typed request
/// account set. Pool creation carries the proposed pool identity inside
/// its request; the other operations run against a persisted pool.
#[derive(Clone, Copy, Debug)]
pub enum Operation {
    CreatePool(NewSwap),
    CreatePoolMeta,
    Swap(Swap),
    Deposit(Deposit),
    Withdraw(Withdraw),
}

/// What dispatch reports for each operation.
pub open spec fn spec_validate_operation(pool: SwapInfo, op: Operation) -> Outcome {
    match op {
        Operation::CreatePool(req) => spec_validate_new_swap(req),
        Operation::CreatePoolMeta => Outcome::Valid,
        Operation::Swap(req) => spec_validate_swap(pool, req),
        Operation::Deposit(req) => spec_validate_deposit(pool, req),
        Operation::Withdraw(req) => spec_validate_withdraw(pool, req),
    }
}

/// Single entry point: validates one operation before its effects are
/// applied. Reads the pool, mutates nothing; pool creation ignores the
/// persisted pool and validates the proposed configuration in the request.
pub fn validate_operation(pool: &SwapInfo, op: &Operation) -> (r: Outcome)
    ensures
        r == spec_validate_operation(*pool, *op),
{
    match op {
        Operation::CreatePool(req) => validate_new_swap(req),
        Operation::CreatePoolMeta => validate_new_swap_meta(),
        Operation::Swap(req) => validate_swap(pool, req),
        Operation::Deposit(req) => validate_deposit(pool, req),
        Operation::Withdraw(req) => validate_withdraw(pool, req),
    }
}

} // verus!
