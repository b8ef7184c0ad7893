//! The laws the validators obey: the invariants pool creation establishes,
//! the swap-direction inference, determinism, and the rejection of
//! self-dealing. Each is proved from the validators' own spec functions.

use vstd::prelude::*;
use crate::identity::bytes_lt;
use crate::outcome::{Outcome, Violation};
use crate::state::{SwapInfo, SwapTokenInfo, swap_wf, token_wf};
use crate::requests::{InitSwapToken, NewSwap, Swap, SwapToken, SwapTokenWithFees};
use crate::validate::{
    spec_swap_sides, spec_validate_init_swap_token, spec_validate_new_swap,
    spec_validate_operation, spec_validate_swap, spec_validate_swap_token,
    spec_validate_swap_token_with_fees, Operation,
};

verus! {

/// The pool state that an accepted creation request persists: each slot
/// takes the proposed mint, reserve and fee identities; the pool starts
/// unpaused.
pub open spec fn pool_of(req: NewSwap) -> SwapInfo {
    SwapInfo {
        key: req.swap,
        token_0: SwapTokenInfo {
            mint: req.token_0.mint.key,
            reserves: req.token_0.reserve.key,
            admin_fees: req.token_0.fees.key,
        },
        token_1: SwapTokenInfo {
            mint: req.token_1.mint.key,
            reserves: req.token_1.reserve.key,
            admin_fees: req.token_1.fees.key,
        },
        pool_mint: req.pool_mint.key,
        is_paused: false,
    }
}

/// Law: a proposed slot accepted by initialization validation has its fee
/// account distinct from its reserve. The slot never changes after
/// initialization, so the invariant is never re-checked and never lost.
pub proof fn lemma_init_establishes_slot_invariant(req: InitSwapToken, swap: Seq<u8>)
    requires
        spec_validate_init_swap_token(req, swap) is Valid,
    ensures
        req.fees.key@ != req.reserve.key@,
{
}

/// Law: a pool accepted at creation satisfies the permanent pool
/// invariant — asset mints distinct and in canonical order, and each
/// slot's reserve distinct from its fee account. Every validator takes the
/// pool by shared reference and returns only an outcome, so no later
/// operation can violate what creation established.
pub proof fn lemma_create_establishes_pool_invariant(req: NewSwap)
    requires
        spec_validate_new_swap(req) is Valid,
    ensures
        swap_wf(pool_of(req)),
        bytes_lt(pool_of(req).token_0.mint@, pool_of(req).token_1.mint@),
        token_wf(pool_of(req).token_0),
        token_wf(pool_of(req).token_1),
{
    lemma_init_establishes_slot_invariant(req.token_0, req.swap@);
    lemma_init_establishes_slot_invariant(req.token_1, req.swap@);
}

/// Law: swap direction is inferred, not declared. A declared input reserve
/// equal to token_0's persisted reserve selects (token_0 in, token_1 out);
/// any other value selects (token_1 in, token_0 out); and one that matches
/// neither persisted reserve can never validate — on an unpaused pool it
/// fails precisely with a reserve mismatch.
pub proof fn lemma_swap_direction(pool: SwapInfo, req: Swap)
    ensures
        req.input.reserve.key@ == pool.token_0.reserves@ ==> spec_swap_sides(
            pool,
            req.input.reserve.key@,
        ) == (pool.token_0, pool.token_1),
        req.input.reserve.key@ != pool.token_0.reserves@ ==> spec_swap_sides(
            pool,
            req.input.reserve.key@,
        ) == (pool.token_1, pool.token_0),
        req.input.reserve.key@ != pool.token_0.reserves@ && req.input.reserve.key@
            != pool.token_1.reserves@ && !pool.is_paused ==> spec_validate_swap(pool, req)
            == Outcome::Invalid(Violation::ReserveMismatch),
        req.input.reserve.key@ != pool.token_0.reserves@ && req.input.reserve.key@
            != pool.token_1.reserves@ ==> !(spec_validate_swap(pool, req) is Valid),
{
}

/// Law: validation is deterministic, hence idempotent — any two outcomes
/// that the dispatch contract admits for the same pool and operation are
/// equal, so re-running a validator with no intervening mutation cannot
/// change its verdict.
pub proof fn lemma_validation_idempotent(
    pool: SwapInfo,
    op: Operation,
    first: Outcome,
    second: Outcome,
)
    requires
        first == spec_validate_operation(pool, op),
        second == spec_validate_operation(pool, op),
    ensures
        first == second,
{
}

/// Law: a plain swap leg whose user account stands in for the declared or
/// the persisted reserve never validates; and when every key check passes,
/// the failure is reported as self-dealing.
pub proof fn lemma_no_self_dealing_plain(req: SwapToken, info: SwapTokenInfo)
    requires
        req.user.key@ == req.reserve.key@ || req.user.key@ == info.reserves@,
    ensures
        !(spec_validate_swap_token(req, info) is Valid),
        req.reserve.key@ == info.reserves@ && req.user.mint@ == info.mint@ && req.user.key@
            == req.reserve.key@ ==> spec_validate_swap_token(req, info) == Outcome::Invalid(
            Violation::SelfDealing,
        ),
{
}

/// Law: a fee-bearing leg whose user account stands in for the declared or
/// the persisted reserve or fee account never validates; and when every
/// key check passes, the failure is reported as self-dealing.
pub proof fn lemma_no_self_dealing_with_fees(req: SwapTokenWithFees, info: SwapTokenInfo)
    requires
        req.user.key@ == req.reserve.key@ || req.user.key@ == req.fees.key@ || req.user.key@
            == info.reserves@ || req.user.key@ == info.admin_fees@,
    ensures
        !(spec_validate_swap_token_with_fees(req, info) is Valid),
        req.fees.key@ == info.admin_fees@ && req.reserve.key@ == info.reserves@ && req.user.mint@
            == info.mint@ && (req.user.key@ == req.fees.key@ || req.user.key@ == req.reserve.key@)
            ==> spec_validate_swap_token_with_fees(req, info) == Outcome::Invalid(
            Violation::SelfDealing,
        ),
{
}

} // verus!
