//! Validation outcomes: a request is either valid or rejected with the
//! first violated invariant. No partial validity.

use vstd::prelude::*;

verus! {

/// The invariant whose violation aborts a request.
#[derive(Clone, Copy, Debug, PartialEq, Eq, Structural)]
pub enum Violation {
    /// The pool is paused; no swap, deposit or withdrawal may run.
    PoolPaused,
    /// The pool-share mint's precision is not the maximum of the two asset precisions.
    DecimalsMismatch,
    /// A required mint or freeze authority is absent.
    MissingAuthority,
    /// A mint or freeze authority is not the pool itself.
    AuthorityMismatch,
    /// A declared mint differs from the one the role requires.
    MintMismatch,
    /// A declared reserve differs from the slot's canonical reserve.
    ReserveMismatch,
    /// A declared fee account differs from the slot's fee account.
    FeeMismatch,
    /// A user account stands in for a protocol-controlled account.
    SelfDealing,
    /// The liquidity-share destination is owned by the pool itself.
    SelfOwnership,
    /// The two asset mints of a new pool are the same.
    TokensEqual,
    /// The two asset mints of a new pool are not in canonical order.
    TokensNotSorted,
    /// A proposed fee account and reserve coincide at initialization.
    FeeEqualsReserve,
    /// A generic labeled key mismatch from the raw equality primitive.
    KeyMismatch,
}

impl Violation {
    /// A human-readable label for diagnosis.
    pub fn message(&self) -> &'static str {
        match self {
            Violation::PoolPaused => "pool is paused",
            Violation::DecimalsMismatch => "pool mint decimals must be the max of the two asset mints",
            Violation::MissingAuthority => "pool mint authority is missing",
            Violation::AuthorityMismatch => "pool mint authority must be the pool",
            Violation::MintMismatch => "mint does not match",
            Violation::ReserveMismatch => "reserve does not match",
            Violation::FeeMismatch => "fees do not match",
            Violation::SelfDealing => "user account cannot be a protocol account",
            Violation::SelfOwnership => "output should not be owned by the pool",
            Violation::TokensEqual => "swap tokens cannot be equal",
            Violation::TokensNotSorted => "swap tokens are not sorted",
            Violation::FeeEqualsReserve => "fees cannot equal reserve",
            Violation::KeyMismatch => "keys do not match",
        }
    }
}

/// The result of validating one request: proceed, or abort with the first
/// violated invariant.
#[derive(Clone, Copy, Debug, PartialEq, Eq, Structural)]
pub enum Outcome {
    Valid,
    Invalid(Violation),
}

impl Outcome {
    /// Whether the request may proceed.
    pub open spec fn spec_is_valid(self) -> bool {
        self is Valid
    }

    /// Whether the request may proceed.
    pub fn is_valid(&self) -> (r: bool)
        ensures
            r == self.spec_is_valid(),
    {
        match self {
            Outcome::Valid => true,
            Outcome::Invalid(_) => false,
        }
    }
}

/// Short-circuit sequencing: the first failure wins, later checks never
/// mask or override it.
pub open spec fn chain(a: Outcome, b: Outcome) -> Outcome {
    if a is Valid {
        b
    } else {
        a
    }
}

} // verus!
