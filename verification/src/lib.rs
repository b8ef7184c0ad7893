//! Account validation core of a two-asset constant-product market maker.
//!
//! Before any state-changing operation (pool creation, swap, deposit,
//! withdrawal) runs, every account the caller supplies must be the single
//! correct account for its role. These modules hold the persisted pool
//! model, the per-request account sets, and one pure validator per
//! operation, each with a contract that pins its outcome exactly.

pub mod identity;
pub mod outcome;
pub mod state;
pub mod requests;
pub mod associated;
pub mod validate;
pub mod laws;
