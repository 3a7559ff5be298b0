//! A capped, epoch-gated token-emission and collateral-staking ledger.
//!
//! The library tracks a global supply cap and cumulative emission, a
//! per-participant reward-claim gate, and per-participant staked collateral
//! held under a deterministically derived custodial authority. Every
//! transition is a guarded state change over plain values; the external
//! token ledger and storage layer act only at the boundary.

pub mod derivation;
pub mod errors;
pub mod identity;
pub mod laws;
pub mod records;
pub mod transitions;
