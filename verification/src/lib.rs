//! Vault lifecycle and compliance gating engine for fractional ownership of a
//! unique asset.
//!
//! An owner locks a unique asset in custody, splits its value into a fixed
//! number of fungible ownership units, sells those units to compliance-checked
//! buyers, and later lets a single holder of every unit redeem the original
//! asset. This crate owns the decision logic: the vault state machine
//! (fractionalize, sell, redeem), the overflow-safe fee arithmetic, the
//! platform configuration record, and the multi-state compliance machine that
//! authorizes or blocks transactions. The fungible ledger that actually moves
//! units, persistent storage, and caller authentication are external
//! collaborators: every operation here takes the values it needs as plain
//! arguments and returns the ledger effects the environment must apply
//! atomically.

pub mod authority;
pub mod compliance;
pub mod errors;
pub mod identity;
pub mod kyc;
pub mod kyc_enhanced;
pub mod math;
pub mod platform;
pub mod text;
pub mod vault;
