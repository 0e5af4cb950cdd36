//! Authorization and state-transition core of a supply-capped token service.
//!
//! The library holds the business rules of the token program: gating mints
//! against a mutable supply ceiling, deducting a percentage fee on transfers,
//! owner-initiated burns, and administrator-only configuration changes.  The
//! surrounding ledger host supplies the records, verifies signatures, and
//! commits the mutations that these functions compute and validate.

pub mod burn;
pub mod config;
pub mod errors;
pub mod events;
pub mod identity;
pub mod laws;
pub mod ledger;
pub mod mint;
pub mod records;
pub mod state;
pub mod transfer;
