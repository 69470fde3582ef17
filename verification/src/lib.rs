//! The rules of a set of small ledger contracts.
//!
//! At the centre stand the reputation registries: one non-transferable
//! credential per identity, with a bounded score that its holder may only
//! raise and the administrator may set freely. Around them: a credential
//! store with revocation, payment receipts, a collateral vault, and wallet
//! lookups.
//!
//! Each contract comes as rules on plain values, which decide an operation
//! from what the host has read, and as a type that owns its state and
//! applies the rules to it. The host authenticates callers, reads the
//! clock, keeps the storage and publishes notifications.

pub mod credentials;
pub mod events;
pub mod governance_laws;
pub mod governance_sbt;
pub mod identity;
pub mod paystamp;
pub mod record;
pub mod reputation_registry;
pub mod reputation_sbt;
pub mod reputation_sbt_laws;
pub mod runtime_conversions;
pub mod score;
pub mod stellar_wallet_info;
pub mod store;
pub mod vault;
pub mod wallet_info;
