//! Notifications that the registries hand to the host for publication.
//!
//! A relay outside the registry may observe them and mirror credentials on
//! another ledger. No registry depends on their delivery.

use vstd::prelude::*;
use crate::identity::Identity;

verus! {

/// A credential with a token number was created.
#[derive(Clone, Copy, Debug, PartialEq, Eq, Structural)]
pub struct Minted {
    /// The holder.
    pub to: Identity,
    /// The number of the new credential.
    pub token_id: u64,
    /// Its score.
    pub score: u32,
    /// The host time of its creation.
    pub timestamp: u64,
}

/// A reputation was stored.
#[derive(Clone, Copy, Debug, PartialEq, Eq, Structural)]
pub struct Stored {
    /// The holder.
    pub user: Identity,
    /// The score.
    pub score: u32,
    /// The host time at which it was stored.
    pub timestamp: u64,
}

/// A score was changed.
#[derive(Clone, Copy, Debug, PartialEq, Eq, Structural)]
pub struct ScoreUpdated {
    /// The holder.
    pub account: Identity,
    /// The score before the change.
    pub old_score: u32,
    /// The score after it.
    pub new_score: u32,
}

} // verus!
