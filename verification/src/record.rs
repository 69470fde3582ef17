//! The credential record that the token registries keep for each holder.

use vstd::prelude::*;
use crate::identity::Identity;

verus! {

/// The reputation credential of one holder.
#[derive(Debug, PartialEq, Eq)]
pub struct ReputationData {
    /// Number of the credential, given at creation and never reused.
    pub token_id: u64,
    /// Reputation score, at most `MAX_SCORE`.
    pub score: u32,
    /// Free-form profile label, such as "Trader" or "Governor".
    pub profile: String,
    /// The holder's account on the other ledger, as the caller gave it. The
    /// registry stores it verbatim and does not verify it.
    pub stellar_address: String,
    /// Host time at which the credential was created.
    pub minted_at: u64,
}

/// What a `ReputationData` holds, as plain values.
pub struct ReputationDataView {
    pub token_id: u64,
    pub score: u32,
    pub profile: Seq<char>,
    pub stellar_address: Seq<char>,
    pub minted_at: u64,
}

impl View for ReputationData {
    type V = ReputationDataView;

    open spec fn view(&self) -> ReputationDataView {
        ReputationDataView {
            token_id: self.token_id,
            score: self.score,
            profile: self.profile@,
            stellar_address: self.stellar_address@,
            minted_at: self.minted_at,
        }
    }
}

impl Clone for ReputationData {
    fn clone(&self) -> (copy: Self)
        ensures
            copy@ == self@,
    {
        ReputationData {
            token_id: self.token_id,
            score: self.score,
            profile: self.profile.clone(),
            stellar_address: self.stellar_address.clone(),
            minted_at: self.minted_at,
        }
    }
}

impl ReputationDataView {
    /// The same record with another score.
    pub open spec fn with_score(self, score: u32) -> ReputationDataView {
        ReputationDataView { score, ..self }
    }
}

/// The records of `m`, each as plain values.
pub open spec fn record_views(m: Map<Identity, ReputationData>) -> Map<
    Identity,
    ReputationDataView,
> {
    Map::new(|id: Identity| m.contains_key(id), |id: Identity| m[id]@)
}

} // verus!
