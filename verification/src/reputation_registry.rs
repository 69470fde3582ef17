//! The reputation registry without token numbers.
//!
//! A user's reputation is stored once, marked as verified, and its score
//! may be changed afterwards under the same rule as in the token
//! registries: the holder may keep or raise it, the administrator may set
//! it freely.

use vstd::prelude::*;
use crate::events::{ScoreUpdated, Stored};
use crate::identity::Identity;
use crate::score::{change_permitted, is_valid_score, may_change, score_in_range};
use crate::store::IdentityMap;

verus! {

/// Why the registry refused an operation.
#[derive(Clone, Copy, Debug, PartialEq, Eq, Structural)]
pub enum RegistryError {
    /// The user has no stored reputation.
    NotFound,
    /// The score is above `MAX_SCORE`.
    InvalidScore,
    /// The user already has a stored reputation.
    AlreadyStored,
    /// The caller may not make this change.
    Unauthorized,
    /// The registry already has an administrator.
    AlreadyInitialized,
}

impl RegistryError {
    /// The number under which the host reports this error.
    pub open spec fn spec_code(self) -> u32 {
        match self {
            RegistryError::NotFound => 1,
            RegistryError::InvalidScore => 2,
            RegistryError::AlreadyStored => 3,
            RegistryError::Unauthorized => 4,
            RegistryError::AlreadyInitialized => 5,
        }
    }

    /// The number under which the host reports this error. Each error has
    /// its own.
    pub fn code(&self) -> (code: u32)
        ensures
            code == self.spec_code(),
    {
        match self {
            RegistryError::NotFound => 1,
            RegistryError::InvalidScore => 2,
            RegistryError::AlreadyStored => 3,
            RegistryError::Unauthorized => 4,
            RegistryError::AlreadyInitialized => 5,
        }
    }
}

/// Two errors with the same number are the same error.
pub proof fn law_codes_distinct(a: RegistryError, b: RegistryError)
    requires
        a.spec_code() == b.spec_code(),
    ensures
        a == b,
{
}

/// The stored reputation of one user.
#[derive(Debug, PartialEq, Eq)]
pub struct ReputationData {
    /// Reputation score, at most `MAX_SCORE`.
    pub score: u32,
    /// Free-form profile label.
    pub profile: String,
    /// The user's account on the other ledger, as the caller gave it. The
    /// registry stores it verbatim and does not verify it.
    pub polkadot_address: String,
    /// Host time at which the reputation was stored.
    pub timestamp: u64,
    /// Set when the reputation is stored.
    pub verified: bool,
}

/// What a `ReputationData` holds, as plain values.
pub struct StoredView {
    pub score: u32,
    pub profile: Seq<char>,
    pub polkadot_address: Seq<char>,
    pub timestamp: u64,
    pub verified: bool,
}

impl View for ReputationData {
    type V = StoredView;

    open spec fn view(&self) -> StoredView {
        StoredView {
            score: self.score,
            profile: self.profile@,
            polkadot_address: self.polkadot_address@,
            timestamp: self.timestamp,
            verified: self.verified,
        }
    }
}

impl Clone for ReputationData {
    fn clone(&self) -> (copy: Self)
        ensures
            copy@ == self@,
    {
        ReputationData {
            score: self.score,
            profile: self.profile.clone(),
            polkadot_address: self.polkadot_address.clone(),
            timestamp: self.timestamp,
            verified: self.verified,
        }
    }
}

impl StoredView {
    /// The same reputation with another score.
    pub open spec fn with_score(self, score: u32) -> StoredView {
        StoredView { score, ..self }
    }
}

/// The reputations of `m`, each as plain values.
pub open spec fn stored_views(m: Map<Identity, ReputationData>) -> Map<Identity, StoredView> {
    Map::new(|id: Identity| m.contains_key(id), |id: Identity| m[id]@)
}

/// What an initialisation comes to, given whether the registry has an
/// administrator already.
pub open spec fn initialize_rule(already_initialized: bool) -> Result<(), RegistryError> {
    if already_initialized {
        Err(RegistryError::AlreadyInitialized)
    } else {
        Ok(())
    }
}

/// What storing a reputation comes to, given whether the user has one
/// already: success, or the first of these that applies: `InvalidScore`,
/// where the score is out of range; `AlreadyStored`, where there is one.
pub open spec fn store_rule(already_stored: bool, score: u32) -> Result<(), RegistryError> {
    if !score_in_range(score) {
        Err(RegistryError::InvalidScore)
    } else if already_stored {
        Err(RegistryError::AlreadyStored)
    } else {
        Ok(())
    }
}

/// What a score update comes to, given whether the caller is the
/// administrator, whether the caller is the user, and the user's current
/// score, if one is stored: that score, which the update replaces, or the
/// first of these that applies: `InvalidScore`, where the new score is out
/// of range; `NotFound`, where nothing is stored; `Unauthorized`, where
/// the caller is neither the administrator nor the user, or is the user
/// and asks for less.
pub open spec fn update_rule(
    by_admin: bool,
    by_owner: bool,
    current: Option<u32>,
    new_score: u32,
) -> Result<u32, RegistryError> {
    if !score_in_range(new_score) {
        Err(RegistryError::InvalidScore)
    } else {
        match current {
            None => Err(RegistryError::NotFound),
            Some(score) => if (by_admin || by_owner) && change_permitted(by_admin, score, new_score) {
                Ok(score)
            } else {
                Err(RegistryError::Unauthorized)
            },
        }
    }
}

/// Decides an initialisation.
pub fn check_initialize(already_initialized: bool) -> (result: Result<(), RegistryError>)
    ensures
        result == initialize_rule(already_initialized),
{
    if already_initialized {
        Err(RegistryError::AlreadyInitialized)
    } else {
        Ok(())
    }
}

/// Decides whether a reputation may be stored.
pub fn check_store(already_stored: bool, score: u32) -> (result: Result<(), RegistryError>)
    ensures
        result == store_rule(already_stored, score),
{
    if !is_valid_score(score) {
        return Err(RegistryError::InvalidScore);
    }
    if already_stored {
        return Err(RegistryError::AlreadyStored);
    }
    Ok(())
}

/// Decides a score update.
pub fn check_update(by_admin: bool, by_owner: bool, current: Option<u32>, new_score: u32) -> (result:
    Result<u32, RegistryError>)
    ensures
        result == update_rule(by_admin, by_owner, current, new_score),
{
    if !is_valid_score(new_score) {
        return Err(RegistryError::InvalidScore);
    }
    match current {
        None => Err(RegistryError::NotFound),
        Some(score) => if (by_admin || by_owner) && may_change(by_admin, score, new_score) {
            Ok(score)
        } else {
            Err(RegistryError::Unauthorized)
        },
    }
}

/// The state of the registry, as plain values.
pub struct RegistryState {
    /// The reputation of each user that has one.
    pub records: Map<Identity, StoredView>,
    /// The administrator, once the registry is initialised.
    pub admin: Option<Identity>,
}

impl RegistryState {
    /// The state of a registry that was just deployed.
    pub open spec fn deployed() -> RegistryState {
        RegistryState { records: Map::empty(), admin: None }
    }

    /// The invariants of the registry: every stored score is in range, and
    /// every stored reputation is marked as verified.
    pub open spec fn wf(self) -> bool {
        forall|id: Identity| #[trigger]
            self.records.contains_key(id) ==> {
                &&& score_in_range(self.records[id].score)
                &&& self.records[id].verified
            }
    }

    /// What `initialize` returns.
    pub open spec fn initialize_result(self) -> Result<(), RegistryError> {
        initialize_rule(self.admin is Some)
    }

    /// The state after `initialize`: with the administrator where it
    /// succeeds, unchanged where it refuses.
    pub open spec fn initialize(self, admin: Identity) -> RegistryState {
        match self.initialize_result() {
            Ok(_) => RegistryState { admin: Some(admin), ..self },
            Err(_) => self,
        }
    }

    /// What `store_reputation` returns: the notification, or why it
    /// refused.
    pub open spec fn store_result(self, user: Identity, score: u32, now: u64) -> Result<
        Stored,
        RegistryError,
    > {
        match store_rule(self.records.contains_key(user), score) {
            Ok(_) => Ok(Stored { user, score, timestamp: now }),
            Err(e) => Err(e),
        }
    }

    /// The state after `store_reputation`: with the reputation, marked as
    /// verified, where it succeeds, unchanged where it refuses.
    pub open spec fn store(
        self,
        user: Identity,
        score: u32,
        profile: Seq<char>,
        polkadot_address: Seq<char>,
        now: u64,
    ) -> RegistryState {
        match self.store_result(user, score, now) {
            Ok(_) => RegistryState {
                records: self.records.insert(
                    user,
                    StoredView { score, profile, polkadot_address, timestamp: now, verified: true },
                ),
                ..self
            },
            Err(_) => self,
        }
    }

    /// The score of `user`, if one is stored.
    pub open spec fn score_of(self, user: Identity) -> Option<u32> {
        if self.records.contains_key(user) {
            Some(self.records[user].score)
        } else {
            None
        }
    }

    /// What `update_score` returns: the notification of the change, or why
    /// it refused.
    pub open spec fn update_score_result(
        self,
        caller: Identity,
        user: Identity,
        new_score: u32,
    ) -> Result<ScoreUpdated, RegistryError> {
        match update_rule(self.admin == Some(caller), caller == user, self.score_of(user), new_score) {
            Ok(old_score) => Ok(ScoreUpdated { account: user, old_score, new_score }),
            Err(e) => Err(e),
        }
    }

    /// The state after `update_score`: only the score of `user` changes,
    /// and only where it succeeds.
    pub open spec fn update_score(
        self,
        caller: Identity,
        user: Identity,
        new_score: u32,
    ) -> RegistryState {
        match self.update_score_result(caller, user, new_score) {
            Ok(_) => RegistryState {
                records: self.records.insert(user, self.records[user].with_score(new_score)),
                ..self
            },
            Err(_) => self,
        }
    }
}

/// The reputation registry.
pub struct ReputationRegistry {
    admin: Option<Identity>,
    records: IdentityMap<ReputationData>,
}

impl View for ReputationRegistry {
    type V = RegistryState;

    closed spec fn view(&self) -> RegistryState {
        RegistryState { records: stored_views(self.records@), admin: self.admin }
    }
}

impl ReputationRegistry {
    /// The registry is consistent: its state is well formed.
    pub closed spec fn inv(&self) -> bool {
        &&& self.records.inv()
        &&& self@.wf()
    }

    /// A consistent registry has a well-formed state.
    pub proof fn lemma_inv_wf(&self)
        requires
            self.inv(),
        ensures
            self@.wf(),
    {
    }

    /// Deploys the registry: no administrator, no reputation.
    pub fn new() -> (registry: Self)
        ensures
            registry.inv(),
            registry@.wf(),
            registry@ == RegistryState::deployed(),
    {
        let registry = ReputationRegistry { admin: None, records: IdentityMap::new() };
        assert(registry@.records =~= Map::<Identity, StoredView>::empty());
        registry
    }

    /// Makes `admin` the administrator. It succeeds once; later calls fail
    /// with `AlreadyInitialized` and change nothing.
    pub fn initialize(&mut self, admin: Identity) -> (result: Result<(), RegistryError>)
        requires
            old(self).inv(),
        ensures
            final(self).inv(),
            final(self)@.wf(),
            result == old(self)@.initialize_result(),
            final(self)@ == old(self)@.initialize(admin),
    {
        check_initialize(self.admin.is_some())?;
        self.admin = Some(admin);
        Ok(())
    }

    /// Stores the reputation of `user`, who must have none yet, and marks
    /// it as verified. `now` is the host's time.
    pub fn store_reputation(
        &mut self,
        user: Identity,
        score: u32,
        profile: String,
        polkadot_address: String,
        now: u64,
    ) -> (result: Result<Stored, RegistryError>)
        requires
            old(self).inv(),
        ensures
            final(self).inv(),
            final(self)@.wf(),
            result == old(self)@.store_result(user, score, now),
            final(self)@ == old(self)@.store(user, score, profile@, polkadot_address@, now),
    {
        let already_stored = self.records.contains(&user);
        check_store(already_stored, score)?;
        let reputation = ReputationData {
            score,
            profile,
            polkadot_address,
            timestamp: now,
            verified: true,
        };
        self.records.insert(user, reputation);
        assert(self@.records =~= old(self)@.records.insert(user, reputation@));
        Ok(Stored { user, score, timestamp: now })
    }

    /// The stored reputation of `user`, if there is one.
    pub fn get_reputation(&self, user: Identity) -> (found: Option<ReputationData>)
        requires
            self.inv(),
        ensures
            match found {
                Some(data) => self@.records.contains_key(user) && data@ == self@.records[user],
                None => !self@.records.contains_key(user),
            },
    {
        match self.records.get(&user) {
            Some(data) => Some(data.clone()),
            None => None,
        }
    }

    /// Sets the score of `user` to `new_score`, on behalf of `caller`.
    pub fn update_score(&mut self, caller: Identity, user: Identity, new_score: u32) -> (result:
        Result<ScoreUpdated, RegistryError>)
        requires
            old(self).inv(),
        ensures
            final(self).inv(),
            final(self)@.wf(),
            result == old(self)@.update_score_result(caller, user, new_score),
            final(self)@ == old(self)@.update_score(caller, user, new_score),
    {
        let current = match self.records.get(&user) {
            Some(found) => Some(found.score),
            None => None,
        };
        let by_admin = match self.admin {
            Some(admin) => admin == caller,
            None => false,
        };
        let old_score = check_update(by_admin, caller == user, current, new_score)?;
        let mut reputation = self.records.remove(&user).unwrap();
        reputation.score = new_score;
        self.records.insert(user, reputation);
        assert(self@.records =~= old(self)@.records.insert(
            user,
            old(self)@.records[user].with_score(new_score),
        ));
        Ok(ScoreUpdated { account: user, old_score, new_score })
    }

    /// Whether `user` has a stored, verified reputation. Every stored
    /// reputation is verified, so this is whether `user` has one.
    pub fn verify_credential(&self, user: Identity) -> (verified: bool)
        requires
            self.inv(),
        ensures
            verified == self@.records.contains_key(user),
            verified == (self@.records.contains_key(user) && self@.records[user].verified),
    {
        match self.records.get(&user) {
            Some(data) => data.verified,
            None => false,
        }
    }
}

} // verus!
