//! The reputation token registry with an explicit initialisation step.
//!
//! The registry is deployed without an administrator and is given one by
//! `initialize`, once. Creating a credential and changing a score each
//! yield a notification, which the host publishes for the relay that
//! mirrors credentials on another ledger; the registry itself does not
//! depend on its delivery.

use vstd::prelude::*;
use crate::events::{Minted, ScoreUpdated};
use crate::identity::Identity;
use crate::record::{record_views, ReputationData, ReputationDataView};
use crate::score::{change_permitted, is_valid_score, may_change, score_in_range};
use crate::store::IdentityMap;

verus! {

/// Why the registry refused an operation.
#[derive(Clone, Copy, Debug, PartialEq, Eq, Structural)]
pub enum SbtError {
    /// The identity holds no credential.
    NotFound,
    /// The identity already holds a credential.
    AlreadyMinted,
    /// The score is above `MAX_SCORE`.
    InvalidScore,
    /// No further token number is left.
    CounterOverflow,
    /// The caller may not make this change.
    Unauthorized,
    /// The registry already has an administrator.
    AlreadyInitialized,
}

impl SbtError {
    /// The number under which the host reports this error.
    pub open spec fn spec_code(self) -> u32 {
        match self {
            SbtError::NotFound => 1,
            SbtError::AlreadyMinted => 2,
            SbtError::InvalidScore => 3,
            SbtError::CounterOverflow => 4,
            SbtError::Unauthorized => 5,
            SbtError::AlreadyInitialized => 6,
        }
    }

    /// The number under which the host reports this error. Each error has
    /// its own.
    pub fn code(&self) -> (code: u32)
        ensures
            code == self.spec_code(),
    {
        match self {
            SbtError::NotFound => 1,
            SbtError::AlreadyMinted => 2,
            SbtError::InvalidScore => 3,
            SbtError::CounterOverflow => 4,
            SbtError::Unauthorized => 5,
            SbtError::AlreadyInitialized => 6,
        }
    }
}

/// Two errors with the same number are the same error.
pub proof fn law_codes_distinct(a: SbtError, b: SbtError)
    requires
        a.spec_code() == b.spec_code(),
    ensures
        a == b,
{
}

/// What an initialisation comes to, given whether the registry has an
/// administrator already.
pub open spec fn initialize_rule(already_initialized: bool) -> Result<(), SbtError> {
    if already_initialized {
        Err(SbtError::AlreadyInitialized)
    } else {
        Ok(())
    }
}

/// What a mint comes to, given whether the holder-to-be already holds a
/// credential and how many credentials were created so far: the next token
/// number, or the first of these that applies: `InvalidScore`, where the
/// score is out of range; `AlreadyMinted`, where there is a credential;
/// `CounterOverflow`, where no number is left.
pub open spec fn mint_rule(already_minted: bool, supply: u64, score: u32) -> Result<u64, SbtError> {
    if !score_in_range(score) {
        Err(SbtError::InvalidScore)
    } else if already_minted {
        Err(SbtError::AlreadyMinted)
    } else if supply == u64::MAX {
        Err(SbtError::CounterOverflow)
    } else {
        Ok((supply + 1) as u64)
    }
}

/// What a score update comes to, given whether the caller is the
/// administrator, whether the caller is the holder, and the holder's
/// current score, if there is a credential: that score, which the update
/// replaces, or the first of these that applies: `InvalidScore`, where the
/// new score is out of range; `NotFound`, where there is no credential;
/// `Unauthorized`, where the caller is neither the administrator nor the
/// holder, or is the holder and asks for less.
pub open spec fn update_rule(
    by_admin: bool,
    by_owner: bool,
    current: Option<u32>,
    new_score: u32,
) -> Result<u32, SbtError> {
    if !score_in_range(new_score) {
        Err(SbtError::InvalidScore)
    } else {
        match current {
            None => Err(SbtError::NotFound),
            Some(score) => if (by_admin || by_owner) && change_permitted(by_admin, score, new_score) {
                Ok(score)
            } else {
                Err(SbtError::Unauthorized)
            },
        }
    }
}

/// Decides an initialisation.
pub fn check_initialize(already_initialized: bool) -> (result: Result<(), SbtError>)
    ensures
        result == initialize_rule(already_initialized),
{
    if already_initialized {
        Err(SbtError::AlreadyInitialized)
    } else {
        Ok(())
    }
}

/// Decides a mint.
pub fn check_mint(already_minted: bool, supply: u64, score: u32) -> (result: Result<u64, SbtError>)
    ensures
        result == mint_rule(already_minted, supply, score),
{
    if !is_valid_score(score) {
        return Err(SbtError::InvalidScore);
    }
    if already_minted {
        return Err(SbtError::AlreadyMinted);
    }
    match supply.checked_add(1) {
        Some(next) => Ok(next),
        None => Err(SbtError::CounterOverflow),
    }
}

/// Decides a score update.
pub fn check_update(by_admin: bool, by_owner: bool, current: Option<u32>, new_score: u32) -> (result:
    Result<u32, SbtError>)
    ensures
        result == update_rule(by_admin, by_owner, current, new_score),
{
    if !is_valid_score(new_score) {
        return Err(SbtError::InvalidScore);
    }
    match current {
        None => Err(SbtError::NotFound),
        Some(score) => if (by_admin || by_owner) && may_change(by_admin, score, new_score) {
            Ok(score)
        } else {
            Err(SbtError::Unauthorized)
        },
    }
}

/// The state of the registry, as plain values.
pub struct TokenState {
    /// The credential of each holder.
    pub records: Map<Identity, ReputationDataView>,
    /// How many credentials were ever created.
    pub supply: u64,
    /// The administrator, once the registry is initialised.
    pub admin: Option<Identity>,
}

impl TokenState {
    /// The state of a registry that was just deployed.
    pub open spec fn deployed() -> TokenState {
        TokenState { records: Map::empty(), supply: 0, admin: None }
    }

    /// The invariants of the registry: every score is in range, the holders
    /// are as many as the credentials created, and the token numbers are
    /// distinct and run from 1 to that count.
    pub open spec fn wf(self) -> bool {
        &&& self.records.dom().finite()
        &&& self.records.dom().len() == self.supply
        &&& forall|id: Identity| #[trigger]
            self.records.contains_key(id) ==> {
                &&& score_in_range(self.records[id].score)
                &&& 1 <= self.records[id].token_id <= self.supply
            }
        &&& forall|a: Identity, b: Identity|
            #![trigger self.records[a], self.records[b]]
            self.records.contains_key(a) && self.records.contains_key(b) && a != b
                ==> self.records[a].token_id != self.records[b].token_id
    }

    /// What `initialize` returns.
    pub open spec fn initialize_result(self) -> Result<(), SbtError> {
        initialize_rule(self.admin is Some)
    }

    /// The state after `initialize`: with the administrator where it
    /// succeeds, unchanged where it refuses.
    pub open spec fn initialize(self, admin: Identity) -> TokenState {
        match self.initialize_result() {
            Ok(_) => TokenState { admin: Some(admin), ..self },
            Err(_) => self,
        }
    }

    /// What `mint_sbt` returns: the notification of the new credential, or
    /// why it refused.
    pub open spec fn mint_result(self, to: Identity, score: u32, now: u64) -> Result<
        Minted,
        SbtError,
    > {
        match mint_rule(self.records.contains_key(to), self.supply, score) {
            Ok(token_id) => Ok(Minted { to, token_id, score, timestamp: now }),
            Err(e) => Err(e),
        }
    }

    /// The state after `mint_sbt`: with the new credential where it
    /// succeeds, unchanged where it refuses.
    pub open spec fn mint(
        self,
        to: Identity,
        score: u32,
        profile: Seq<char>,
        stellar_address: Seq<char>,
        now: u64,
    ) -> TokenState {
        match self.mint_result(to, score, now) {
            Ok(minted) => TokenState {
                records: self.records.insert(
                    to,
                    ReputationDataView {
                        token_id: minted.token_id,
                        score,
                        profile,
                        stellar_address,
                        minted_at: now,
                    },
                ),
                supply: minted.token_id,
                admin: self.admin,
            },
            Err(_) => self,
        }
    }

    /// Whether `caller` is the administrator.
    pub open spec fn is_admin(self, caller: Identity) -> bool {
        self.admin == Some(caller)
    }

    /// What `get_reputation` returns: the credential of `account`, if it
    /// holds one.
    pub open spec fn reputation_of(self, account: Identity) -> Option<ReputationDataView> {
        if self.records.contains_key(account) {
            Some(self.records[account])
        } else {
            None
        }
    }

    /// What `verify_ownership` returns: whether `account` holds a
    /// credential.
    pub open spec fn owns(self, account: Identity) -> bool {
        self.records.contains_key(account)
    }

    /// The score of `account`, if it holds a credential.
    pub open spec fn score_of(self, account: Identity) -> Option<u32> {
        if self.records.contains_key(account) {
            Some(self.records[account].score)
        } else {
            None
        }
    }

    /// What `update_score` returns: the notification of the change, or why
    /// it refused.
    pub open spec fn update_score_result(
        self,
        caller: Identity,
        account: Identity,
        new_score: u32,
    ) -> Result<ScoreUpdated, SbtError> {
        match update_rule(
            self.is_admin(caller),
            caller == account,
            self.score_of(account),
            new_score,
        ) {
            Ok(old_score) => Ok(ScoreUpdated { account, old_score, new_score }),
            Err(e) => Err(e),
        }
    }

    /// The state after `update_score`: with the new score where it
    /// succeeds, unchanged where it refuses.
    pub open spec fn update_score(
        self,
        caller: Identity,
        account: Identity,
        new_score: u32,
    ) -> TokenState {
        match self.update_score_result(caller, account, new_score) {
            Ok(_) => TokenState {
                records: self.records.insert(
                    account,
                    self.records[account].with_score(new_score),
                ),
                ..self
            },
            Err(_) => self,
        }
    }
}

/// The reputation token registry.
pub struct ReputationSBT {
    admin: Option<Identity>,
    supply: u64,
    records: IdentityMap<ReputationData>,
}

impl View for ReputationSBT {
    type V = TokenState;

    closed spec fn view(&self) -> TokenState {
        TokenState {
            records: record_views(self.records@),
            supply: self.supply,
            admin: self.admin,
        }
    }
}

impl ReputationSBT {
    /// The registry is consistent: its state is well formed.
    pub closed spec fn inv(&self) -> bool {
        &&& self.records.inv()
        &&& self@.wf()
    }

    /// A consistent registry has a well-formed state.
    pub proof fn lemma_inv_wf(&self)
        requires
            self.inv(),
        ensures
            self@.wf(),
    {
    }

    /// Deploys the registry: no administrator, no credential.
    pub fn new() -> (registry: Self)
        ensures
            registry.inv(),
            registry@.wf(),
            registry@ == TokenState::deployed(),
    {
        let registry = ReputationSBT { admin: None, supply: 0, records: IdentityMap::new() };
        assert(registry@.records =~= Map::<Identity, ReputationDataView>::empty());
        registry
    }

    /// Makes `admin` the administrator. It succeeds once; later calls fail
    /// with `AlreadyInitialized` and change nothing.
    pub fn initialize(&mut self, admin: Identity) -> (result: Result<(), SbtError>)
        requires
            old(self).inv(),
        ensures
            final(self).inv(),
            final(self)@.wf(),
            result == old(self)@.initialize_result(),
            final(self)@ == old(self)@.initialize(admin),
    {
        check_initialize(self.admin.is_some())?;
        self.admin = Some(admin);
        Ok(())
    }

    /// Creates the credential of `to`, with the next token number. `now` is
    /// the host's time.
    pub fn mint_sbt(
        &mut self,
        to: Identity,
        score: u32,
        profile: String,
        stellar_address: String,
        now: u64,
    ) -> (result: Result<Minted, SbtError>)
        requires
            old(self).inv(),
        ensures
            final(self).inv(),
            final(self)@.wf(),
            result == old(self)@.mint_result(to, score, now),
            final(self)@ == old(self)@.mint(to, score, profile@, stellar_address@, now),
    {
        let already_minted = self.records.contains(&to);
        let new_supply = check_mint(already_minted, self.supply, score)?;
        let reputation = ReputationData {
            token_id: new_supply,
            score,
            profile,
            stellar_address,
            minted_at: now,
        };
        self.records.insert(to, reputation);
        self.supply = new_supply;
        assert(self@.records =~= old(self)@.records.insert(to, reputation@));
        Ok(Minted { to, token_id: new_supply, score, timestamp: now })
    }

    /// Sets the score of `account` to `new_score`, on behalf of `caller`.
    pub fn update_score(&mut self, caller: Identity, account: Identity, new_score: u32) -> (result:
        Result<ScoreUpdated, SbtError>)
        requires
            old(self).inv(),
        ensures
            final(self).inv(),
            final(self)@.wf(),
            result == old(self)@.update_score_result(caller, account, new_score),
            final(self)@ == old(self)@.update_score(caller, account, new_score),
    {
        let current = match self.records.get(&account) {
            Some(found) => Some(found.score),
            None => None,
        };
        let by_admin = match self.admin {
            Some(admin) => admin == caller,
            None => false,
        };
        let old_score = check_update(by_admin, caller == account, current, new_score)?;
        let mut reputation = self.records.remove(&account).unwrap();
        reputation.score = new_score;
        self.records.insert(account, reputation);
        proof {
            assert(self@.records =~= old(self)@.records.insert(
                account,
                old(self)@.records[account].with_score(new_score),
            ));
            assert(self@.records.dom() =~= old(self)@.records.dom());
        }
        Ok(ScoreUpdated { account, old_score, new_score })
    }

    /// The credential of `account`, if it holds one.
    pub fn get_reputation(&self, account: Identity) -> (found: Option<ReputationData>)
        requires
            self.inv(),
        ensures
            match found {
                Some(data) => self@.reputation_of(account) == Some(data@),
                None => self@.reputation_of(account) is None,
            },
    {
        match self.records.get(&account) {
            Some(data) => Some(data.clone()),
            None => None,
        }
    }

    /// Whether `account` holds a credential.
    pub fn verify_ownership(&self, account: Identity) -> (owns: bool)
        requires
            self.inv(),
        ensures
            owns == self@.owns(account),
    {
        self.records.contains(&account)
    }

    /// How many credentials were ever created.
    pub fn total_supply(&self) -> (count: u64)
        ensures
            count == self@.supply,
    {
        self.supply
    }

    /// The administrator, once the registry is initialised.
    pub fn get_admin(&self) -> (admin: Option<Identity>)
        ensures
            admin == self@.admin,
    {
        self.admin
    }
}

} // verus!
