//! The governance token registry.
//!
//! One credential per identity. The identity that deploys the registry is
//! its administrator. A holder may keep or raise their own score; the
//! administrator may set the score of any holder to any value in range.
//!
//! The host authenticates the caller and supplies the time; both reach the
//! registry as arguments.

use vstd::prelude::*;
use crate::identity::Identity;
use crate::record::{record_views, ReputationData, ReputationDataView};
use crate::score::{change_permitted, is_valid_score, may_change, score_in_range};
use crate::store::IdentityMap;

verus! {

/// Why the registry refused an operation.
#[derive(Clone, Copy, Debug, PartialEq, Eq, Structural)]
pub enum Error {
    /// The identity already holds a credential.
    AlreadyMinted,
    /// The identity holds no credential.
    NotOwner,
    /// The score is above `MAX_SCORE`, or no further token number is left.
    InvalidScore,
    /// The caller may not make this change.
    Unauthorized,
}

/// What a mint comes to, given whether the caller already holds a
/// credential and how many credentials were created so far: the next token
/// number, or the first of these that applies: `AlreadyMinted`, where the
/// caller holds one; `InvalidScore`, where the score is out of range or
/// no number is left.
pub open spec fn mint_rule(already_minted: bool, total_supply: u64, score: u32) -> Result<
    u64,
    Error,
> {
    if already_minted {
        Err(Error::AlreadyMinted)
    } else if !score_in_range(score) {
        Err(Error::InvalidScore)
    } else if total_supply == u64::MAX {
        Err(Error::InvalidScore)
    } else {
        Ok((total_supply + 1) as u64)
    }
}

/// What a score update comes to, given whether the caller is the
/// administrator, whether the caller is the holder, and the holder's
/// current score, if there is a credential: success, or the first of these
/// that applies: `InvalidScore`, where the new score is out of range;
/// `NotOwner`, where there is no credential; `Unauthorized`, where the
/// caller is neither the administrator nor the holder, or is the holder
/// and asks for less.
pub open spec fn update_rule(
    by_admin: bool,
    by_owner: bool,
    current: Option<u32>,
    new_score: u32,
) -> Result<(), Error> {
    if !score_in_range(new_score) {
        Err(Error::InvalidScore)
    } else {
        match current {
            None => Err(Error::NotOwner),
            Some(score) => if (by_admin || by_owner) && change_permitted(by_admin, score, new_score) {
                Ok(())
            } else {
                Err(Error::Unauthorized)
            },
        }
    }
}

/// Decides a mint.
pub fn check_mint(already_minted: bool, total_supply: u64, score: u32) -> (result: Result<
    u64,
    Error,
>)
    ensures
        result == mint_rule(already_minted, total_supply, score),
{
    if already_minted {
        return Err(Error::AlreadyMinted);
    }
    if !is_valid_score(score) {
        return Err(Error::InvalidScore);
    }
    match total_supply.checked_add(1) {
        Some(next) => Ok(next),
        None => Err(Error::InvalidScore),
    }
}

/// Decides a score update.
pub fn check_update(by_admin: bool, by_owner: bool, current: Option<u32>, new_score: u32) -> (result:
    Result<(), Error>)
    ensures
        result == update_rule(by_admin, by_owner, current, new_score),
{
    if !is_valid_score(new_score) {
        return Err(Error::InvalidScore);
    }
    match current {
        None => Err(Error::NotOwner),
        Some(score) => if (by_admin || by_owner) && may_change(by_admin, score, new_score) {
            Ok(())
        } else {
            Err(Error::Unauthorized)
        },
    }
}

/// The state of the registry, as plain values.
pub struct SbtState {
    /// The credential of each holder.
    pub records: Map<Identity, ReputationDataView>,
    /// How many credentials were ever created.
    pub total_supply: u64,
    /// The administrator.
    pub admin: Identity,
}

impl SbtState {
    /// The state of a registry that `admin` has just deployed.
    pub open spec fn init(admin: Identity) -> SbtState {
        SbtState { records: Map::empty(), total_supply: 0, admin }
    }

    /// The invariants of the registry: every score is in range, the holders
    /// are as many as the credentials created, and the token numbers are
    /// distinct and run from 1 to that count.
    pub open spec fn wf(self) -> bool {
        &&& self.records.dom().finite()
        &&& self.records.dom().len() == self.total_supply
        &&& forall|id: Identity| #[trigger]
            self.records.contains_key(id) ==> {
                &&& score_in_range(self.records[id].score)
                &&& 1 <= self.records[id].token_id <= self.total_supply
            }
        &&& forall|a: Identity, b: Identity|
            #![trigger self.records[a], self.records[b]]
            self.records.contains_key(a) && self.records.contains_key(b) && a != b
                ==> self.records[a].token_id != self.records[b].token_id
    }

    /// What `mint_sbt` returns: the new token number, or why it refused.
    pub open spec fn mint_result(self, caller: Identity, score: u32) -> Result<u64, Error> {
        mint_rule(self.records.contains_key(caller), self.total_supply, score)
    }

    /// The state after `mint_sbt`: with the new credential where it
    /// succeeds, unchanged where it refuses.
    pub open spec fn mint(
        self,
        caller: Identity,
        score: u32,
        profile: Seq<char>,
        stellar_address: Seq<char>,
        now: u64,
    ) -> SbtState {
        match self.mint_result(caller, score) {
            Ok(token_id) => SbtState {
                records: self.records.insert(
                    caller,
                    ReputationDataView {
                        token_id,
                        score,
                        profile,
                        stellar_address,
                        minted_at: now,
                    },
                ),
                total_supply: token_id,
                admin: self.admin,
            },
            Err(_) => self,
        }
    }

    /// What `get_reputation` returns: the credential of `account`, if it
    /// holds one.
    pub open spec fn reputation_of(self, account: Identity) -> Option<ReputationDataView> {
        if self.records.contains_key(account) {
            Some(self.records[account])
        } else {
            None
        }
    }

    /// What `verify_ownership` returns: whether `account` holds a
    /// credential.
    pub open spec fn owns(self, account: Identity) -> bool {
        self.records.contains_key(account)
    }

    /// The score of `account`, if it holds a credential.
    pub open spec fn score_of(self, account: Identity) -> Option<u32> {
        if self.records.contains_key(account) {
            Some(self.records[account].score)
        } else {
            None
        }
    }

    /// What `update_score` returns.
    pub open spec fn update_score_result(
        self,
        caller: Identity,
        account: Identity,
        new_score: u32,
    ) -> Result<(), Error> {
        update_rule(caller == self.admin, caller == account, self.score_of(account), new_score)
    }

    /// The state after `update_score`: with the new score where it succeeds,
    /// unchanged where it refuses.
    pub open spec fn update_score(
        self,
        caller: Identity,
        account: Identity,
        new_score: u32,
    ) -> SbtState {
        match self.update_score_result(caller, account, new_score) {
            Ok(_) => SbtState {
                records: self.records.insert(
                    account,
                    self.records[account].with_score(new_score),
                ),
                ..self
            },
            Err(_) => self,
        }
    }
}

/// The governance token registry.
pub struct GovernanceSbt {
    reputations: IdentityMap<ReputationData>,
    total_supply: u64,
    admin: Identity,
}

impl View for GovernanceSbt {
    type V = SbtState;

    closed spec fn view(&self) -> SbtState {
        SbtState {
            records: record_views(self.reputations@),
            total_supply: self.total_supply,
            admin: self.admin,
        }
    }
}

impl GovernanceSbt {
    /// The registry is consistent: its state is well formed.
    pub closed spec fn inv(&self) -> bool {
        &&& self.reputations.inv()
        &&& self@.wf()
    }

    /// A consistent registry has a well-formed state: the invariants of
    /// `SbtState::wf` hold of it.
    pub proof fn lemma_inv_wf(&self)
        requires
            self.inv(),
        ensures
            self@.wf(),
    {
    }

    /// Deploys the registry; `caller` becomes its administrator.
    pub fn new(caller: Identity) -> (registry: Self)
        ensures
            registry.inv(),
            registry@.wf(),
            registry@ == SbtState::init(caller),
    {
        let registry = GovernanceSbt {
            reputations: IdentityMap::new(),
            total_supply: 0,
            admin: caller,
        };
        assert(registry@.records =~= Map::<Identity, ReputationDataView>::empty());
        registry
    }

    /// Creates the credential of `caller`, with the next token number, and
    /// returns that number. `now` is the host's time.
    pub fn mint_sbt(
        &mut self,
        caller: Identity,
        score: u32,
        profile: String,
        stellar_address: String,
        now: u64,
    ) -> (result: Result<u64, Error>)
        requires
            old(self).inv(),
        ensures
            final(self).inv(),
            final(self)@.wf(),
            result == old(self)@.mint_result(caller, score),
            final(self)@ == old(self)@.mint(caller, score, profile@, stellar_address@, now),
    {
        let already_minted = self.reputations.contains(&caller);
        let token_id = check_mint(already_minted, self.total_supply, score)?;
        let reputation = ReputationData {
            token_id,
            score,
            profile,
            stellar_address,
            minted_at: now,
        };
        self.reputations.insert(caller, reputation);
        self.total_supply = token_id;
        assert(self@.records =~= old(self)@.records.insert(caller, reputation@));
        Ok(token_id)
    }

    /// Sets the score of `account` to `new_score`, on behalf of `caller`.
    pub fn update_score(&mut self, caller: Identity, account: Identity, new_score: u32) -> (result:
        Result<(), Error>)
        requires
            old(self).inv(),
        ensures
            final(self).inv(),
            final(self)@.wf(),
            result == old(self)@.update_score_result(caller, account, new_score),
            final(self)@ == old(self)@.update_score(caller, account, new_score),
    {
        let current = match self.reputations.get(&account) {
            Some(found) => Some(found.score),
            None => None,
        };
        check_update(caller == self.admin, caller == account, current, new_score)?;
        let mut reputation = self.reputations.remove(&account).unwrap();
        reputation.score = new_score;
        self.reputations.insert(account, reputation);
        proof {
            assert(self@.records =~= old(self)@.records.insert(
                account,
                old(self)@.records[account].with_score(new_score),
            ));
            assert(self@.records.dom() =~= old(self)@.records.dom());
        }
        Ok(())
    }

    /// The credential of `account`, if it holds one.
    pub fn get_reputation(&self, account: Identity) -> (found: Option<ReputationData>)
        requires
            self.inv(),
        ensures
            match found {
                Some(data) => self@.reputation_of(account) == Some(data@),
                None => self@.reputation_of(account) is None,
            },
    {
        match self.reputations.get(&account) {
            Some(data) => Some(data.clone()),
            None => None,
        }
    }

    /// Whether `account` holds a credential.
    pub fn verify_ownership(&self, account: Identity) -> (owns: bool)
        requires
            self.inv(),
        ensures
            owns == self@.owns(account),
    {
        self.reputations.contains(&account)
    }

    /// How many credentials were ever created.
    pub fn total_supply(&self) -> (count: u64)
        ensures
            count == self@.total_supply,
    {
        self.total_supply
    }

    /// The administrator.
    pub fn get_admin(&self) -> (admin: Identity)
        ensures
            admin == self@.admin,
    {
        self.admin
    }
}

} // verus!
