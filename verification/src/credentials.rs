//! The credential store with revocation.
//!
//! Each user has at most one credential, which is the hash of metadata
//! kept elsewhere. A credential is created once, may be replaced while it
//! exists, and may be revoked, after which the user may get a new one.

use vstd::prelude::*;
use crate::identity::Identity;
use crate::store::IdentityMap;

verus! {

/// Why the store refused an operation.
#[derive(Clone, Copy, Debug, PartialEq, Eq, Structural)]
pub enum CredentialError {
    /// The user already has a credential.
    AlreadyMinted,
    /// The user has no credential.
    NotFound,
}

impl CredentialError {
    /// The number under which the host reports this error.
    pub open spec fn spec_code(self) -> u32 {
        match self {
            CredentialError::AlreadyMinted => 1,
            CredentialError::NotFound => 2,
        }
    }

    /// The number under which the host reports this error. Each error has
    /// its own.
    pub fn code(&self) -> (code: u32)
        ensures
            code == self.spec_code(),
    {
        match self {
            CredentialError::AlreadyMinted => 1,
            CredentialError::NotFound => 2,
        }
    }
}

/// Whether a credential may be created, given whether the user has one.
pub open spec fn mint_rule(has_credential: bool) -> Result<(), CredentialError> {
    if has_credential {
        Err(CredentialError::AlreadyMinted)
    } else {
        Ok(())
    }
}

/// Whether a credential may be replaced, given whether the user has one.
pub open spec fn update_rule(has_credential: bool) -> Result<(), CredentialError> {
    if has_credential {
        Ok(())
    } else {
        Err(CredentialError::NotFound)
    }
}

/// Decides whether a credential may be created.
pub fn check_mint(has_credential: bool) -> (result: Result<(), CredentialError>)
    ensures
        result == mint_rule(has_credential),
{
    if has_credential {
        Err(CredentialError::AlreadyMinted)
    } else {
        Ok(())
    }
}

/// Decides whether a credential may be replaced.
pub fn check_update(has_credential: bool) -> (result: Result<(), CredentialError>)
    ensures
        result == update_rule(has_credential),
{
    if has_credential {
        Ok(())
    } else {
        Err(CredentialError::NotFound)
    }
}

/// The hashes of `m`, each as a sequence of bytes.
pub open spec fn hash_views(m: Map<Identity, Vec<u8>>) -> Map<Identity, Seq<u8>> {
    Map::new(|id: Identity| m.contains_key(id), |id: Identity| m[id]@)
}

/// The credential store.
pub struct ReputationContract {
    credentials: IdentityMap<Vec<u8>>,
}

impl View for ReputationContract {
    type V = Map<Identity, Seq<u8>>;

    /// The metadata hash of each user that has a credential.
    closed spec fn view(&self) -> Map<Identity, Seq<u8>> {
        hash_views(self.credentials@)
    }
}

impl ReputationContract {
    /// The store is consistent.
    pub closed spec fn inv(&self) -> bool {
        self.credentials.inv()
    }

    /// Deploys the store, with no credential in it.
    pub fn new() -> (store: Self)
        ensures
            store.inv(),
            store@ == Map::<Identity, Seq<u8>>::empty(),
    {
        let store = ReputationContract { credentials: IdentityMap::new() };
        assert(store@ =~= Map::<Identity, Seq<u8>>::empty());
        store
    }

    /// Creates the credential of `user`, who must have none.
    pub fn mint_credential(&mut self, user: Identity, metadata_hash: Vec<u8>) -> (result: Result<
        (),
        CredentialError,
    >)
        requires
            old(self).inv(),
        ensures
            final(self).inv(),
            result == mint_rule(old(self)@.contains_key(user)),
            final(self)@ == if result is Ok {
                old(self)@.insert(user, metadata_hash@)
            } else {
                old(self)@
            },
    {
        check_mint(self.credentials.contains(&user))?;
        self.credentials.insert(user, metadata_hash);
        assert(self@ =~= old(self)@.insert(user, metadata_hash@));
        Ok(())
    }

    /// Replaces the credential of `user`, who must have one.
    pub fn update_credential(&mut self, user: Identity, metadata_hash: Vec<u8>) -> (result:
        Result<(), CredentialError>)
        requires
            old(self).inv(),
        ensures
            final(self).inv(),
            result == update_rule(old(self)@.contains_key(user)),
            final(self)@ == if result is Ok {
                old(self)@.insert(user, metadata_hash@)
            } else {
                old(self)@
            },
    {
        check_update(self.credentials.contains(&user))?;
        self.credentials.insert(user, metadata_hash);
        assert(self@ =~= old(self)@.insert(user, metadata_hash@));
        Ok(())
    }

    /// The credential of `user`, if there is one.
    pub fn get_credential(&self, user: Identity) -> (found: Option<Vec<u8>>)
        requires
            self.inv(),
        ensures
            match found {
                Some(hash) => self@.contains_key(user) && hash@ == self@[user],
                None => !self@.contains_key(user),
            },
    {
        match self.credentials.get(&user) {
            Some(hash) => {
                let copy = hash.clone();
                assert(copy@ =~= hash@);
                Some(copy)
            },
            None => None,
        }
    }

    /// Revokes the credential of `user`. Where there is none, nothing
    /// changes.
    pub fn revoke_credential(&mut self, user: Identity)
        requires
            old(self).inv(),
        ensures
            final(self).inv(),
            final(self)@ == old(self)@.remove(user),
    {
        let _ = self.credentials.remove(&user);
        assert(self@ =~= old(self)@.remove(user));
    }
}

} // verus!
