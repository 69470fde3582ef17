use chainrepute::credentials::{self, CredentialError, ReputationContract};
use chainrepute::events::{Minted, ScoreUpdated, Stored};
use chainrepute::identity::Identity;
use chainrepute::reputation_registry::{self, RegistryError, ReputationRegistry};
use chainrepute::reputation_sbt::{self, ReputationSBT, SbtError};

fn admin() -> Identity {
    Identity::new(9, 9)
}

fn ann() -> Identity {
    Identity::new(0, 10)
}

fn ben() -> Identity {
    Identity::new(0, 11)
}

fn s(text: &str) -> String {
    text.to_string()
}

#[test]
fn token_registry_is_initialised_once() {
    let mut registry = ReputationSBT::new();
    assert_eq!(registry.get_admin(), None);
    assert_eq!(registry.total_supply(), 0);
    assert_eq!(registry.initialize(admin()), Ok(()));
    assert_eq!(registry.get_admin(), Some(admin()));
    assert_eq!(registry.initialize(ann()), Err(SbtError::AlreadyInitialized));
    assert_eq!(registry.initialize(admin()), Err(SbtError::AlreadyInitialized));
    assert_eq!(registry.get_admin(), Some(admin()));
    assert_eq!(registry.total_supply(), 0);
}

#[test]
fn token_registry_scenario() {
    let mut registry = ReputationSBT::new();
    registry.initialize(admin()).unwrap();
    assert_eq!(
        registry.mint_sbt(ann(), 750, s("Governor"), s("GAXYZ..."), 500),
        Ok(Minted { to: ann(), token_id: 1, score: 750, timestamp: 500 })
    );
    assert_eq!(registry.total_supply(), 1);
    assert_eq!(
        registry.mint_sbt(ann(), 600, s("Trader"), s("GAXYZ..."), 501),
        Err(SbtError::AlreadyMinted)
    );
    assert_eq!(registry.update_score(ann(), ann(), 500), Err(SbtError::Unauthorized));
    assert_eq!(registry.get_reputation(ann()).unwrap().score, 750);
    assert_eq!(
        registry.update_score(ann(), ann(), 900),
        Ok(ScoreUpdated { account: ann(), old_score: 750, new_score: 900 })
    );
    assert_eq!(registry.get_reputation(ann()).unwrap().score, 900);
    assert_eq!(
        registry.update_score(admin(), ann(), 100),
        Ok(ScoreUpdated { account: ann(), old_score: 900, new_score: 100 })
    );
    let data = registry.get_reputation(ann()).unwrap();
    assert_eq!(data.score, 100);
    assert_eq!(data.token_id, 1);
    assert_eq!(data.profile, "Governor");
    assert_eq!(data.stellar_address, "GAXYZ...");
    assert_eq!(data.minted_at, 500);
    assert_eq!(
        registry.mint_sbt(ben(), 1500, s("Staker"), s("GB..."), 502),
        Err(SbtError::InvalidScore)
    );
    assert!(!registry.verify_ownership(ben()));
    assert!(registry.get_reputation(ben()).is_none());
    assert_eq!(registry.total_supply(), 1);
    assert!(registry.verify_ownership(ann()));
}

#[test]
fn token_registry_reports_a_bad_score_first() {
    let mut registry = ReputationSBT::new();
    registry.mint_sbt(ann(), 1, s("a"), s("b"), 1).unwrap();
    assert_eq!(registry.mint_sbt(ann(), 1001, s("a"), s("b"), 2), Err(SbtError::InvalidScore));
    assert_eq!(registry.update_score(ben(), ben(), 1001), Err(SbtError::InvalidScore));
    assert_eq!(registry.update_score(ben(), ben(), 1000), Err(SbtError::NotFound));
}

#[test]
fn token_registry_without_administrator() {
    let mut registry = ReputationSBT::new();
    assert_eq!(registry.mint_sbt(ann(), 10, s("a"), s("b"), 1).unwrap().token_id, 1);
    assert_eq!(registry.update_score(ben(), ann(), 5), Err(SbtError::Unauthorized));
    assert_eq!(registry.update_score(ann(), ann(), 5), Err(SbtError::Unauthorized));
    assert_eq!(registry.update_score(ann(), ann(), 15).unwrap().old_score, 10);
    // the counter is kept when the administrator arrives
    registry.initialize(ben()).unwrap();
    assert_eq!(registry.total_supply(), 1);
    assert_eq!(registry.mint_sbt(ben(), 10, s("a"), s("b"), 2).unwrap().token_id, 2);
    assert_eq!(registry.update_score(ben(), ann(), 5).unwrap().old_score, 15);
}

#[test]
fn token_registry_rules_on_plain_values() {
    assert_eq!(reputation_sbt::check_initialize(false), Ok(()));
    assert_eq!(reputation_sbt::check_initialize(true), Err(SbtError::AlreadyInitialized));
    assert_eq!(reputation_sbt::check_mint(false, 0, 0), Ok(1));
    assert_eq!(reputation_sbt::check_mint(false, 41, 1000), Ok(42));
    assert_eq!(reputation_sbt::check_mint(false, 41, 1001), Err(SbtError::InvalidScore));
    assert_eq!(reputation_sbt::check_mint(true, 41, 1001), Err(SbtError::InvalidScore));
    assert_eq!(reputation_sbt::check_mint(true, 41, 1000), Err(SbtError::AlreadyMinted));
    assert_eq!(reputation_sbt::check_mint(true, u64::MAX, 5), Err(SbtError::AlreadyMinted));
    assert_eq!(reputation_sbt::check_mint(false, u64::MAX, 5), Err(SbtError::CounterOverflow));
    assert_eq!(reputation_sbt::check_mint(false, u64::MAX - 1, 5), Ok(u64::MAX));
    assert_eq!(reputation_sbt::check_update(false, true, Some(10), 9), Err(SbtError::Unauthorized));
    assert_eq!(reputation_sbt::check_update(false, true, Some(10), 10), Ok(10));
    assert_eq!(reputation_sbt::check_update(false, true, Some(10), 11), Ok(10));
    assert_eq!(reputation_sbt::check_update(true, false, Some(10), 0), Ok(10));
    assert_eq!(reputation_sbt::check_update(true, true, Some(10), 0), Ok(10));
    assert_eq!(reputation_sbt::check_update(false, false, Some(10), 11), Err(SbtError::Unauthorized));
    assert_eq!(reputation_sbt::check_update(true, true, None, 11), Err(SbtError::NotFound));
    assert_eq!(reputation_sbt::check_update(true, true, None, 1001), Err(SbtError::InvalidScore));
    assert_eq!(reputation_sbt::check_update(true, true, Some(1), 1001), Err(SbtError::InvalidScore));
}

#[test]
fn token_registry_error_codes() {
    assert_eq!(SbtError::NotFound.code(), 1);
    assert_eq!(SbtError::AlreadyMinted.code(), 2);
    assert_eq!(SbtError::InvalidScore.code(), 3);
    assert_eq!(SbtError::CounterOverflow.code(), 4);
    assert_eq!(SbtError::Unauthorized.code(), 5);
    assert_eq!(SbtError::AlreadyInitialized.code(), 6);
}

#[test]
fn reputation_is_stored_once_and_verified() {
    let mut registry = ReputationRegistry::new();
    assert_eq!(registry.initialize(admin()), Ok(()));
    assert_eq!(registry.initialize(admin()), Err(RegistryError::AlreadyInitialized));
    assert!(!registry.verify_credential(ann()));
    assert_eq!(
        registry.store_reputation(ann(), 750, s("Governor"), s("5Grw..."), 77),
        Ok(Stored { user: ann(), score: 750, timestamp: 77 })
    );
    assert!(registry.verify_credential(ann()));
    assert!(!registry.verify_credential(ben()));
    let data = registry.get_reputation(ann()).unwrap();
    assert_eq!(data.score, 750);
    assert_eq!(data.profile, "Governor");
    assert_eq!(data.polkadot_address, "5Grw...");
    assert_eq!(data.timestamp, 77);
    assert!(data.verified);
    assert_eq!(
        registry.store_reputation(ann(), 600, s("Trader"), s("other"), 78),
        Err(RegistryError::AlreadyStored)
    );
    assert_eq!(registry.get_reputation(ann()), Some(data));
    assert_eq!(
        registry.store_reputation(ben(), 1500, s("Staker"), s("x"), 79),
        Err(RegistryError::InvalidScore)
    );
    assert_eq!(
        registry.store_reputation(ann(), 1500, s("Staker"), s("x"), 79),
        Err(RegistryError::InvalidScore)
    );
    assert!(registry.get_reputation(ben()).is_none());
}

#[test]
fn stored_score_follows_the_update_rule() {
    let mut registry = ReputationRegistry::new();
    registry.initialize(admin()).unwrap();
    registry.store_reputation(ann(), 750, s("Governor"), s("5Grw..."), 77).unwrap();
    assert_eq!(registry.update_score(ann(), ann(), 500), Err(RegistryError::Unauthorized));
    assert_eq!(registry.update_score(ben(), ann(), 800), Err(RegistryError::Unauthorized));
    assert_eq!(registry.update_score(ben(), ben(), 800), Err(RegistryError::NotFound));
    assert_eq!(registry.update_score(ann(), ann(), 1001), Err(RegistryError::InvalidScore));
    assert_eq!(registry.get_reputation(ann()).unwrap().score, 750);
    assert_eq!(
        registry.update_score(ann(), ann(), 900),
        Ok(ScoreUpdated { account: ann(), old_score: 750, new_score: 900 })
    );
    assert_eq!(
        registry.update_score(admin(), ann(), 100),
        Ok(ScoreUpdated { account: ann(), old_score: 900, new_score: 100 })
    );
    let data = registry.get_reputation(ann()).unwrap();
    assert_eq!(data.score, 100);
    assert_eq!(data.timestamp, 77);
    assert_eq!(data.polkadot_address, "5Grw...");
    assert_eq!(data.profile, "Governor");
    assert!(data.verified);
}

#[test]
fn reputation_registry_rules_and_codes() {
    assert_eq!(reputation_registry::check_initialize(false), Ok(()));
    assert_eq!(
        reputation_registry::check_initialize(true),
        Err(RegistryError::AlreadyInitialized)
    );
    assert_eq!(reputation_registry::check_store(false, 1000), Ok(()));
    assert_eq!(reputation_registry::check_store(true, 1000), Err(RegistryError::AlreadyStored));
    assert_eq!(reputation_registry::check_store(true, 1001), Err(RegistryError::InvalidScore));
    assert_eq!(reputation_registry::check_update(false, true, Some(3), 3), Ok(3));
    assert_eq!(
        reputation_registry::check_update(false, true, Some(3), 2),
        Err(RegistryError::Unauthorized)
    );
    assert_eq!(reputation_registry::check_update(true, false, Some(3), 2), Ok(3));
    assert_eq!(
        reputation_registry::check_update(true, false, None, 2),
        Err(RegistryError::NotFound)
    );
    assert_eq!(RegistryError::NotFound.code(), 1);
    assert_eq!(RegistryError::InvalidScore.code(), 2);
    assert_eq!(RegistryError::AlreadyStored.code(), 3);
    assert_eq!(RegistryError::Unauthorized.code(), 4);
    assert_eq!(RegistryError::AlreadyInitialized.code(), 5);
}

#[test]
fn credential_lifecycle_with_revocation() {
    let mut store = ReputationContract::new();
    assert_eq!(store.get_credential(ann()), None);
    assert_eq!(store.update_credential(ann(), vec![1, 2]), Err(CredentialError::NotFound));
    assert_eq!(store.get_credential(ann()), None);
    assert_eq!(store.mint_credential(ann(), vec![1, 2, 3]), Ok(()));
    assert_eq!(store.get_credential(ann()), Some(vec![1, 2, 3]));
    assert_eq!(store.mint_credential(ann(), vec![9]), Err(CredentialError::AlreadyMinted));
    assert_eq!(store.get_credential(ann()), Some(vec![1, 2, 3]));
    assert_eq!(store.update_credential(ann(), vec![4, 5]), Ok(()));
    assert_eq!(store.get_credential(ann()), Some(vec![4, 5]));
    assert_eq!(store.mint_credential(ben(), vec![]), Ok(()));
    store.revoke_credential(ann());
    assert_eq!(store.get_credential(ann()), None);
    assert_eq!(store.get_credential(ben()), Some(vec![]));
    store.revoke_credential(ann());
    assert_eq!(store.get_credential(ann()), None);
    assert_eq!(store.mint_credential(ann(), vec![7]), Ok(()));
    assert_eq!(store.get_credential(ann()), Some(vec![7]));
    assert_eq!(credentials::check_mint(true), Err(CredentialError::AlreadyMinted));
    assert_eq!(credentials::check_mint(false), Ok(()));
    assert_eq!(credentials::check_update(false), Err(CredentialError::NotFound));
    assert_eq!(credentials::check_update(true), Ok(()));
    assert_eq!(CredentialError::AlreadyMinted.code(), 1);
    assert_eq!(CredentialError::NotFound.code(), 2);
}
