use chainrepute::governance_sbt::{Error, GovernanceSbt};
use chainrepute::identity::Identity;

fn alice() -> Identity {
    Identity::new(0, 1)
}

fn bob() -> Identity {
    Identity::new(0, 2)
}

fn admin() -> Identity {
    Identity::new(7, 0)
}

#[test]
fn mint_works() {
    let mut contract = GovernanceSbt::new(alice());

    let result = contract.mint_sbt(alice(), 750, "Governor".into(), "GAXYZ...".into(), 10);

    assert!(result.is_ok());
    assert_eq!(result.unwrap(), 1);
    assert_eq!(contract.total_supply(), 1);
}

#[test]
fn cannot_mint_twice() {
    let mut contract = GovernanceSbt::new(alice());

    contract.mint_sbt(alice(), 500, "Trader".into(), "GAXYZ...".into(), 10).unwrap();

    let result = contract.mint_sbt(alice(), 600, "Governor".into(), "GAXYZ...".into(), 11);

    assert_eq!(result, Err(Error::AlreadyMinted));
}

#[test]
fn update_score_works() {
    let mut contract = GovernanceSbt::new(alice());

    contract.mint_sbt(alice(), 500, "Newcomer".into(), "GAXYZ...".into(), 10).unwrap();

    let result = contract.update_score(alice(), alice(), 750);
    assert!(result.is_ok());

    let rep = contract.get_reputation(alice());
    assert_eq!(rep.unwrap().score, 750);
}

#[test]
fn verify_ownership_works() {
    let mut contract = GovernanceSbt::new(alice());

    assert!(!contract.verify_ownership(alice()));

    contract.mint_sbt(alice(), 500, "Staker".into(), "GAXYZ...".into(), 10).unwrap();

    assert!(contract.verify_ownership(alice()));
}

#[test]
fn first_mint_gets_token_one() {
    let mut contract = GovernanceSbt::new(admin());
    let token = contract.mint_sbt(alice(), 750, "Governor".into(), "GAXYZ...".into(), 42);
    assert_eq!(token, Ok(1));
    assert_eq!(contract.total_supply(), 1);
    let rep = contract.get_reputation(alice()).unwrap();
    assert_eq!(rep.token_id, 1);
    assert_eq!(rep.score, 750);
    assert_eq!(rep.profile, "Governor");
    assert_eq!(rep.stellar_address, "GAXYZ...");
    assert_eq!(rep.minted_at, 42);
}

#[test]
fn second_mint_for_same_identity_is_refused() {
    let mut contract = GovernanceSbt::new(admin());
    contract.mint_sbt(alice(), 750, "Governor".into(), "GAXYZ...".into(), 42).unwrap();
    let again = contract.mint_sbt(alice(), 600, "Trader".into(), "GAXYZ...".into(), 43);
    assert_eq!(again, Err(Error::AlreadyMinted));
    assert_eq!(contract.total_supply(), 1);
    let rep = contract.get_reputation(alice()).unwrap();
    assert_eq!(rep.score, 750);
    assert_eq!(rep.profile, "Governor");
}

#[test]
fn owner_cannot_lower_own_score() {
    let mut contract = GovernanceSbt::new(admin());
    contract.mint_sbt(alice(), 750, "Governor".into(), "GAXYZ...".into(), 42).unwrap();
    assert_eq!(contract.update_score(alice(), alice(), 500), Err(Error::Unauthorized));
    assert_eq!(contract.get_reputation(alice()).unwrap().score, 750);
}

#[test]
fn owner_can_raise_own_score() {
    let mut contract = GovernanceSbt::new(admin());
    contract.mint_sbt(alice(), 750, "Governor".into(), "GAXYZ...".into(), 42).unwrap();
    assert_eq!(contract.update_score(alice(), alice(), 900), Ok(()));
    assert_eq!(contract.get_reputation(alice()).unwrap().score, 900);
}

#[test]
fn owner_can_keep_own_score() {
    let mut contract = GovernanceSbt::new(admin());
    contract.mint_sbt(alice(), 750, "Governor".into(), "GAXYZ...".into(), 42).unwrap();
    assert_eq!(contract.update_score(alice(), alice(), 750), Ok(()));
    assert_eq!(contract.get_reputation(alice()).unwrap().score, 750);
}

#[test]
fn admin_can_lower_any_score() {
    let mut contract = GovernanceSbt::new(admin());
    contract.mint_sbt(alice(), 750, "Governor".into(), "GAXYZ...".into(), 42).unwrap();
    contract.update_score(alice(), alice(), 900).unwrap();
    assert_eq!(contract.update_score(admin(), alice(), 100), Ok(()));
    let rep = contract.get_reputation(alice()).unwrap();
    assert_eq!(rep.score, 100);
    assert_eq!(rep.token_id, 1);
    assert_eq!(rep.profile, "Governor");
    assert_eq!(rep.stellar_address, "GAXYZ...");
    assert_eq!(rep.minted_at, 42);
}

#[test]
fn mint_with_score_out_of_range_is_refused() {
    let mut contract = GovernanceSbt::new(admin());
    contract.mint_sbt(alice(), 750, "Governor".into(), "GAXYZ...".into(), 42).unwrap();
    let result = contract.mint_sbt(bob(), 1500, "Staker".into(), "GB...".into(), 43);
    assert_eq!(result, Err(Error::InvalidScore));
    assert!(!contract.verify_ownership(bob()));
    assert!(contract.get_reputation(bob()).is_none());
    assert_eq!(contract.total_supply(), 1);
}

#[test]
fn score_bounds_are_inclusive() {
    let mut contract = GovernanceSbt::new(admin());
    assert_eq!(contract.mint_sbt(alice(), 0, "a".into(), "x".into(), 1), Ok(1));
    assert_eq!(contract.mint_sbt(bob(), 1000, "b".into(), "y".into(), 2), Ok(2));
    assert_eq!(
        contract.mint_sbt(Identity::new(0, 3), 1001, "c".into(), "z".into(), 3),
        Err(Error::InvalidScore)
    );
    assert_eq!(contract.update_score(alice(), alice(), 1000), Ok(()));
    assert_eq!(contract.update_score(alice(), alice(), 1001), Err(Error::InvalidScore));
    assert_eq!(contract.update_score(admin(), bob(), u32::MAX), Err(Error::InvalidScore));
    assert_eq!(contract.get_reputation(bob()).unwrap().score, 1000);
}

#[test]
fn existing_holder_with_bad_score_is_told_already_minted() {
    let mut contract = GovernanceSbt::new(admin());
    contract.mint_sbt(alice(), 10, "a".into(), "x".into(), 1).unwrap();
    assert_eq!(
        contract.mint_sbt(alice(), 1500, "a".into(), "x".into(), 2),
        Err(Error::AlreadyMinted)
    );
}

#[test]
fn update_without_credential_is_refused() {
    let mut contract = GovernanceSbt::new(admin());
    assert_eq!(contract.update_score(alice(), alice(), 10), Err(Error::NotOwner));
    assert_eq!(contract.update_score(admin(), alice(), 10), Err(Error::NotOwner));
    assert_eq!(contract.update_score(alice(), alice(), 2000), Err(Error::InvalidScore));
}

#[test]
fn stranger_cannot_change_a_score() {
    let mut contract = GovernanceSbt::new(admin());
    contract.mint_sbt(alice(), 10, "a".into(), "x".into(), 1).unwrap();
    assert_eq!(contract.update_score(bob(), alice(), 20), Err(Error::Unauthorized));
    assert_eq!(contract.get_reputation(alice()).unwrap().score, 10);
}

#[test]
fn admin_who_holds_a_credential_may_lower_it() {
    let mut contract = GovernanceSbt::new(admin());
    contract.mint_sbt(admin(), 800, "a".into(), "x".into(), 1).unwrap();
    assert_eq!(contract.update_score(admin(), admin(), 5), Ok(()));
    assert_eq!(contract.get_reputation(admin()).unwrap().score, 5);
}

#[test]
fn tokens_count_successful_mints() {
    let mut contract = GovernanceSbt::new(admin());
    assert_eq!(contract.total_supply(), 0);
    for k in 1..=20u64 {
        let id = Identity::new(1, k as u128);
        assert_eq!(contract.mint_sbt(id, 1500, "p".into(), "r".into(), k), Err(Error::InvalidScore));
        assert_eq!(contract.mint_sbt(id, (k * 10) as u32, "p".into(), "r".into(), k), Ok(k));
        assert_eq!(contract.mint_sbt(id, 1, "p".into(), "r".into(), k), Err(Error::AlreadyMinted));
        assert_eq!(contract.total_supply(), k);
    }
    for k in 1..=20u64 {
        let rep = contract.get_reputation(Identity::new(1, k as u128)).unwrap();
        assert_eq!(rep.token_id, k);
        assert_eq!(rep.score, (k * 10) as u32);
    }
}

#[test]
fn reads_change_nothing() {
    let mut contract = GovernanceSbt::new(admin());
    contract.mint_sbt(alice(), 10, "a".into(), "x".into(), 1).unwrap();
    let first = contract.get_reputation(alice());
    for _ in 0..5 {
        assert_eq!(contract.get_reputation(alice()), first);
        assert!(contract.verify_ownership(alice()));
        assert!(!contract.verify_ownership(bob()));
        assert!(contract.get_reputation(bob()).is_none());
        assert_eq!(contract.total_supply(), 1);
        assert_eq!(contract.get_admin(), admin());
    }
}

#[test]
fn identities_differ_in_either_half() {
    let mut contract = GovernanceSbt::new(admin());
    contract.mint_sbt(Identity::new(1, 0), 10, "a".into(), "x".into(), 1).unwrap();
    assert!(!contract.verify_ownership(Identity::new(0, 1)));
    assert!(!contract.verify_ownership(Identity::new(1, 1)));
    assert_eq!(contract.mint_sbt(Identity::new(0, 1), 10, "a".into(), "x".into(), 1), Ok(2));
}
