use chainrepute::governance_sbt::{self, Error};
use chainrepute::identity::Identity;
use chainrepute::paystamp::{self, PayError, ServiceConfig};
use chainrepute::score::{is_valid_score, may_change, MAX_SCORE};
use chainrepute::store::{IdentityMap, StoreKey};
use chainrepute::vault::{
    balance_after_deposit, balance_after_withdrawal, CollateralVault, VaultError, Withdrawn,
};

#[test]
fn score_range_is_zero_to_thousand() {
    assert_eq!(MAX_SCORE, 1000);
    assert!(is_valid_score(0));
    assert!(is_valid_score(999));
    assert!(is_valid_score(1000));
    assert!(!is_valid_score(1001));
    assert!(!is_valid_score(u32::MAX));
}

#[test]
fn score_may_rise_or_stay_unless_admin_decides() {
    assert!(may_change(false, 10, 10));
    assert!(may_change(false, 10, 11));
    assert!(!may_change(false, 10, 9));
    assert!(may_change(true, 10, 9));
    assert!(may_change(true, 10, 0));
    assert!(may_change(true, 10, 11));
}

#[test]
fn governance_rules_on_plain_values() {
    assert_eq!(governance_sbt::check_mint(false, 0, 750), Ok(1));
    assert_eq!(governance_sbt::check_mint(false, 6, 1000), Ok(7));
    assert_eq!(governance_sbt::check_mint(true, 6, 1000), Err(Error::AlreadyMinted));
    assert_eq!(governance_sbt::check_mint(true, 6, 1001), Err(Error::AlreadyMinted));
    assert_eq!(governance_sbt::check_mint(false, 6, 1001), Err(Error::InvalidScore));
    assert_eq!(governance_sbt::check_mint(false, u64::MAX, 10), Err(Error::InvalidScore));
    assert_eq!(governance_sbt::check_mint(false, u64::MAX - 1, 10), Ok(u64::MAX));
    assert_eq!(governance_sbt::check_update(false, true, Some(750), 500), Err(Error::Unauthorized));
    assert_eq!(governance_sbt::check_update(false, true, Some(750), 900), Ok(()));
    assert_eq!(governance_sbt::check_update(true, false, Some(900), 100), Ok(()));
    assert_eq!(governance_sbt::check_update(false, false, Some(900), 950), Err(Error::Unauthorized));
    assert_eq!(governance_sbt::check_update(true, true, None, 950), Err(Error::NotOwner));
    assert_eq!(governance_sbt::check_update(true, true, Some(1), 1001), Err(Error::InvalidScore));
    assert_eq!(governance_sbt::check_update(true, true, None, 1001), Err(Error::InvalidScore));
}

#[test]
fn store_keeps_one_value_per_key() {
    let a = Identity::new(1, 2);
    let b = Identity::new(2, 1);
    let mut map: IdentityMap<u32> = IdentityMap::new();
    assert_eq!(map.len(), 0);
    assert!(!map.contains(&a));
    assert_eq!(map.get(&a), None);
    assert_eq!(map.remove(&a), None);
    map.insert(a, 10);
    map.insert(b, 20);
    assert_eq!(map.len(), 2);
    assert_eq!(map.get(&a), Some(&10));
    assert_eq!(map.get(&b), Some(&20));
    map.insert(a, 11);
    assert_eq!(map.len(), 2);
    assert_eq!(map.get(&a), Some(&11));
    assert_eq!(map.remove(&a), Some(11));
    assert_eq!(map.len(), 1);
    assert!(!map.contains(&a));
    assert!(map.contains(&b));
    assert_eq!(map.get(&b), Some(&20));
    assert!(a.same(&Identity::new(1, 2)));
    assert!(!a.same(&b));
}

#[test]
fn vault_keeps_the_account_of_what_is_locked() {
    let user = Identity::new(0, 1);
    let other = Identity::new(0, 2);
    let token = Identity::new(5, 5);
    let mut vault = CollateralVault::new();
    assert_eq!(vault.locked(user), 0);
    assert_eq!(vault.withdraw(user, token, 1), Err(VaultError::InsufficientCollateral));
    let notice = vault.deposit(user, token, 100, "5Grw...".to_string()).unwrap();
    assert_eq!(notice.user, user);
    assert_eq!(notice.token, token);
    assert_eq!(notice.amount, 100);
    assert_eq!(notice.destination, "5Grw...");
    assert_eq!(vault.locked(user), 100);
    assert_eq!(vault.locked(other), 0);
    vault.deposit(user, token, 50, "5Grw...".to_string()).unwrap();
    assert_eq!(vault.locked(user), 150);
    assert_eq!(vault.withdraw(user, token, 151), Err(VaultError::InsufficientCollateral));
    assert_eq!(vault.locked(user), 150);
    assert_eq!(vault.withdraw(user, token, 150), Ok(Withdrawn { to: user, amount: 150 }));
    assert_eq!(vault.locked(user), 0);
    assert_eq!(vault.withdraw(other, token, 0), Ok(Withdrawn { to: other, amount: 0 }));
    assert_eq!(
        vault.deposit(user, token, i128::MAX, "d".to_string()).map(|n| n.amount),
        Ok(i128::MAX)
    );
    assert_eq!(
        vault.deposit(user, token, 1, "d".to_string()),
        Err(VaultError::BalanceOverflow)
    );
    assert_eq!(vault.locked(user), i128::MAX);
}

#[test]
fn vault_balance_arithmetic() {
    assert_eq!(balance_after_deposit(0, 5), Ok(5));
    assert_eq!(balance_after_deposit(7, -5), Ok(2));
    assert_eq!(balance_after_deposit(i128::MAX, 0), Ok(i128::MAX));
    assert_eq!(balance_after_deposit(i128::MAX - 1, 1), Ok(i128::MAX));
    assert_eq!(balance_after_deposit(i128::MAX, 1), Err(VaultError::BalanceOverflow));
    assert_eq!(balance_after_deposit(i128::MIN, -1), Err(VaultError::BalanceOverflow));
    assert_eq!(balance_after_deposit(i128::MIN, 1), Ok(i128::MIN + 1));
    assert_eq!(balance_after_withdrawal(10, 4), Ok(6));
    assert_eq!(balance_after_withdrawal(10, 10), Ok(0));
    assert_eq!(balance_after_withdrawal(10, 11), Err(VaultError::InsufficientCollateral));
    assert_eq!(balance_after_withdrawal(10, -4), Ok(14));
    assert_eq!(balance_after_withdrawal(i128::MAX, -1), Err(VaultError::BalanceOverflow));
    assert_eq!(balance_after_withdrawal(-1, i128::MIN), Ok(i128::MAX));
    assert_eq!(balance_after_withdrawal(0, i128::MIN), Err(VaultError::BalanceOverflow));
    assert_eq!(VaultError::InsufficientCollateral.message(), "Insufficient collateral locked!");
    assert_eq!(VaultError::BalanceOverflow.message(), "Balance out of range");
}

fn config() -> ServiceConfig {
    ServiceConfig {
        service_id: "analytics".to_string(),
        min_amount: 10,
        max_amount: 20,
        currency: "XLM".to_string(),
        is_active: true,
    }
}

#[test]
fn payment_rules_on_plain_values() {
    let xlm = "XLM".to_string();
    let usd = "USD".to_string();
    assert_eq!(paystamp::check_admin(false, false), Err(PayError::NotInitialized));
    assert_eq!(paystamp::check_admin(false, true), Err(PayError::NotInitialized));
    assert_eq!(paystamp::check_admin(true, false), Err(PayError::Unauthorized));
    assert_eq!(paystamp::check_admin(true, true), Ok(()));
    assert_eq!(paystamp::check_not_paused(true), Err(PayError::Paused));
    assert_eq!(paystamp::check_not_paused(false), Ok(()));
    assert_eq!(paystamp::check_limits(0, 0), Err(PayError::ZeroMinimum));
    assert_eq!(paystamp::check_limits(2, 1), Err(PayError::MaximumBelowMinimum));
    assert_eq!(paystamp::check_limits(1, 1), Ok(()));
    assert_eq!(paystamp::check_payment(false, Some(&config()), 10, &xlm, false), Ok(()));
    assert_eq!(paystamp::check_payment(false, Some(&config()), 20, &xlm, false), Ok(()));
    assert_eq!(
        paystamp::check_payment(true, None, 1, &usd, true),
        Err(PayError::Paused)
    );
    assert_eq!(
        paystamp::check_payment(false, None, 1, &usd, true),
        Err(PayError::ServiceNotFound)
    );
    let mut off = config();
    off.is_active = false;
    assert_eq!(
        paystamp::check_payment(false, Some(&off), 1, &usd, true),
        Err(PayError::ServiceInactive)
    );
    assert_eq!(
        paystamp::check_payment(false, Some(&config()), 1, &usd, true),
        Err(PayError::CurrencyMismatch)
    );
    assert_eq!(
        paystamp::check_payment(false, Some(&config()), 9, &xlm, true),
        Err(PayError::AmountBelowMinimum)
    );
    assert_eq!(
        paystamp::check_payment(false, Some(&config()), 21, &xlm, true),
        Err(PayError::AmountAboveMaximum)
    );
    assert_eq!(
        paystamp::check_payment(false, Some(&config()), 15, &xlm, true),
        Err(PayError::PaymentAlreadyProcessed)
    );
    let updated =
        paystamp::apply_update(Some(config()), Some(12), None, Some("USD".to_string()), Some(false))
            .unwrap();
    assert_eq!(updated.service_id, "analytics");
    assert_eq!(updated.min_amount, 12);
    assert_eq!(updated.max_amount, 20);
    assert_eq!(updated.currency, "USD");
    assert!(!updated.is_active);
    assert_eq!(paystamp::apply_update(Some(config()), None, None, None, None), Ok(config()));
    assert_eq!(
        paystamp::apply_update(Some(config()), Some(0), Some(5), None, None),
        Err(PayError::ZeroMinimum)
    );
    assert_eq!(
        paystamp::apply_update(Some(config()), None, Some(9), None, None),
        Err(PayError::MaximumBelowMinimum)
    );
    assert_eq!(
        paystamp::apply_update(Some(config()), Some(5), Some(9), None, None).map(|c| c.max_amount),
        Ok(9)
    );
    assert_eq!(
        paystamp::apply_update(None, Some(5), Some(9), None, None),
        Err(PayError::ServiceNotFound)
    );
    assert_eq!(
        paystamp::apply_update(None, Some(0), None, None, None),
        Err(PayError::ServiceNotFound)
    );
}
