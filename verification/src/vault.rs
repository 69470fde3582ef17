//! The collateral vault: how much each user has locked.
//!
//! The host moves the tokens; the vault keeps the account of what is
//! locked, refuses a withdrawal of more than that, and hands back the
//! notification that the bridge listens for.

use vstd::prelude::*;
use crate::identity::Identity;
use crate::store::IdentityMap;

verus! {

/// Why the vault refused an operation.
#[derive(Clone, Copy, Debug, PartialEq, Eq, Structural)]
pub enum VaultError {
    /// The user has less locked than was asked for.
    InsufficientCollateral,
    /// The new balance is beyond what a balance can hold.
    BalanceOverflow,
}

impl VaultError {
    /// The message with which the host fails on this error.
    pub fn message(&self) -> (text: &'static str)
        ensures
            text@ == match *self {
                VaultError::InsufficientCollateral => "Insufficient collateral locked!"@,
                VaultError::BalanceOverflow => "Balance out of range"@,
            },
    {
        match self {
            VaultError::InsufficientCollateral => "Insufficient collateral locked!",
            VaultError::BalanceOverflow => "Balance out of range",
        }
    }
}

/// The notification of a deposit: the bridge mints the same amount for
/// `destination` on the other ledger.
#[derive(Debug, PartialEq, Eq)]
pub struct Deposited {
    pub user: Identity,
    pub token: Identity,
    pub amount: i128,
    pub destination: String,
}

/// The notification of a withdrawal.
#[derive(Clone, Copy, Debug, PartialEq, Eq, Structural)]
pub struct Withdrawn {
    pub to: Identity,
    pub amount: i128,
}

/// The balance after `amount` is added to `current`.
pub open spec fn deposit_balance(current: i128, amount: i128) -> Result<i128, VaultError> {
    if i128::MIN <= current + amount <= i128::MAX {
        Ok((current + amount) as i128)
    } else {
        Err(VaultError::BalanceOverflow)
    }
}

/// The balance after `amount` is taken from `current`: no more can be
/// taken than is there.
pub open spec fn withdrawal_balance(current: i128, amount: i128) -> Result<i128, VaultError> {
    if amount > current {
        Err(VaultError::InsufficientCollateral)
    } else if current - amount > i128::MAX {
        Err(VaultError::BalanceOverflow)
    } else {
        Ok((current - amount) as i128)
    }
}

/// What `user` has locked according to `balances`: nothing, where the
/// vault holds no balance for them.
pub open spec fn locked_in(balances: Map<Identity, i128>, user: Identity) -> i128 {
    if balances.contains_key(user) {
        balances[user]
    } else {
        0
    }
}

/// Computes the balance after `amount` is added to `current`.
pub fn balance_after_deposit(current: i128, amount: i128) -> (result: Result<i128, VaultError>)
    ensures
        result == deposit_balance(current, amount),
{
    if amount >= 0 {
        if current > i128::MAX - amount {
            return Err(VaultError::BalanceOverflow);
        }
    } else {
        if current < i128::MIN - amount {
            return Err(VaultError::BalanceOverflow);
        }
    }
    Ok(current + amount)
}

/// Computes the balance after `amount` is taken from `current`.
pub fn balance_after_withdrawal(current: i128, amount: i128) -> (result: Result<i128, VaultError>)
    ensures
        result == withdrawal_balance(current, amount),
{
    if amount > current {
        return Err(VaultError::InsufficientCollateral);
    }
    if amount < 0 && current > i128::MAX + amount {
        return Err(VaultError::BalanceOverflow);
    }
    Ok(current - amount)
}

/// The collateral vault.
pub struct CollateralVault {
    balances: IdentityMap<i128>,
}

impl View for CollateralVault {
    type V = Map<Identity, i128>;

    /// The balance of each user for whom the vault holds one.
    closed spec fn view(&self) -> Map<Identity, i128> {
        self.balances@
    }
}

impl CollateralVault {
    /// The vault is consistent.
    pub closed spec fn inv(&self) -> bool {
        self.balances.inv()
    }

    /// Deploys the vault, with nothing locked.
    pub fn new() -> (vault: Self)
        ensures
            vault.inv(),
            vault@ == Map::<Identity, i128>::empty(),
    {
        CollateralVault { balances: IdentityMap::new() }
    }

    /// What `user` has locked.
    pub fn locked(&self, user: Identity) -> (amount: i128)
        requires
            self.inv(),
        ensures
            amount == locked_in(self@, user),
    {
        match self.balances.get(&user) {
            Some(balance) => *balance,
            None => 0,
        }
    }

    /// Adds `amount` of `token` to what `user` has locked, once the host
    /// has moved the tokens into the vault.
    pub fn deposit(
        &mut self,
        user: Identity,
        token: Identity,
        amount: i128,
        destination: String,
    ) -> (result: Result<Deposited, VaultError>)
        requires
            old(self).inv(),
        ensures
            final(self).inv(),
            match deposit_balance(locked_in(old(self)@, user), amount) {
                Ok(balance) => {
                    &&& final(self)@ == old(self)@.insert(user, balance)
                    &&& result matches Ok(notice)
                    &&& notice.user == user
                    &&& notice.token == token
                    &&& notice.amount == amount
                    &&& notice.destination@ == destination@
                },
                Err(e) => final(self)@ == old(self)@ && result == Err::<Deposited, VaultError>(e),
            },
    {
        let current = self.locked(user);
        let new_balance = match balance_after_deposit(current, amount) {
            Ok(balance) => balance,
            Err(e) => {
                return Err(e);
            },
        };
        self.balances.insert(user, new_balance);
        Ok(Deposited { user, token, amount, destination })
    }

    /// Takes `amount` from what `to` has locked, for the host to move the
    /// tokens back.
    pub fn withdraw(&mut self, to: Identity, token: Identity, amount: i128) -> (result: Result<
        Withdrawn,
        VaultError,
    >)
        requires
            old(self).inv(),
        ensures
            final(self).inv(),
            match withdrawal_balance(locked_in(old(self)@, to), amount) {
                Ok(balance) => final(self)@ == old(self)@.insert(to, balance) && result == Ok::<
                    Withdrawn,
                    VaultError,
                >(Withdrawn { to, amount }),
                Err(e) => final(self)@ == old(self)@ && result == Err::<Withdrawn, VaultError>(e),
            },
    {
        let current = self.locked(to);
        let new_balance = match balance_after_withdrawal(current, amount) {
            Ok(balance) => balance,
            Err(e) => {
                return Err(e);
            },
        };
        self.balances.insert(to, new_balance);
        Ok(Withdrawn { to, amount })
    }
}

} // verus!
