//! Payment receipts for registered services.
//!
//! An administrator registers services, each with a currency and the least
//! and the greatest amount it accepts, and may pause the contract. A
//! payment is accepted once per user, service and payment hash, while the
//! contract runs, the service is active, the currency is the service's and
//! the amount is within its limits. An accepted payment is recorded and
//! handed back for the host to announce.
//!
//! The host authenticates the caller and supplies the time; both reach the
//! contract as arguments. Where the contract refuses, it says why, and
//! the host fails with the error's message.

use vstd::prelude::*;
use crate::identity::Identity;
use crate::store::{KeyedStore, StoreKey};

verus! {

/// Why the contract refused an operation.
#[derive(Clone, Copy, Debug, PartialEq, Eq, Structural)]
pub enum PayError {
    /// The contract already has an administrator.
    AlreadyInitialized,
    /// The contract has no administrator yet.
    NotInitialized,
    /// The caller is not the administrator.
    Unauthorized,
    /// The contract is paused.
    Paused,
    /// The least amount of a service must be above zero.
    ZeroMinimum,
    /// The greatest amount of a service must not be below its least.
    MaximumBelowMinimum,
    /// No service is registered under this name.
    ServiceNotFound,
    /// The service is switched off.
    ServiceInactive,
    /// The payment is not in the service's currency.
    CurrencyMismatch,
    /// The amount is below the service's least amount.
    AmountBelowMinimum,
    /// The amount is above the service's greatest amount.
    AmountAboveMaximum,
    /// This payment was recorded before.
    PaymentAlreadyProcessed,
}

impl PayError {
    /// The message with which the host fails on this error.
    pub fn message(&self) -> (text: &'static str)
        ensures
            text@ == match *self {
                PayError::AlreadyInitialized => "Contract already initialized"@,
                PayError::NotInitialized => "Contract not initialized"@,
                PayError::Unauthorized => "Unauthorized: admin only"@,
                PayError::Paused => "Contract is paused"@,
                PayError::ZeroMinimum => "min_amount must be greater than 0"@,
                PayError::MaximumBelowMinimum => "max_amount must be greater than or equal to min_amount"@,
                PayError::ServiceNotFound => "Service not found"@,
                PayError::ServiceInactive => "Service is not active"@,
                PayError::CurrencyMismatch => "Currency mismatch"@,
                PayError::AmountBelowMinimum => "Amount below minimum"@,
                PayError::AmountAboveMaximum => "Amount above maximum"@,
                PayError::PaymentAlreadyProcessed => "Payment already processed"@,
            },
    {
        match self {
            PayError::AlreadyInitialized => "Contract already initialized",
            PayError::NotInitialized => "Contract not initialized",
            PayError::Unauthorized => "Unauthorized: admin only",
            PayError::Paused => "Contract is paused",
            PayError::ZeroMinimum => "min_amount must be greater than 0",
            PayError::MaximumBelowMinimum => "max_amount must be greater than or equal to min_amount",
            PayError::ServiceNotFound => "Service not found",
            PayError::ServiceInactive => "Service is not active",
            PayError::CurrencyMismatch => "Currency mismatch",
            PayError::AmountBelowMinimum => "Amount below minimum",
            PayError::AmountAboveMaximum => "Amount above maximum",
            PayError::PaymentAlreadyProcessed => "Payment already processed",
        }
    }
}

/// The length of a payment hash, in bytes.
pub const HASH_LENGTH: usize = 32;

/// Whether two payment hashes hold the same bytes.
pub fn same_hash(a: &[u8; 32], b: &[u8; 32]) -> (eq: bool)
    ensures
        eq == (a@ == b@),
{
    let mut i: usize = 0;
    while i < HASH_LENGTH
        invariant
            i <= HASH_LENGTH,
            forall|k: int| 0 <= k < i ==> a@[k] == b@[k],
        decreases HASH_LENGTH - i,
    {
        if a[i] != b[i] {
            return false;
        }
        i += 1;
    }
    assert(a@ =~= b@);
    true
}

/// The name of a service, or of a currency.
pub struct Name {
    pub text: String,
}

impl View for Name {
    type V = Seq<char>;

    open spec fn view(&self) -> Seq<char> {
        self.text@
    }
}

impl StoreKey for Name {
    fn same(&self, other: &Self) -> (eq: bool) {
        self.text == other.text
    }
}

/// What a service accepts.
#[derive(Debug, PartialEq, Eq)]
pub struct ServiceConfig {
    /// The name of the service.
    pub service_id: String,
    /// The least amount of a payment.
    pub min_amount: u64,
    /// The greatest amount of a payment.
    pub max_amount: u64,
    /// The currency of its payments.
    pub currency: String,
    /// Whether the service takes payments.
    pub is_active: bool,
}

/// What a `ServiceConfig` holds, as plain values.
pub struct ServiceConfigView {
    pub service_id: Seq<char>,
    pub min_amount: u64,
    pub max_amount: u64,
    pub currency: Seq<char>,
    pub is_active: bool,
}

impl View for ServiceConfig {
    type V = ServiceConfigView;

    open spec fn view(&self) -> ServiceConfigView {
        ServiceConfigView {
            service_id: self.service_id@,
            min_amount: self.min_amount,
            max_amount: self.max_amount,
            currency: self.currency@,
            is_active: self.is_active,
        }
    }
}

impl Clone for ServiceConfig {
    fn clone(&self) -> (copy: Self)
        ensures
            copy@ == self@,
    {
        ServiceConfig {
            service_id: self.service_id.clone(),
            min_amount: self.min_amount,
            max_amount: self.max_amount,
            currency: self.currency.clone(),
            is_active: self.is_active,
        }
    }
}

/// A recorded payment.
#[derive(Debug, PartialEq, Eq)]
pub struct Payment {
    /// Who paid.
    pub user: Identity,
    /// The service paid for.
    pub service_id: String,
    /// The amount.
    pub amount: u64,
    /// The currency.
    pub currency: String,
    /// The host time at which the payment was recorded.
    pub timestamp: u64,
    /// The hash that tells this payment from the user's others.
    pub payment_hash: [u8; 32],
}

/// What a `Payment` holds, as plain values.
pub struct PaymentView {
    pub user: Identity,
    pub service_id: Seq<char>,
    pub amount: u64,
    pub currency: Seq<char>,
    pub timestamp: u64,
    pub payment_hash: Seq<u8>,
}

impl View for Payment {
    type V = PaymentView;

    open spec fn view(&self) -> PaymentView {
        PaymentView {
            user: self.user,
            service_id: self.service_id@,
            amount: self.amount,
            currency: self.currency@,
            timestamp: self.timestamp,
            payment_hash: self.payment_hash@,
        }
    }
}

impl Clone for Payment {
    fn clone(&self) -> (copy: Self)
        ensures
            copy@ == self@,
    {
        Payment {
            user: self.user,
            service_id: self.service_id.clone(),
            amount: self.amount,
            currency: self.currency.clone(),
            timestamp: self.timestamp,
            payment_hash: self.payment_hash,
        }
    }
}

/// What tells one payment from another: the user, the service and the
/// payment hash.
pub struct PaymentKey {
    pub user: Identity,
    pub service_id: String,
    pub payment_hash: [u8; 32],
}

/// What a `PaymentKey` holds, as plain values.
pub struct PaymentKeyView {
    pub user: Identity,
    pub service_id: Seq<char>,
    pub payment_hash: Seq<u8>,
}

impl View for PaymentKey {
    type V = PaymentKeyView;

    open spec fn view(&self) -> PaymentKeyView {
        PaymentKeyView {
            user: self.user,
            service_id: self.service_id@,
            payment_hash: self.payment_hash@,
        }
    }
}

impl StoreKey for PaymentKey {
    fn same(&self, other: &Self) -> (eq: bool) {
        self.user == other.user && self.service_id == other.service_id && same_hash(
            &self.payment_hash,
            &other.payment_hash,
        )
    }
}

/// The services of `m`, each as plain values.
pub open spec fn service_views(m: Map<Seq<char>, ServiceConfig>) -> Map<
    Seq<char>,
    ServiceConfigView,
> {
    Map::new(|id: Seq<char>| m.contains_key(id), |id: Seq<char>| m[id]@)
}

/// The payments of `m`, each as plain values.
pub open spec fn payment_views(m: Map<PaymentKeyView, Payment>) -> Map<
    PaymentKeyView,
    PaymentView,
> {
    Map::new(|key: PaymentKeyView| m.contains_key(key), |key: PaymentKeyView| m[key]@)
}

/// The text of an optional name.
pub open spec fn optional_text(name: Option<String>) -> Option<Seq<char>> {
    match name {
        Some(text) => Some(text@),
        None => None,
    }
}

/// What an initialisation comes to, given whether the contract has an
/// administrator already.
pub open spec fn initialize_rule(already_initialized: bool) -> Result<(), PayError> {
    if already_initialized {
        Err(PayError::AlreadyInitialized)
    } else {
        Ok(())
    }
}

/// Whether a caller passes as the administrator, given whether the
/// contract has one and whether the caller is that one.
pub open spec fn admin_rule(initialized: bool, caller_is_admin: bool) -> Result<(), PayError> {
    if !initialized {
        Err(PayError::NotInitialized)
    } else if !caller_is_admin {
        Err(PayError::Unauthorized)
    } else {
        Ok(())
    }
}

/// Whether the contract runs, given whether it is paused.
pub open spec fn running_rule(paused: bool) -> Result<(), PayError> {
    if paused {
        Err(PayError::Paused)
    } else {
        Ok(())
    }
}

/// Whether a service may have these limits: the least amount is above
/// zero, and the greatest is not below it.
pub open spec fn limits_rule(min_amount: u64, max_amount: u64) -> Result<(), PayError> {
    if min_amount == 0 {
        Err(PayError::ZeroMinimum)
    } else if max_amount < min_amount {
        Err(PayError::MaximumBelowMinimum)
    } else {
        Ok(())
    }
}

/// The service `config` with the given parts replaced.
pub open spec fn updated_config(
    config: ServiceConfigView,
    min_amount: Option<u64>,
    max_amount: Option<u64>,
    currency: Option<Seq<char>>,
    is_active: Option<bool>,
) -> ServiceConfigView {
    ServiceConfigView {
        service_id: config.service_id,
        min_amount: match min_amount {
            Some(min) => min,
            None => config.min_amount,
        },
        max_amount: match max_amount {
            Some(max) => max,
            None => config.max_amount,
        },
        currency: match currency {
            Some(text) => text,
            None => config.currency,
        },
        is_active: match is_active {
            Some(active) => active,
            None => config.is_active,
        },
    }
}

/// Whether a service may be updated with these limits, given the service
/// as it stands, if it is registered. There must be one. A new least
/// amount must be above zero. A new greatest amount is held against the
/// least amount as it stands after the update; a new least amount alone is
/// not held against the greatest.
pub open spec fn update_rule(
    service: Option<ServiceConfigView>,
    min_amount: Option<u64>,
    max_amount: Option<u64>,
) -> Result<(), PayError> {
    match service {
        None => Err(PayError::ServiceNotFound),
        Some(config) => if min_amount == Some(0u64) {
            Err(PayError::ZeroMinimum)
        } else if max_amount is Some && max_amount->Some_0 < (match min_amount {
            Some(min) => min,
            None => config.min_amount,
        }) {
            Err(PayError::MaximumBelowMinimum)
        } else {
            Ok(())
        },
    }
}

/// What an optional service holds, as plain values.
pub open spec fn optional_service(service: Option<ServiceConfig>) -> Option<ServiceConfigView> {
    match service {
        Some(config) => Some(config@),
        None => None,
    }
}

/// Whether a payment is accepted, given whether the contract is paused,
/// the service it names, if that is registered, and whether the same
/// payment was recorded before. It is, unless one of these applies, of
/// which the first is reported: the contract is paused; there is no such
/// service; the service is switched off; the currency is not the
/// service's; the amount is below its least; the amount is above its
/// greatest; the payment was recorded before.
pub open spec fn payment_rule(
    paused: bool,
    service: Option<ServiceConfigView>,
    amount: u64,
    currency: Seq<char>,
    already_recorded: bool,
) -> Result<(), PayError> {
    if paused {
        Err(PayError::Paused)
    } else {
        match service {
            None => Err(PayError::ServiceNotFound),
            Some(config) => if !config.is_active {
                Err(PayError::ServiceInactive)
            } else if config.currency != currency {
                Err(PayError::CurrencyMismatch)
            } else if amount < config.min_amount {
                Err(PayError::AmountBelowMinimum)
            } else if amount > config.max_amount {
                Err(PayError::AmountAboveMaximum)
            } else if already_recorded {
                Err(PayError::PaymentAlreadyProcessed)
            } else {
                Ok(())
            },
        }
    }
}

/// Decides an initialisation.
pub fn check_initialize(already_initialized: bool) -> (result: Result<(), PayError>)
    ensures
        result == initialize_rule(already_initialized),
{
    if already_initialized {
        Err(PayError::AlreadyInitialized)
    } else {
        Ok(())
    }
}

/// Decides whether a caller passes as the administrator.
pub fn check_admin(initialized: bool, caller_is_admin: bool) -> (result: Result<(), PayError>)
    ensures
        result == admin_rule(initialized, caller_is_admin),
{
    if !initialized {
        return Err(PayError::NotInitialized);
    }
    if !caller_is_admin {
        return Err(PayError::Unauthorized);
    }
    Ok(())
}

/// Decides whether the contract runs.
pub fn check_not_paused(paused: bool) -> (result: Result<(), PayError>)
    ensures
        result == running_rule(paused),
{
    if paused {
        Err(PayError::Paused)
    } else {
        Ok(())
    }
}

/// Decides whether a service may have these limits.
pub fn check_limits(min_amount: u64, max_amount: u64) -> (result: Result<(), PayError>)
    ensures
        result == limits_rule(min_amount, max_amount),
{
    if min_amount == 0 {
        return Err(PayError::ZeroMinimum);
    }
    if max_amount < min_amount {
        return Err(PayError::MaximumBelowMinimum);
    }
    Ok(())
}

/// Replaces the given parts of a service, where there is one and the new
/// limits pass.
pub fn apply_update(
    service: Option<ServiceConfig>,
    min_amount: Option<u64>,
    max_amount: Option<u64>,
    currency: Option<String>,
    is_active: Option<bool>,
) -> (result: Result<ServiceConfig, PayError>)
    ensures
        match result {
            Ok(updated) => {
                &&& update_rule(optional_service(service), min_amount, max_amount) is Ok
                &&& service matches Some(config)
                &&& updated@ == updated_config(
                    config@,
                    min_amount,
                    max_amount,
                    optional_text(currency),
                    is_active,
                )
            },
            Err(e) => update_rule(optional_service(service), min_amount, max_amount) == Err::<
                (),
                PayError,
            >(e),
        },
{
    let mut config = match service {
        Some(config) => config,
        None => {
            return Err(PayError::ServiceNotFound);
        },
    };
    if let Some(min) = min_amount {
        if min == 0 {
            return Err(PayError::ZeroMinimum);
        }
        config.min_amount = min;
    }
    if let Some(max) = max_amount {
        if max < config.min_amount {
            return Err(PayError::MaximumBelowMinimum);
        }
        config.max_amount = max;
    }
    if let Some(text) = currency {
        config.currency = text;
    }
    if let Some(active) = is_active {
        config.is_active = active;
    }
    Ok(config)
}

/// Decides whether a payment is accepted.
pub fn check_payment(
    paused: bool,
    service: Option<&ServiceConfig>,
    amount: u64,
    currency: &String,
    already_recorded: bool,
) -> (result: Result<(), PayError>)
    ensures
        result == payment_rule(
            paused,
            match service {
                Some(config) => Some(config@),
                None => None,
            },
            amount,
            currency@,
            already_recorded,
        ),
{
    check_not_paused(paused)?;
    let config = match service {
        Some(config) => config,
        None => {
            return Err(PayError::ServiceNotFound);
        },
    };
    if !config.is_active {
        return Err(PayError::ServiceInactive);
    }
    if config.currency != *currency {
        return Err(PayError::CurrencyMismatch);
    }
    if amount < config.min_amount {
        return Err(PayError::AmountBelowMinimum);
    }
    if amount > config.max_amount {
        return Err(PayError::AmountAboveMaximum);
    }
    if already_recorded {
        return Err(PayError::PaymentAlreadyProcessed);
    }
    Ok(())
}

/// The state of the contract, as plain values.
pub struct PayStampState {
    /// The administrator, once the contract is initialised.
    pub admin: Option<Identity>,
    /// Whether the contract is paused.
    pub paused: bool,
    /// The registered services, by name.
    pub services: Map<Seq<char>, ServiceConfigView>,
    /// The recorded payments.
    pub payments: Map<PaymentKeyView, PaymentView>,
}

impl PayStampState {
    /// The state of a contract that was just deployed.
    pub open spec fn deployed() -> PayStampState {
        PayStampState { admin: None, paused: false, services: Map::empty(), payments: Map::empty() }
    }

    /// The invariants of the contract: a service is stored under its own
    /// name, and a payment under its own user, service and hash.
    pub open spec fn wf(self) -> bool {
        &&& forall|id: Seq<char>| #[trigger]
            self.services.contains_key(id) ==> self.services[id].service_id == id
        &&& forall|key: PaymentKeyView| #[trigger]
            self.payments.contains_key(key) ==> {
                &&& self.payments[key].user == key.user
                &&& self.payments[key].service_id == key.service_id
                &&& self.payments[key].payment_hash == key.payment_hash
            }
    }

    /// What `initialize` returns.
    pub open spec fn initialize_result(self) -> Result<(), PayError> {
        initialize_rule(self.admin is Some)
    }

    /// The state after `initialize`: with the administrator, and running,
    /// where it succeeds; unchanged where it refuses.
    pub open spec fn initialize(self, admin: Identity) -> PayStampState {
        match self.initialize_result() {
            Ok(_) => PayStampState { admin: Some(admin), paused: false, ..self },
            Err(_) => self,
        }
    }

    /// Whether `caller` passes as the administrator.
    pub open spec fn check_admin(self, caller: Identity) -> Result<(), PayError> {
        admin_rule(self.admin is Some, self.admin == Some(caller))
    }

    /// Whether the contract runs.
    pub open spec fn check_not_paused(self) -> Result<(), PayError> {
        running_rule(self.paused)
    }

    /// The state after `pause` or `unpause` by `caller`.
    pub open spec fn set_paused(self, caller: Identity, paused: bool) -> PayStampState {
        match self.check_admin(caller) {
            Ok(_) => PayStampState { paused, ..self },
            Err(_) => self,
        }
    }

    /// What `register_service` returns.
    pub open spec fn register_service_result(
        self,
        caller: Identity,
        min_amount: u64,
        max_amount: u64,
    ) -> Result<(), PayError> {
        if self.check_admin(caller) is Err {
            self.check_admin(caller)
        } else if self.check_not_paused() is Err {
            self.check_not_paused()
        } else {
            limits_rule(min_amount, max_amount)
        }
    }

    /// The state after `register_service`: the service is stored, active,
    /// in place of one of the same name, where it succeeds.
    pub open spec fn register_service(
        self,
        caller: Identity,
        service_id: Seq<char>,
        min_amount: u64,
        max_amount: u64,
        currency: Seq<char>,
    ) -> PayStampState {
        match self.register_service_result(caller, min_amount, max_amount) {
            Ok(_) => PayStampState {
                services: self.services.insert(
                    service_id,
                    ServiceConfigView {
                        service_id,
                        min_amount,
                        max_amount,
                        currency,
                        is_active: true,
                    },
                ),
                ..self
            },
            Err(_) => self,
        }
    }

    /// What `update_service` returns.
    pub open spec fn update_service_result(
        self,
        caller: Identity,
        service_id: Seq<char>,
        min_amount: Option<u64>,
        max_amount: Option<u64>,
    ) -> Result<(), PayError> {
        if self.check_admin(caller) is Err {
            self.check_admin(caller)
        } else if self.check_not_paused() is Err {
            self.check_not_paused()
        } else {
            update_rule(self.service(service_id), min_amount, max_amount)
        }
    }

    /// The state after `update_service`: with the given parts of the
    /// service replaced, where it succeeds.
    pub open spec fn update_service(
        self,
        caller: Identity,
        service_id: Seq<char>,
        min_amount: Option<u64>,
        max_amount: Option<u64>,
        currency: Option<Seq<char>>,
        is_active: Option<bool>,
    ) -> PayStampState {
        match self.update_service_result(caller, service_id, min_amount, max_amount) {
            Ok(_) => PayStampState {
                services: self.services.insert(
                    service_id,
                    updated_config(
                        self.services[service_id],
                        min_amount,
                        max_amount,
                        currency,
                        is_active,
                    ),
                ),
                ..self
            },
            Err(_) => self,
        }
    }

    /// The service registered under `service_id`, if there is one.
    pub open spec fn service(self, service_id: Seq<char>) -> Option<ServiceConfigView> {
        if self.services.contains_key(service_id) {
            Some(self.services[service_id])
        } else {
            None
        }
    }

    /// Whether `receive_payment` accepts a payment, or why it refuses.
    pub open spec fn payment_result(
        self,
        user: Identity,
        service_id: Seq<char>,
        amount: u64,
        currency: Seq<char>,
        payment_hash: Seq<u8>,
    ) -> Result<(), PayError> {
        payment_rule(
            self.paused,
            self.service(service_id),
            amount,
            currency,
            self.payments.contains_key(PaymentKeyView { user, service_id, payment_hash }),
        )
    }

    /// The state after `receive_payment`: with the payment recorded where
    /// it is accepted.
    pub open spec fn receive_payment(
        self,
        user: Identity,
        service_id: Seq<char>,
        amount: u64,
        currency: Seq<char>,
        payment_hash: Seq<u8>,
        now: u64,
    ) -> PayStampState {
        match self.payment_result(user, service_id, amount, currency, payment_hash) {
            Ok(_) => PayStampState {
                payments: self.payments.insert(
                    PaymentKeyView { user, service_id, payment_hash },
                    PaymentView {
                        user,
                        service_id,
                        amount,
                        currency,
                        timestamp: now,
                        payment_hash,
                    },
                ),
                ..self
            },
            Err(_) => self,
        }
    }
}

/// The payment contract.
pub struct PayStampContract {
    admin: Option<Identity>,
    paused: bool,
    services: KeyedStore<Name, ServiceConfig>,
    payments: KeyedStore<PaymentKey, Payment>,
}

impl View for PayStampContract {
    type V = PayStampState;

    closed spec fn view(&self) -> PayStampState {
        PayStampState {
            admin: self.admin,
            paused: self.paused,
            services: service_views(self.services@),
            payments: payment_views(self.payments@),
        }
    }
}

impl PayStampContract {
    /// The contract is consistent: its state is well formed.
    pub closed spec fn inv(&self) -> bool {
        &&& self.services.inv()
        &&& self.payments.inv()
        &&& self@.wf()
    }

    /// A consistent contract has a well-formed state.
    pub proof fn lemma_inv_wf(&self)
        requires
            self.inv(),
        ensures
            self@.wf(),
    {
    }

    /// Deploys the contract: no administrator, running, nothing stored.
    pub fn new() -> (contract: Self)
        ensures
            contract.inv(),
            contract@.wf(),
            contract@ == PayStampState::deployed(),
    {
        let contract = PayStampContract {
            admin: None,
            paused: false,
            services: KeyedStore::new(),
            payments: KeyedStore::new(),
        };
        assert(contract@.services =~= Map::<Seq<char>, ServiceConfigView>::empty());
        assert(contract@.payments =~= Map::<PaymentKeyView, PaymentView>::empty());
        contract
    }

    /// Makes `admin` the administrator and lets the contract run. It
    /// succeeds once; later calls fail with `AlreadyInitialized`.
    pub fn initialize(&mut self, admin: Identity) -> (result: Result<(), PayError>)
        requires
            old(self).inv(),
        ensures
            final(self).inv(),
            final(self)@.wf(),
            result == old(self)@.initialize_result(),
            final(self)@ == old(self)@.initialize(admin),
    {
        check_initialize(self.admin.is_some())?;
        self.admin = Some(admin);
        self.paused = false;
        Ok(())
    }

    /// Whether the contract is paused.
    pub fn is_paused(&self) -> (paused: bool)
        ensures
            paused == self@.paused,
    {
        self.paused
    }

    /// Whether `caller` passes as the administrator.
    pub fn check_admin(&self, caller: Identity) -> (result: Result<(), PayError>)
        ensures
            result == self@.check_admin(caller),
    {
        match self.admin {
            None => check_admin(false, false),
            Some(admin) => check_admin(true, caller == admin),
        }
    }

    /// Whether the contract runs.
    pub fn check_not_paused(&self) -> (result: Result<(), PayError>)
        ensures
            result == self@.check_not_paused(),
    {
        check_not_paused(self.is_paused())
    }

    /// Pauses the contract; only the administrator may.
    pub fn pause(&mut self, caller: Identity) -> (result: Result<(), PayError>)
        requires
            old(self).inv(),
        ensures
            final(self).inv(),
            final(self)@.wf(),
            result == old(self)@.check_admin(caller),
            final(self)@ == old(self)@.set_paused(caller, true),
    {
        self.check_admin(caller)?;
        self.paused = true;
        Ok(())
    }

    /// Lets the contract run again; only the administrator may.
    pub fn unpause(&mut self, caller: Identity) -> (result: Result<(), PayError>)
        requires
            old(self).inv(),
        ensures
            final(self).inv(),
            final(self)@.wf(),
            result == old(self)@.check_admin(caller),
            final(self)@ == old(self)@.set_paused(caller, false),
    {
        self.check_admin(caller)?;
        self.paused = false;
        Ok(())
    }

    /// Registers a service, active, in place of one of the same name; only
    /// the administrator may, while the contract runs.
    pub fn register_service(
        &mut self,
        caller: Identity,
        service_id: String,
        min_amount: u64,
        max_amount: u64,
        currency: String,
    ) -> (result: Result<(), PayError>)
        requires
            old(self).inv(),
        ensures
            final(self).inv(),
            final(self)@.wf(),
            result == old(self)@.register_service_result(caller, min_amount, max_amount),
            final(self)@ == old(self)@.register_service(
                caller,
                service_id@,
                min_amount,
                max_amount,
                currency@,
            ),
    {
        self.check_admin(caller)?;
        self.check_not_paused()?;
        check_limits(min_amount, max_amount)?;
        let config = ServiceConfig {
            service_id: service_id.clone(),
            min_amount,
            max_amount,
            currency,
            is_active: true,
        };
        self.services.insert(Name { text: service_id }, config);
        assert(self@.services =~= old(self)@.services.insert(service_id@, config@));
        assert(self@.payments =~= old(self)@.payments);
        Ok(())
    }

    /// Replaces the given parts of a service; only the administrator may,
    /// while the contract runs.
    pub fn update_service(
        &mut self,
        caller: Identity,
        service_id: String,
        min_amount: Option<u64>,
        max_amount: Option<u64>,
        currency: Option<String>,
        is_active: Option<bool>,
    ) -> (result: Result<(), PayError>)
        requires
            old(self).inv(),
        ensures
            final(self).inv(),
            final(self)@.wf(),
            result == old(self)@.update_service_result(
                caller,
                service_id@,
                min_amount,
                max_amount,
            ),
            final(self)@ == old(self)@.update_service(
                caller,
                service_id@,
                min_amount,
                max_amount,
                optional_text(currency),
                is_active,
            ),
    {
        self.check_admin(caller)?;
        self.check_not_paused()?;
        let key = Name { text: service_id };
        let found = match self.services.get(&key) {
            Some(found) => Some(found.clone()),
            None => None,
        };
        let config = apply_update(found, min_amount, max_amount, currency, is_active)?;
        self.services.insert(key, config);
        assert(self@.services =~= old(self)@.services.insert(service_id@, config@));
        assert(self@.payments =~= old(self)@.payments);
        Ok(())
    }

    /// Records a payment of `user` for a service and hands it back for the
    /// host to announce. `now` is the host's time.
    pub fn receive_payment(
        &mut self,
        user: Identity,
        service_id: String,
        amount: u64,
        currency: String,
        payment_hash: [u8; 32],
        now: u64,
    ) -> (result: Result<Payment, PayError>)
        requires
            old(self).inv(),
        ensures
            final(self).inv(),
            final(self)@.wf(),
            final(self)@ == old(self)@.receive_payment(
                user,
                service_id@,
                amount,
                currency@,
                payment_hash@,
                now,
            ),
            match result {
                Ok(payment) => {
                    &&& old(self)@.payment_result(
                        user,
                        service_id@,
                        amount,
                        currency@,
                        payment_hash@,
                    ) is Ok
                    &&& payment@ == PaymentView {
                        user,
                        service_id: service_id@,
                        amount,
                        currency: currency@,
                        timestamp: now,
                        payment_hash: payment_hash@,
                    }
                },
                Err(e) => old(self)@.payment_result(
                    user,
                    service_id@,
                    amount,
                    currency@,
                    payment_hash@,
                ) == Err::<(), PayError>(e),
            },
    {
        let name = Name { text: service_id.clone() };
        let key = PaymentKey { user, service_id: service_id.clone(), payment_hash };
        let already_recorded = self.payments.contains(&key);
        check_payment(self.paused, self.services.get(&name), amount, &currency, already_recorded)?;
        let payment = Payment {
            user,
            service_id,
            amount,
            currency,
            timestamp: now,
            payment_hash,
        };
        let receipt = payment.clone();
        self.payments.insert(key, payment);
        assert(self@.payments =~= old(self)@.payments.insert(key@, payment@));
        assert(self@.services =~= old(self)@.services);
        Ok(receipt)
    }

    /// Whether this payment was recorded.
    pub fn payment_exists(&self, user: Identity, service_id: String, payment_hash: [u8; 32]) -> (exists:
        bool)
        requires
            self.inv(),
        ensures
            exists == self@.payments.contains_key(
                PaymentKeyView { user, service_id: service_id@, payment_hash: payment_hash@ },
            ),
    {
        let key = PaymentKey { user, service_id, payment_hash };
        self.payments.contains(&key)
    }

    /// The recorded payment, if there is one.
    pub fn get_payment(&self, user: Identity, service_id: String, payment_hash: [u8; 32]) -> (found:
        Option<Payment>)
        requires
            self.inv(),
        ensures
            ({
                let key = PaymentKeyView {
                    user,
                    service_id: service_id@,
                    payment_hash: payment_hash@,
                };
                match found {
                    Some(payment) => self@.payments.contains_key(key) && payment@
                        == self@.payments[key],
                    None => !self@.payments.contains_key(key),
                }
            }),
    {
        let key = PaymentKey { user, service_id, payment_hash };
        match self.payments.get(&key) {
            Some(payment) => Some(payment.clone()),
            None => None,
        }
    }

    /// The service registered under `service_id`, if there is one.
    pub fn get_service(&self, service_id: String) -> (found: Option<ServiceConfig>)
        requires
            self.inv(),
        ensures
            match found {
                Some(config) => self@.services.contains_key(service_id@) && config@
                    == self@.services[service_id@],
                None => !self@.services.contains_key(service_id@),
            },
    {
        let key = Name { text: service_id };
        match self.services.get(&key) {
            Some(config) => Some(config.clone()),
            None => None,
        }
    }

    /// The administrator, once the contract is initialised.
    pub fn get_admin(&self) -> (admin: Option<Identity>)
        ensures
            admin == self@.admin,
    {
        self.admin
    }
}

} // verus!
