use std::collections::HashMap;

use novabilling::contract::{ChargeOutcome, NovaBillingContract};
use novabilling::error::ContractError;
use novabilling::storage::ContractStorage;
use novabilling::types::{AccountId, SubscriptionStatus};

fn acct(name: &str) -> AccountId {
    AccountId::new(name.as_bytes().to_vec())
}

/// A stand-in for the host: the ledger clock, one token's balances and the
/// allowances granted to the billing ledger, and the ledger's state.
struct Host {
    now: u64,
    store: ContractStorage,
    balances: HashMap<Vec<u8>, i128>,
    allowances: HashMap<Vec<u8>, i128>,
}

impl Host {
    fn new() -> Host {
        let mut store = ContractStorage::new();
        assert_eq!(NovaBillingContract::set_admin(&mut store, acct("admin")), Ok(()));
        Host { now: 0, store, balances: HashMap::new(), allowances: HashMap::new() }
    }

    fn mint(&mut self, who: &AccountId, amount: i128) {
        *self.balances.entry(who.bytes.clone()).or_insert(0) += amount;
    }

    fn approve(&mut self, who: &AccountId, amount: i128) {
        self.allowances.insert(who.bytes.clone(), amount);
    }

    fn balance(&self, who: &AccountId) -> i128 {
        *self.balances.get(&who.bytes).unwrap_or(&0)
    }

    fn allowance(&self, who: &AccountId) -> i128 {
        *self.allowances.get(&who.bytes).unwrap_or(&0)
    }

    fn pull(&mut self, from: &AccountId, to: &AccountId, amount: i128) {
        assert!(self.balance(from) >= amount && self.allowance(from) >= amount);
        self.mint(from, -amount);
        self.mint(to, amount);
        let left = self.allowance(from) - amount;
        self.approve(from, left);
    }

    fn create_subscription(
        &mut self,
        subscriber: &AccountId,
        merchant: &AccountId,
        token: &AccountId,
        rate: i128,
        period: u64,
    ) -> Result<u32, ContractError> {
        let id = NovaBillingContract::create_subscription(
            &mut self.store,
            subscriber.clone(),
            merchant.clone(),
            token.clone(),
            rate,
            period,
            self.now,
        )?;
        let first = NovaBillingContract::first_cycle_transfer(&self.store, id).unwrap();
        self.pull(&first.from, &first.to, first.amount);
        Ok(id)
    }

    fn charge_subscription(&mut self, id: u32) -> Result<(), ContractError> {
        let sub = NovaBillingContract::charge_subscription(&self.store, id, self.now)?;
        let balance = self.balance(&sub.subscriber);
        let allowance = self.allowance(&sub.subscriber);
        match NovaBillingContract::settle_charge(&mut self.store, id, self.now, balance, allowance)
        {
            ChargeOutcome::Delinquent => {},
            ChargeOutcome::Charged(t) => self.pull(&t.from, &t.to, t.amount),
        }
        Ok(())
    }
}

fn funded_host() -> (Host, AccountId, AccountId, AccountId) {
    let mut host = Host::new();
    let subscriber = acct("subscriber");
    let merchant = acct("merchant");
    let token = acct("token");
    host.mint(&subscriber, 10000);
    host.approve(&subscriber, 10000);
    (host, subscriber, merchant, token)
}

#[test]
fn test_subscription_creation_and_first_charge() {
    let (mut host, subscriber, merchant, token) = funded_host();
    let period = 2592000;
    let sub_id = host.create_subscription(&subscriber, &merchant, &token, 15, period).unwrap();

    assert_eq!(host.balance(&subscriber), 9985);
    assert_eq!(host.balance(&merchant), 15);

    let sub = NovaBillingContract::get_subscription(&host.store, sub_id).unwrap();
    assert_eq!(sub.status, SubscriptionStatus::Active);
    assert_eq!(sub.last_charge_timestamp, host.now);
}

#[test]
fn test_successful_billing_cycle() {
    let (mut host, subscriber, merchant, token) = funded_host();
    let period = 2592000;
    let sub_id = host.create_subscription(&subscriber, &merchant, &token, 20, period).unwrap();

    let next_billing_time = host.now + period;
    host.now = next_billing_time;

    host.charge_subscription(sub_id).unwrap();

    assert_eq!(host.balance(&subscriber), 9960);
    assert_eq!(host.balance(&merchant), 40);

    let sub = NovaBillingContract::get_subscription(&host.store, sub_id).unwrap();
    assert_eq!(sub.last_charge_timestamp, next_billing_time);
}

#[test]
fn test_double_charge_protection() {
    let (mut host, subscriber, merchant, token) = funded_host();
    let period = 2592000;
    let sub_id = host.create_subscription(&subscriber, &merchant, &token, 20, period).unwrap();

    host.now += 1296000;

    let res = host.charge_subscription(sub_id);
    assert!(res.is_err());
    assert_eq!(res, Err(ContractError::BillingPeriodNotElapsed));
}

#[test]
fn test_delinquency_transition() {
    let mut host = Host::new();
    let subscriber = acct("subscriber");
    let merchant = acct("merchant");
    let token = acct("token");
    host.mint(&subscriber, 20);
    host.approve(&subscriber, 10000);

    let period = 2592000;
    let sub_id = host.create_subscription(&subscriber, &merchant, &token, 20, period).unwrap();

    host.now += period;

    host.charge_subscription(sub_id).unwrap();

    let sub = NovaBillingContract::get_subscription(&host.store, sub_id).unwrap();
    assert_eq!(sub.status, SubscriptionStatus::Delinquent);
}

#[test]
fn test_pause_and_cancel_controls() {
    let (mut host, subscriber, merchant, token) = funded_host();
    let period = 2592000;
    let sub_id = host.create_subscription(&subscriber, &merchant, &token, 20, period).unwrap();

    let who = NovaBillingContract::pause_subscription(&mut host.store, sub_id).unwrap();
    assert_eq!(who, subscriber);
    let sub = NovaBillingContract::get_subscription(&host.store, sub_id).unwrap();
    assert_eq!(sub.status, SubscriptionStatus::Paused);

    host.now += period;
    let charge_res = host.charge_subscription(sub_id);
    assert!(charge_res.is_err());

    NovaBillingContract::resume_subscription(&mut host.store, sub_id, host.now).unwrap();
    let resumed_sub = NovaBillingContract::get_subscription(&host.store, sub_id).unwrap();
    assert_eq!(resumed_sub.status, SubscriptionStatus::Active);

    NovaBillingContract::cancel_subscription(&mut host.store, subscriber.clone(), sub_id).unwrap();
    let cancelled_sub = NovaBillingContract::get_subscription(&host.store, sub_id).unwrap();
    assert_eq!(cancelled_sub.status, SubscriptionStatus::Cancelled);

    let charge_after_cancel = host.charge_subscription(sub_id);
    assert!(charge_after_cancel.is_err());
}
