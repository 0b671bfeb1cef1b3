use novabilling::contract::{ChargeOutcome, NovaBillingContract};
use novabilling::error::ContractError;
use novabilling::helper::is_billing_period_elapsed;
use novabilling::storage::{
    add_merchant_subscription, add_subscriber_subscription, get_admin, get_merchant_subscriptions,
    get_subscriber_subscriptions, get_subscription, get_total_subscriptions,
    increment_total_subscriptions, set_admin, set_subscription, ContractStorage,
};
use novabilling::types::{AccountId, Subscription, SubscriptionStatus, Transfer};

const PERIOD: u64 = 2592000;

fn acct(name: &str) -> AccountId {
    AccountId::new(name.as_bytes().to_vec())
}

fn store_with_one(rate: i128, now: u64) -> (ContractStorage, u32) {
    let mut store = ContractStorage::new();
    let id = NovaBillingContract::create_subscription(
        &mut store,
        acct("alice"),
        acct("shop"),
        acct("usdc"),
        rate,
        PERIOD,
        now,
    )
    .unwrap();
    (store, id)
}

fn status(store: &ContractStorage, id: u32) -> SubscriptionStatus {
    NovaBillingContract::get_subscription(store, id).unwrap().status
}

#[test]
fn invalid_billing_parameters_are_refused() {
    let mut store = ContractStorage::new();
    for (rate, period) in [(0i128, PERIOD), (-5, PERIOD), (10, 0), (0, 0)] {
        let r = NovaBillingContract::create_subscription(
            &mut store,
            acct("alice"),
            acct("shop"),
            acct("usdc"),
            rate,
            period,
            7,
        );
        assert_eq!(r, Err(ContractError::InvalidBillingParameters));
    }
    assert_eq!(get_total_subscriptions(&store), 0);
    assert!(NovaBillingContract::get_subscription(&store, 1).is_none());
    assert!(NovaBillingContract::get_subscriber_subscriptions(&store, acct("alice")).is_empty());
}

#[test]
fn ids_are_sequential_and_listed_per_account() {
    let mut store = ContractStorage::new();
    let a = NovaBillingContract::create_subscription(
        &mut store, acct("alice"), acct("shop"), acct("usdc"), 5, PERIOD, 100,
    )
    .unwrap();
    let b = NovaBillingContract::create_subscription(
        &mut store, acct("alice"), acct("news"), acct("usdc"), 7, 60, 200,
    )
    .unwrap();
    let c = NovaBillingContract::create_subscription(
        &mut store, acct("bob"), acct("shop"), acct("usdc"), 9, 60, 300,
    )
    .unwrap();
    assert_eq!((a, b, c), (1, 2, 3));
    assert_eq!(get_total_subscriptions(&store), 3);
    assert_eq!(NovaBillingContract::get_subscriber_subscriptions(&store, acct("alice")), vec![1, 2]);
    assert_eq!(NovaBillingContract::get_subscriber_subscriptions(&store, acct("bob")), vec![3]);
    assert_eq!(NovaBillingContract::get_merchant_subscriptions(&store, acct("shop")), vec![1, 3]);
    assert_eq!(NovaBillingContract::get_merchant_subscriptions(&store, acct("news")), vec![2]);
    assert!(NovaBillingContract::get_merchant_subscriptions(&store, acct("carol")).is_empty());

    let sub = NovaBillingContract::get_subscription(&store, 2).unwrap();
    assert_eq!(
        sub,
        Subscription {
            subscriber: acct("alice"),
            merchant: acct("news"),
            token: acct("usdc"),
            rate: 7,
            period: 60,
            last_charge_timestamp: 200,
            status: SubscriptionStatus::Active,
        }
    );
}

#[test]
fn a_subscriber_may_pay_itself() {
    let mut store = ContractStorage::new();
    let id = NovaBillingContract::create_subscription(
        &mut store, acct("alice"), acct("alice"), acct("usdc"), 5, 10, 0,
    )
    .unwrap();
    assert_eq!(NovaBillingContract::get_subscriber_subscriptions(&store, acct("alice")), vec![id]);
    assert_eq!(NovaBillingContract::get_merchant_subscriptions(&store, acct("alice")), vec![id]);
}

#[test]
fn charge_of_unknown_subscription_is_refused() {
    let (store, _) = store_with_one(20, 0);
    assert_eq!(
        NovaBillingContract::charge_subscription(&store, 2, PERIOD),
        Err(ContractError::SubscriptionNotFound)
    );
    assert_eq!(
        NovaBillingContract::charge_subscription(&store, 0, PERIOD),
        Err(ContractError::SubscriptionNotFound)
    );
}

#[test]
fn charge_is_due_exactly_one_period_after_the_last() {
    let (store, id) = store_with_one(20, 1000);
    assert_eq!(
        NovaBillingContract::charge_subscription(&store, id, 1000 + PERIOD - 1),
        Err(ContractError::BillingPeriodNotElapsed)
    );
    assert_eq!(
        NovaBillingContract::charge_subscription(&store, id, 999),
        Err(ContractError::BillingPeriodNotElapsed)
    );
    let due = NovaBillingContract::charge_subscription(&store, id, 1000 + PERIOD).unwrap();
    assert_eq!(due.rate, 20);
    assert!(NovaBillingContract::charge_subscription(&store, id, u64::MAX).is_ok());
}

#[test]
fn billing_period_elapsed_values() {
    assert!(is_billing_period_elapsed(10, 4, 6));
    assert!(!is_billing_period_elapsed(9, 4, 6));
    assert!(is_billing_period_elapsed(11, 4, 6));
    assert!(!is_billing_period_elapsed(0, 1, 0));
    assert!(is_billing_period_elapsed(u64::MAX, u64::MAX - 1, 1));
    // a billing date beyond the clock's range is never reached
    assert!(!is_billing_period_elapsed(u64::MAX, u64::MAX, 1));
    assert!(!is_billing_period_elapsed(u64::MAX, 1, u64::MAX));
    assert!(!is_billing_period_elapsed(5, 10, u64::MAX));
}

#[test]
fn charge_with_a_billing_date_beyond_the_clock_is_never_due() {
    let mut store = ContractStorage::new();
    let id = NovaBillingContract::create_subscription(
        &mut store, acct("alice"), acct("shop"), acct("usdc"), 5, u64::MAX, 10,
    )
    .unwrap();
    assert_eq!(
        NovaBillingContract::charge_subscription(&store, id, u64::MAX),
        Err(ContractError::BillingPeriodNotElapsed)
    );
}

#[test]
fn paid_charge_moves_the_rate_and_the_billing_date() {
    let (mut store, id) = store_with_one(20, 0);
    NovaBillingContract::charge_subscription(&store, id, PERIOD + 5).unwrap();
    let outcome = NovaBillingContract::settle_charge(&mut store, id, PERIOD + 5, 20, 20);
    assert_eq!(
        outcome,
        ChargeOutcome::Charged(Transfer {
            token: acct("usdc"),
            from: acct("alice"),
            to: acct("shop"),
            amount: 20,
        })
    );
    let sub = NovaBillingContract::get_subscription(&store, id).unwrap();
    assert_eq!(sub.last_charge_timestamp, PERIOD + 5);
    assert_eq!(sub.status, SubscriptionStatus::Active);
    // no double charge before a whole period more
    assert_eq!(
        NovaBillingContract::charge_subscription(&store, id, 2 * PERIOD + 4),
        Err(ContractError::BillingPeriodNotElapsed)
    );
    assert!(NovaBillingContract::charge_subscription(&store, id, 2 * PERIOD + 5).is_ok());
}

#[test]
fn short_funds_make_the_subscription_delinquent_and_retry_recovers() {
    let (mut store, id) = store_with_one(20, 0);
    // balance short
    NovaBillingContract::charge_subscription(&store, id, PERIOD).unwrap();
    assert_eq!(
        NovaBillingContract::settle_charge(&mut store, id, PERIOD, 19, 1000),
        ChargeOutcome::Delinquent
    );
    let sub = NovaBillingContract::get_subscription(&store, id).unwrap();
    assert_eq!(sub.status, SubscriptionStatus::Delinquent);
    assert_eq!(sub.last_charge_timestamp, 0);
    // allowance short, still delinquent, still due
    NovaBillingContract::charge_subscription(&store, id, PERIOD + 10).unwrap();
    assert_eq!(
        NovaBillingContract::settle_charge(&mut store, id, PERIOD + 10, 1000, 19),
        ChargeOutcome::Delinquent
    );
    // funded retry
    NovaBillingContract::charge_subscription(&store, id, PERIOD + 20).unwrap();
    let outcome = NovaBillingContract::settle_charge(&mut store, id, PERIOD + 20, 20, 20);
    assert!(matches!(outcome, ChargeOutcome::Charged(ref t) if t.amount == 20));
    let sub = NovaBillingContract::get_subscription(&store, id).unwrap();
    assert_eq!(sub.status, SubscriptionStatus::Active);
    assert_eq!(sub.last_charge_timestamp, PERIOD + 20);
}

#[test]
fn pause_needs_an_active_subscription() {
    let (mut store, id) = store_with_one(20, 0);
    assert_eq!(
        NovaBillingContract::pause_subscription(&mut store, 9),
        Err(ContractError::SubscriptionNotFound)
    );
    assert_eq!(NovaBillingContract::pause_subscription(&mut store, id), Ok(acct("alice")));
    assert_eq!(
        NovaBillingContract::pause_subscription(&mut store, id),
        Err(ContractError::SubscriptionNotActive)
    );
    assert_eq!(
        NovaBillingContract::charge_subscription(&store, id, 10 * PERIOD),
        Err(ContractError::SubscriptionNotActive)
    );

    let (mut store, id) = store_with_one(20, 0);
    NovaBillingContract::settle_charge(&mut store, id, PERIOD, 0, 0);
    assert_eq!(status(&store, id), SubscriptionStatus::Delinquent);
    assert_eq!(
        NovaBillingContract::pause_subscription(&mut store, id),
        Err(ContractError::SubscriptionNotActive)
    );
}

#[test]
fn resume_restarts_the_billing_timeline() {
    let (mut store, id) = store_with_one(20, 0);
    assert_eq!(
        NovaBillingContract::resume_subscription(&mut store, id, 50),
        Err(ContractError::SubscriptionNotActive)
    );
    assert_eq!(
        NovaBillingContract::resume_subscription(&mut store, 4, 50),
        Err(ContractError::SubscriptionNotFound)
    );
    NovaBillingContract::pause_subscription(&mut store, id).unwrap();
    let resumed_at = 3 * PERIOD;
    assert_eq!(
        NovaBillingContract::resume_subscription(&mut store, id, resumed_at),
        Ok(acct("alice"))
    );
    let sub = NovaBillingContract::get_subscription(&store, id).unwrap();
    assert_eq!(sub.status, SubscriptionStatus::Active);
    assert_eq!(sub.last_charge_timestamp, resumed_at);
    assert_eq!(
        NovaBillingContract::charge_subscription(&store, id, resumed_at + PERIOD - 1),
        Err(ContractError::BillingPeriodNotElapsed)
    );
    assert!(NovaBillingContract::charge_subscription(&store, id, resumed_at + PERIOD).is_ok());
}

#[test]
fn only_the_parties_can_cancel_and_cancellation_is_final() {
    let (mut store, id) = store_with_one(20, 0);
    assert_eq!(
        NovaBillingContract::cancel_subscription(&mut store, acct("mallory"), id),
        Err(ContractError::NotAuthorized)
    );
    assert_eq!(status(&store, id), SubscriptionStatus::Active);
    assert_eq!(
        NovaBillingContract::cancel_subscription(&mut store, acct("shop"), 5),
        Err(ContractError::SubscriptionNotFound)
    );
    assert_eq!(NovaBillingContract::cancel_subscription(&mut store, acct("shop"), id), Ok(()));
    assert_eq!(status(&store, id), SubscriptionStatus::Cancelled);

    assert_eq!(
        NovaBillingContract::cancel_subscription(&mut store, acct("alice"), id),
        Err(ContractError::SubscriptionAlreadyTerminated)
    );
    assert_eq!(
        NovaBillingContract::cancel_subscription(&mut store, acct("mallory"), id),
        Err(ContractError::SubscriptionAlreadyTerminated)
    );
    assert_eq!(
        NovaBillingContract::charge_subscription(&store, id, 100 * PERIOD),
        Err(ContractError::SubscriptionNotActive)
    );
    assert_eq!(
        NovaBillingContract::pause_subscription(&mut store, id),
        Err(ContractError::SubscriptionNotActive)
    );
    assert_eq!(
        NovaBillingContract::resume_subscription(&mut store, id, 5),
        Err(ContractError::SubscriptionNotActive)
    );
    assert_eq!(status(&store, id), SubscriptionStatus::Cancelled);
}

#[test]
fn paused_subscription_can_be_cancelled_by_its_subscriber() {
    let (mut store, id) = store_with_one(20, 0);
    NovaBillingContract::pause_subscription(&mut store, id).unwrap();
    assert_eq!(NovaBillingContract::cancel_subscription(&mut store, acct("alice"), id), Ok(()));
    assert_eq!(status(&store, id), SubscriptionStatus::Cancelled);
}

#[test]
fn admin_can_only_be_set_once() {
    let mut store = ContractStorage::new();
    assert_eq!(get_admin(&store), None);
    assert_eq!(NovaBillingContract::set_admin(&mut store, acct("admin")), Ok(()));
    assert_eq!(get_admin(&store), Some(acct("admin")));
    assert_eq!(
        NovaBillingContract::set_admin(&mut store, acct("other")),
        Err(ContractError::NotAuthorized)
    );
    assert_eq!(get_admin(&store), Some(acct("admin")));
}

#[test]
fn error_codes_match_their_published_numbers() {
    let all = [
        ContractError::AdminNotSet,
        ContractError::NotAuthorized,
        ContractError::SubscriptionNotFound,
        ContractError::SubscriptionNotActive,
        ContractError::BillingPeriodNotElapsed,
        ContractError::InvalidBillingParameters,
        ContractError::SubscriptionAlreadyTerminated,
    ];
    for (i, e) in all.iter().enumerate() {
        assert_eq!(e.code(), i as u32 + 1);
        assert_eq!(ContractError::from_code(i as u32 + 1), Some(*e));
    }
    assert_eq!(ContractError::from_code(0), None);
    assert_eq!(ContractError::from_code(8), None);
    assert!(ContractError::AdminNotSet < ContractError::SubscriptionAlreadyTerminated);
}

#[test]
fn account_identity_is_by_bytes() {
    let a = acct("GABC");
    assert!(a.same_as(&acct("GABC")));
    assert!(!a.same_as(&acct("GABD")));
    assert!(!a.same_as(&acct("GAB")));
    assert!(!a.same_as(&acct("GABCD")));
    assert!(acct("").same_as(&acct("")));
    assert_eq!(a.duplicate(), a);
}

#[test]
fn storage_reads_give_back_what_was_written() {
    let mut store = ContractStorage::new();
    let sub = Subscription {
        subscriber: acct("alice"),
        merchant: acct("shop"),
        token: acct("usdc"),
        rate: 3,
        period: 9,
        last_charge_timestamp: 1,
        status: SubscriptionStatus::Paused,
    };
    set_subscription(&mut store, 42, &sub);
    assert_eq!(get_subscription(&store, 42), Some(sub.clone()));
    assert_eq!(get_subscription(&store, 41), None);
    let mut later = sub.clone();
    later.status = SubscriptionStatus::Cancelled;
    set_subscription(&mut store, 42, &later);
    assert_eq!(get_subscription(&store, 42), Some(later));
    assert_eq!(store.subscriptions.len(), 1);

    assert_eq!(get_total_subscriptions(&store), 0);
    assert_eq!(increment_total_subscriptions(&mut store), 1);
    assert_eq!(increment_total_subscriptions(&mut store), 2);
    assert_eq!(get_total_subscriptions(&store), 2);

    add_subscriber_subscription(&mut store, &acct("alice"), 5);
    add_subscriber_subscription(&mut store, &acct("bob"), 6);
    add_subscriber_subscription(&mut store, &acct("alice"), 2);
    assert_eq!(get_subscriber_subscriptions(&store, &acct("alice")), vec![5, 2]);
    assert_eq!(get_subscriber_subscriptions(&store, &acct("bob")), vec![6]);
    assert!(get_merchant_subscriptions(&store, &acct("alice")).is_empty());
    add_merchant_subscription(&mut store, &acct("alice"), 8);
    assert_eq!(get_merchant_subscriptions(&store, &acct("alice")), vec![8]);

    set_admin(&mut store, &acct("root"));
    set_admin(&mut store, &acct("root2"));
    assert_eq!(get_admin(&store), Some(acct("root2")));
}

#[test]
fn operations_touch_only_their_own_subscription() {
    let mut store = ContractStorage::new();
    let a = NovaBillingContract::create_subscription(
        &mut store, acct("alice"), acct("shop"), acct("usdc"), 5, 10, 0,
    )
    .unwrap();
    let b = NovaBillingContract::create_subscription(
        &mut store, acct("bob"), acct("shop"), acct("usdc"), 6, 10, 0,
    )
    .unwrap();
    let before = NovaBillingContract::get_subscription(&store, b).unwrap();
    NovaBillingContract::pause_subscription(&mut store, a).unwrap();
    NovaBillingContract::resume_subscription(&mut store, a, 4).unwrap();
    NovaBillingContract::charge_subscription(&store, a, 14).unwrap();
    NovaBillingContract::settle_charge(&mut store, a, 14, 0, 0);
    NovaBillingContract::cancel_subscription(&mut store, acct("alice"), a).unwrap();
    assert_eq!(NovaBillingContract::get_subscription(&store, b).unwrap(), before);
    assert_eq!(status(&store, a), SubscriptionStatus::Cancelled);
}

#[test]
fn creation_pays_the_first_cycle_to_the_merchant() {
    let (store, id) = store_with_one(15, 0);
    assert_eq!(
        NovaBillingContract::first_cycle_transfer(&store, id),
        Some(Transfer { token: acct("usdc"), from: acct("alice"), to: acct("shop"), amount: 15 })
    );
    assert_eq!(NovaBillingContract::first_cycle_transfer(&store, id + 1), None);
}
