use vstd::prelude::*;

use crate::error::ContractError;
use crate::helper::{billing_period_elapsed, is_billing_period_elapsed};
use crate::storage;
use crate::storage::{append_id, subscription_of, ContractStorage, StoreView};
use crate::types::{
    opt_subscription_view, AccountId, Subscription, SubscriptionStatus,
    SubscriptionView, Transfer, TransferView,
};

verus! {

/// What a due charge comes to once the payer's funds are known.
#[derive(Clone, Debug, PartialEq, Eq)]
pub enum ChargeOutcome {
    /// The payer's balance or allowance falls short of the rate: nothing is
    /// pulled and the subscription is marked delinquent.
    Delinquent,
    /// The rate is to be pulled as described.
    Charged(Transfer),
}

pub enum ChargeOutcomeView {
    Delinquent,
    Charged(TransferView),
}

impl View for ChargeOutcome {
    type V = ChargeOutcomeView;

    open spec fn view(&self) -> ChargeOutcomeView {
        match self {
            ChargeOutcome::Delinquent => ChargeOutcomeView::Delinquent,
            ChargeOutcome::Charged(t) => ChargeOutcomeView::Charged(t@),
        }
    }
}

/// The outcome of setting the admin to `admin`: it is set once, and refused
/// afterwards.
pub open spec fn set_admin_outcome(s: StoreView, admin: Seq<u8>) -> Result<StoreView, ContractError> {
    if s.admin is Some {
        Err(ContractError::NotAuthorized)
    } else {
        Ok(StoreView { admin: Some(admin), ..s })
    }
}

/// `s` with `sub` stored under `id`.
pub open spec fn with_subscription(s: StoreView, id: u32, sub: SubscriptionView) -> StoreView {
    StoreView { subscriptions: s.subscriptions.insert(id, sub), ..s }
}

/// The outcome of creating a subscription on `s` at ledger time `now`: the
/// new state and the new identifier, or the refusal.
pub open spec fn create_outcome(
    s: StoreView,
    subscriber: Seq<u8>,
    merchant: Seq<u8>,
    token: Seq<u8>,
    rate: i128,
    period: u64,
    now: u64,
) -> Result<(StoreView, u32), ContractError> {
    if rate <= 0 || period == 0 {
        Err(ContractError::InvalidBillingParameters)
    } else {
        let id = (s.total + 1) as u32;
        let sub = SubscriptionView {
            subscriber,
            merchant,
            token,
            rate,
            period,
            last_charge_timestamp: now,
            status: SubscriptionStatus::Active,
        };
        Ok(
            (
                StoreView {
                    admin: s.admin,
                    total: id,
                    subscriptions: s.subscriptions.insert(id, sub),
                    by_subscriber: append_id(s.by_subscriber, subscriber, id),
                    by_merchant: append_id(s.by_merchant, merchant, id),
                },
                id,
            ),
        )
    }
}

/// Whether a status lets a subscription be charged.
pub open spec fn chargeable(status: SubscriptionStatus) -> bool {
    status == SubscriptionStatus::Active || status == SubscriptionStatus::Delinquent
}

/// Whether a charge on `id` may go ahead at ledger time `now`, and on which
/// subscription.
pub open spec fn charge_check(s: StoreView, id: u32, now: u64) -> Result<
    SubscriptionView,
    ContractError,
> {
    match subscription_of(s, id) {
        None => Err(ContractError::SubscriptionNotFound),
        Some(sub) => if !chargeable(sub.status) {
            Err(ContractError::SubscriptionNotActive)
        } else if !billing_period_elapsed(now, sub.last_charge_timestamp, sub.period) {
            Err(ContractError::BillingPeriodNotElapsed)
        } else {
            Ok(sub)
        },
    }
}

/// The payment that billing `sub` once comes to.
pub open spec fn billing_transfer(sub: SubscriptionView) -> TransferView {
    TransferView { token: sub.token, from: sub.subscriber, to: sub.merchant, amount: sub.rate }
}

/// The state after a due charge on `id` at time `now`, given the payer's
/// balance and allowance, and what the charge comes to.
pub open spec fn settle_outcome(
    s: StoreView,
    id: u32,
    now: u64,
    balance: i128,
    allowance: i128,
) -> (StoreView, ChargeOutcomeView) {
    let sub = s.subscriptions[id];
    if balance < sub.rate || allowance < sub.rate {
        (
            with_subscription(
                s,
                id,
                SubscriptionView { status: SubscriptionStatus::Delinquent, ..sub },
            ),
            ChargeOutcomeView::Delinquent,
        )
    } else {
        (
            with_subscription(
                s,
                id,
                SubscriptionView {
                    last_charge_timestamp: now,
                    status: SubscriptionStatus::Active,
                    ..sub
                },
            ),
            ChargeOutcomeView::Charged(billing_transfer(sub)),
        )
    }
}

/// The outcome of pausing `id`: the new state and the account whose
/// authorisation the pause needs, or the refusal.
pub open spec fn pause_outcome(s: StoreView, id: u32) -> Result<(StoreView, Seq<u8>), ContractError> {
    match subscription_of(s, id) {
        None => Err(ContractError::SubscriptionNotFound),
        Some(sub) => if sub.status != SubscriptionStatus::Active {
            Err(ContractError::SubscriptionNotActive)
        } else {
            Ok(
                (
                    with_subscription(
                        s,
                        id,
                        SubscriptionView { status: SubscriptionStatus::Paused, ..sub },
                    ),
                    sub.subscriber,
                ),
            )
        },
    }
}

/// The outcome of resuming `id` at ledger time `now`: the new state and the
/// account whose authorisation the resumption needs, or the refusal.
pub open spec fn resume_outcome(s: StoreView, id: u32, now: u64) -> Result<
    (StoreView, Seq<u8>),
    ContractError,
> {
    match subscription_of(s, id) {
        None => Err(ContractError::SubscriptionNotFound),
        Some(sub) => if sub.status != SubscriptionStatus::Paused {
            Err(ContractError::SubscriptionNotActive)
        } else {
            Ok(
                (
                    with_subscription(
                        s,
                        id,
                        SubscriptionView {
                            status: SubscriptionStatus::Active,
                            last_charge_timestamp: now,
                            ..sub
                        },
                    ),
                    sub.subscriber,
                ),
            )
        },
    }
}

/// The outcome of `caller` cancelling `id`: the new state, or the refusal.
pub open spec fn cancel_outcome(s: StoreView, caller: Seq<u8>, id: u32) -> Result<
    StoreView,
    ContractError,
> {
    match subscription_of(s, id) {
        None => Err(ContractError::SubscriptionNotFound),
        Some(sub) => if sub.status == SubscriptionStatus::Cancelled {
            Err(ContractError::SubscriptionAlreadyTerminated)
        } else if caller != sub.subscriber && caller != sub.merchant {
            Err(ContractError::NotAuthorized)
        } else {
            Ok(
                with_subscription(
                    s,
                    id,
                    SubscriptionView { status: SubscriptionStatus::Cancelled, ..sub },
                ),
            )
        },
    }
}

/// The recurring billing ledger's operations.
///
/// Each operation takes the ledger's state and what the host knows: the
/// current ledger time, and for a charge the payer's balance and allowance.
/// Authorisations are the host's to enforce: `create_subscription` needs the
/// subscriber's, `cancel_subscription` the caller's, and `pause_subscription`
/// and `resume_subscription` return the account whose authorisation they need. Token transfers are the host's to carry out: a
/// created subscription's first cycle, as `first_cycle_transfer` gives it,
/// and the transfer that `settle_charge` returns.
pub struct NovaBillingContract;

impl NovaBillingContract {
    /// Sets the admin of the billing ledger. Can only be set once: while an
    /// admin is recorded the ledger is left as it is and the call is refused.
    pub fn set_admin(store: &mut ContractStorage, admin: AccountId) -> (r: Result<(), ContractError>)
        ensures
            match set_admin_outcome(old(store)@, admin@) {
                Ok(s) => r == Ok::<(), ContractError>(()) && final(store)@ == s,
                Err(e) => r == Err::<(), ContractError>(e) && final(store)@ == old(store)@,
            },
    {
        if storage::get_admin(store).is_some() {
            return Err(ContractError::NotAuthorized);
        }
        storage::set_admin(store, &admin);
        Ok(())
    }

    /// Creates a recurring subscription whose first billing cycle is paid at
    /// ledger time `now`, and returns its identifier.
    pub fn create_subscription(
        store: &mut ContractStorage,
        subscriber: AccountId,
        merchant: AccountId,
        token: AccountId,
        rate: i128,
        period: u64,
        now: u64,
    ) -> (r: Result<u32, ContractError>)
        requires
            rate > 0 && period != 0 ==> old(store)@.total < u32::MAX,
        ensures
            match create_outcome(
                old(store)@,
                subscriber@,
                merchant@,
                token@,
                rate,
                period,
                now,
            ) {
                Ok((s, id)) => r == Ok::<u32, ContractError>(id) && final(store)@ == s,
                Err(e) => r == Err::<u32, ContractError>(e) && final(store)@ == old(store)@,
            },
    {
        if rate <= 0 || period == 0 {
            return Err(ContractError::InvalidBillingParameters);
        }
        let sub = Subscription {
            subscriber: subscriber.duplicate(),
            merchant: merchant.duplicate(),
            token,
            rate,
            period,
            last_charge_timestamp: now,
            status: SubscriptionStatus::Active,
        };
        let sub_id = storage::increment_total_subscriptions(store);
        storage::set_subscription(store, sub_id, &sub);
        storage::add_subscriber_subscription(store, &subscriber, sub_id);
        storage::add_merchant_subscription(store, &merchant, sub_id);
        Ok(sub_id)
    }

    /// The payment of one billing cycle of subscription `subscription_id`:
    /// its rate, in its token, from its subscriber to its merchant. Right
    /// after `create_subscription` returns an identifier, this is the first
    /// cycle's payment, which the host makes at once.
    pub fn first_cycle_transfer(store: &ContractStorage, subscription_id: u32) -> (r: Option<
        Transfer,
    >)
        ensures
            match subscription_of(store@, subscription_id) {
                Some(sub) => r matches Some(t) && t@ == billing_transfer(sub),
                None => r is None,
            },
    {
        match storage::get_subscription(store, subscription_id) {
            Some(sub) => Some(
                Transfer {
                    token: sub.token,
                    from: sub.subscriber,
                    to: sub.merchant,
                    amount: sub.rate,
                },
            ),
            None => None,
        }
    }

    /// Checks that subscription `subscription_id` can be charged at ledger
    /// time `now` and returns it; the host then looks up the payer's balance
    /// and allowance and passes them to `settle_charge`.
    pub fn charge_subscription(store: &ContractStorage, subscription_id: u32, now: u64) -> (r:
        Result<Subscription, ContractError>)
        ensures
            match charge_check(store@, subscription_id, now) {
                Ok(sub) => r matches Ok(x) && x@ == sub,
                Err(e) => r == Err::<Subscription, ContractError>(e),
            },
    {
        let sub = match storage::get_subscription(store, subscription_id) {
            Some(sub) => sub,
            None => {
                return Err(ContractError::SubscriptionNotFound);
            },
        };
        if sub.status != SubscriptionStatus::Active && sub.status
            != SubscriptionStatus::Delinquent {
            return Err(ContractError::SubscriptionNotActive);
        }
        if !is_billing_period_elapsed(now, sub.last_charge_timestamp, sub.period) {
            return Err(ContractError::BillingPeriodNotElapsed);
        }
        Ok(sub)
    }

    /// Completes a charge that `charge_subscription` found due at `now`, given
    /// the payer's token balance and the allowance granted to the ledger.
    pub fn settle_charge(
        store: &mut ContractStorage,
        subscription_id: u32,
        now: u64,
        balance: i128,
        allowance: i128,
    ) -> (r: ChargeOutcome)
        requires
            charge_check(old(store)@, subscription_id, now) is Ok,
        ensures
            (final(store)@, r@) == settle_outcome(
                old(store)@,
                subscription_id,
                now,
                balance,
                allowance,
            ),
    {
        let mut sub = match storage::get_subscription(store, subscription_id) {
            Some(sub) => sub,
            None => {
                proof {
                    assert(false);
                }
                return ChargeOutcome::Delinquent;
            },
        };
        if balance < sub.rate || allowance < sub.rate {
            sub.status = SubscriptionStatus::Delinquent;
            storage::set_subscription(store, subscription_id, &sub);
            return ChargeOutcome::Delinquent;
        }
        let transfer = Transfer {
            token: sub.token.duplicate(),
            from: sub.subscriber.duplicate(),
            to: sub.merchant.duplicate(),
            amount: sub.rate,
        };
        sub.last_charge_timestamp = now;
        sub.status = SubscriptionStatus::Active;
        storage::set_subscription(store, subscription_id, &sub);
        ChargeOutcome::Charged(transfer)
    }

    /// Pauses billing of `subscription_id`. Returns the subscriber, whose
    /// authorisation the pause needs.
    pub fn pause_subscription(store: &mut ContractStorage, subscription_id: u32) -> (r: Result<
        AccountId,
        ContractError,
    >)
        ensures
            match pause_outcome(old(store)@, subscription_id) {
                Ok((s, who)) => (r matches Ok(a) && a@ == who) && final(store)@ == s,
                Err(e) => r == Err::<AccountId, ContractError>(e) && final(store)@ == old(
                    store,
                )@,
            },
    {
        let mut sub = match storage::get_subscription(store, subscription_id) {
            Some(sub) => sub,
            None => {
                return Err(ContractError::SubscriptionNotFound);
            },
        };
        if sub.status != SubscriptionStatus::Active {
            return Err(ContractError::SubscriptionNotActive);
        }
        let who = sub.subscriber.duplicate();
        sub.status = SubscriptionStatus::Paused;
        storage::set_subscription(store, subscription_id, &sub);
        Ok(who)
    }

    /// Resumes billing of `subscription_id` from ledger time `now`, so that
    /// the paused time is never billed. Returns the subscriber, whose
    /// authorisation the resumption needs.
    pub fn resume_subscription(store: &mut ContractStorage, subscription_id: u32, now: u64) -> (r:
        Result<AccountId, ContractError>)
        ensures
            match resume_outcome(old(store)@, subscription_id, now) {
                Ok((s, who)) => (r matches Ok(a) && a@ == who) && final(store)@ == s,
                Err(e) => r == Err::<AccountId, ContractError>(e) && final(store)@ == old(
                    store,
                )@,
            },
    {
        let mut sub = match storage::get_subscription(store, subscription_id) {
            Some(sub) => sub,
            None => {
                return Err(ContractError::SubscriptionNotFound);
            },
        };
        if sub.status != SubscriptionStatus::Paused {
            return Err(ContractError::SubscriptionNotActive);
        }
        let who = sub.subscriber.duplicate();
        sub.status = SubscriptionStatus::Active;
        sub.last_charge_timestamp = now;
        storage::set_subscription(store, subscription_id, &sub);
        Ok(who)
    }

    /// Cancels billing of `subscription_id` for good, on behalf of `caller`,
    /// who must be its subscriber or its merchant.
    pub fn cancel_subscription(
        store: &mut ContractStorage,
        caller: AccountId,
        subscription_id: u32,
    ) -> (r: Result<(), ContractError>)
        ensures
            match cancel_outcome(old(store)@, caller@, subscription_id) {
                Ok(s) => r == Ok::<(), ContractError>(()) && final(store)@ == s,
                Err(e) => r == Err::<(), ContractError>(e) && final(store)@ == old(store)@,
            },
    {
        let mut sub = match storage::get_subscription(store, subscription_id) {
            Some(sub) => sub,
            None => {
                return Err(ContractError::SubscriptionNotFound);
            },
        };
        if sub.status == SubscriptionStatus::Cancelled {
            return Err(ContractError::SubscriptionAlreadyTerminated);
        }
        if !caller.same_as(&sub.subscriber) && !caller.same_as(&sub.merchant) {
            return Err(ContractError::NotAuthorized);
        }
        sub.status = SubscriptionStatus::Cancelled;
        storage::set_subscription(store, subscription_id, &sub);
        Ok(())
    }

    /// Reads subscription details.
    pub fn get_subscription(store: &ContractStorage, subscription_id: u32) -> (r: Option<
        Subscription,
    >)
        ensures
            opt_subscription_view(r) == subscription_of(store@, subscription_id),
    {
        storage::get_subscription(store, subscription_id)
    }

    /// Reads the identifiers of the subscriptions that `subscriber` pays, oldest first.
    pub fn get_subscriber_subscriptions(store: &ContractStorage, subscriber: AccountId) -> (r: Vec<
        u32,
    >)
        ensures
            r@ == storage::ids_of(store@.by_subscriber, subscriber@),
    {
        storage::get_subscriber_subscriptions(store, &subscriber)
    }

    /// Reads the identifiers of the subscriptions that pay `merchant`, oldest first.
    pub fn get_merchant_subscriptions(store: &ContractStorage, merchant: AccountId) -> (r: Vec<
        u32,
    >)
        ensures
            r@ == storage::ids_of(store@.by_merchant, merchant@),
    {
        storage::get_merchant_subscriptions(store, &merchant)
    }
}

} // verus!
