use vstd::prelude::*;

use crate::contract::{
    cancel_outcome, charge_check, chargeable, create_outcome, pause_outcome, resume_outcome,
    set_admin_outcome, settle_outcome, with_subscription, billing_transfer, ChargeOutcomeView,
};
use crate::error::ContractError;
use crate::storage::{append_id, empty_store, ids_of, subscription_of, StoreView};
use crate::types::{SubscriptionStatus, SubscriptionView, TransferView};

verus! {

/// The party of `sub` that a per-account list is kept for: its merchant, or its subscriber.
pub open spec fn party(sub: SubscriptionView, as_merchant: bool) -> Seq<u8> {
    if as_merchant {
        sub.merchant
    } else {
        sub.subscriber
    }
}

/// The identifiers among 1 to `n` whose subscription has `account` as the
/// given party, in increasing order.
pub open spec fn ids_with(
    subs: Map<u32, SubscriptionView>,
    n: nat,
    account: Seq<u8>,
    as_merchant: bool,
) -> Seq<u32>
    decreases n,
{
    if n == 0 {
        Seq::empty()
    } else {
        let prev = ids_with(subs, (n - 1) as nat, account, as_merchant);
        if party(subs[n as u32], as_merchant) == account {
            prev.push(n as u32)
        } else {
            prev
        }
    }
}

/// The ledger's bookkeeping is sound: the subscriptions are exactly those
/// numbered 1 to the count of subscriptions created, and each account's lists
/// hold exactly the identifiers of the subscriptions it pays, and is paid by,
/// in increasing order.
pub open spec fn lists_consistent(s: StoreView) -> bool {
    &&& forall|id: u32| #[trigger] s.subscriptions.dom().contains(id) <==> 1 <= id <= s.total
    &&& forall|a: Seq<u8>| #[trigger]
        ids_of(s.by_subscriber, a) == ids_with(s.subscriptions, s.total as nat, a, false)
    &&& forall|a: Seq<u8>| #[trigger]
        ids_of(s.by_merchant, a) == ids_with(s.subscriptions, s.total as nat, a, true)
}

/// Every stored subscription has a positive rate and a positive period.
pub open spec fn terms_valid(s: StoreView) -> bool {
    forall|id: u32|
        #[trigger] s.subscriptions.dom().contains(id) ==> s.subscriptions[id].rate > 0
            && s.subscriptions[id].period > 0
}

/// The ledger's state is consistent: its bookkeeping is sound and every
/// subscription's terms are valid.
pub open spec fn consistent(s: StoreView) -> bool {
    lists_consistent(s) && terms_valid(s)
}

/// Whether the identifiers in `ids` strictly increase.
pub open spec fn strictly_increasing(ids: Seq<u32>) -> bool {
    forall|i: int, j: int| 0 <= i < j < ids.len() ==> ids[i] < ids[j]
}

proof fn lemma_ids_with_increasing(subs: Map<u32, SubscriptionView>, n: nat, a: Seq<u8>, m: bool)
    requires
        n <= u32::MAX,
    ensures
        strictly_increasing(ids_with(subs, n, a, m)),
        forall|i: int|
            0 <= i < ids_with(subs, n, a, m).len() ==> 1 <= #[trigger] ids_with(subs, n, a, m)[i]
                <= n,
    decreases n,
{
    if n > 0 {
        lemma_ids_with_increasing(subs, (n - 1) as nat, a, m);
    }
}

proof fn lemma_ids_with_frame(
    s1: Map<u32, SubscriptionView>,
    s2: Map<u32, SubscriptionView>,
    n: nat,
    a: Seq<u8>,
    m: bool,
)
    requires
        n <= u32::MAX,
        forall|k: u32| 1 <= k <= n ==> party(#[trigger] s1[k], m) == party(s2[k], m),
    ensures
        ids_with(s1, n, a, m) == ids_with(s2, n, a, m),
    decreases n,
{
    if n > 0 {
        lemma_ids_with_frame(s1, s2, (n - 1) as nat, a, m);
        let k = n as u32;
        assert(party(s1[k], m) == party(s2[k], m));
    }
}

/// Replacing a stored subscription by one with the same parties, rate and
/// period keeps the state consistent.
proof fn lemma_same_terms_keeps_consistency(s: StoreView, id: u32, sub: SubscriptionView)
    requires
        consistent(s),
        s.subscriptions.dom().contains(id),
        sub.subscriber == s.subscriptions[id].subscriber,
        sub.merchant == s.subscriptions[id].merchant,
        sub.rate == s.subscriptions[id].rate,
        sub.period == s.subscriptions[id].period,
    ensures
        consistent(with_subscription(s, id, sub)),
{
    let t = with_subscription(s, id, sub);
    assert forall|k: u32| #[trigger] t.subscriptions.dom().contains(k) <==> 1 <= k <= t.total by {
        if k == id {
            assert(s.subscriptions.dom().contains(k));
        }
    }
    assert forall|a: Seq<u8>| #[trigger]
        ids_of(t.by_subscriber, a) == ids_with(t.subscriptions, t.total as nat, a, false) by {
        assert(ids_of(s.by_subscriber, a) == ids_with(s.subscriptions, s.total as nat, a, false));
        lemma_ids_with_frame(t.subscriptions, s.subscriptions, s.total as nat, a, false);
    }
    assert forall|a: Seq<u8>| #[trigger]
        ids_of(t.by_merchant, a) == ids_with(t.subscriptions, t.total as nat, a, true) by {
        assert(ids_of(s.by_merchant, a) == ids_with(s.subscriptions, s.total as nat, a, true));
        lemma_ids_with_frame(t.subscriptions, s.subscriptions, s.total as nat, a, true);
    }
}

/// A ledger on which nothing has happened is consistent.
pub proof fn law_empty_store_consistent()
    ensures
        consistent(empty_store()),
{
    let s = empty_store();
    assert forall|a: Seq<u8>| #[trigger]
        ids_of(s.by_subscriber, a) == ids_with(s.subscriptions, s.total as nat, a, false) by {}
    assert forall|a: Seq<u8>| #[trigger]
        ids_of(s.by_merchant, a) == ids_with(s.subscriptions, s.total as nat, a, true) by {}
}

/// Creating a subscription keeps the ledger's bookkeeping sound (and its
/// terms valid); the new identifier is one more than the number of
/// subscriptions created before, was free, and ends the lists of both the
/// subscriber and the merchant, which therefore stay strictly increasing and
/// free of repeats. A refused creation leaves the state as it was (see
/// `NovaBillingContract::create_subscription`).
pub proof fn law_create_keeps_consistency(
    s: StoreView,
    subscriber: Seq<u8>,
    merchant: Seq<u8>,
    token: Seq<u8>,
    rate: i128,
    period: u64,
    now: u64,
)
    requires
        lists_consistent(s),
        s.total < u32::MAX,
    ensures
        create_outcome(s, subscriber, merchant, token, rate, period, now) matches Ok((t, id)) ==> {
            &&& lists_consistent(t)
            &&& terms_valid(s) ==> terms_valid(t)
            &&& id == s.total + 1
            &&& !s.subscriptions.dom().contains(id)
            &&& ids_of(t.by_subscriber, subscriber) == ids_of(s.by_subscriber, subscriber).push(id)
            &&& ids_of(t.by_merchant, merchant) == ids_of(s.by_merchant, merchant).push(id)
            &&& forall|a: Seq<u8>| strictly_increasing(#[trigger] ids_of(t.by_subscriber, a))
            &&& forall|a: Seq<u8>| strictly_increasing(#[trigger] ids_of(t.by_merchant, a))
        },
{
    if let Ok((t, id)) = create_outcome(s, subscriber, merchant, token, rate, period, now) {
        let n = s.total as nat;
        let sub = t.subscriptions[id];
        assert forall|k: u32| #[trigger] t.subscriptions.dom().contains(k) <==> 1 <= k <= t.total by {
            if k != id {
                assert(s.subscriptions.dom().contains(k) <==> 1 <= k <= s.total);
            }
        }
        if terms_valid(s) {
            assert forall|k: u32| #[trigger] t.subscriptions.dom().contains(k) implies t.subscriptions[k].rate
                > 0 && t.subscriptions[k].period > 0 by {
                if k != id {
                    assert(s.subscriptions.dom().contains(k));
                }
            }
        }
        assert forall|a: Seq<u8>| #[trigger]
            ids_of(t.by_subscriber, a) == ids_with(t.subscriptions, t.total as nat, a, false) by {
            assert(ids_of(s.by_subscriber, a) == ids_with(s.subscriptions, n, a, false));
            lemma_ids_with_frame(t.subscriptions, s.subscriptions, n, a, false);
            assert(ids_with(t.subscriptions, n + 1, a, false) == if sub.subscriber == a {
                ids_with(t.subscriptions, n, a, false).push(id)
            } else {
                ids_with(t.subscriptions, n, a, false)
            });
        }
        assert forall|a: Seq<u8>| #[trigger]
            ids_of(t.by_merchant, a) == ids_with(t.subscriptions, t.total as nat, a, true) by {
            assert(ids_of(s.by_merchant, a) == ids_with(s.subscriptions, n, a, true));
            lemma_ids_with_frame(t.subscriptions, s.subscriptions, n, a, true);
            assert(ids_with(t.subscriptions, n + 1, a, true) == if sub.merchant == a {
                ids_with(t.subscriptions, n, a, true).push(id)
            } else {
                ids_with(t.subscriptions, n, a, true)
            });
        }
        assert forall|a: Seq<u8>| strictly_increasing(#[trigger] ids_of(t.by_subscriber, a)) by {
            lemma_ids_with_increasing(t.subscriptions, t.total as nat, a, false);
        }
        assert forall|a: Seq<u8>| strictly_increasing(#[trigger] ids_of(t.by_merchant, a)) by {
            lemma_ids_with_increasing(t.subscriptions, t.total as nat, a, true);
        }
    }
}

/// Charging, pausing, resuming, cancelling and setting the admin keep the
/// ledger consistent: none of them changes which subscriptions exist, their
/// parties, rates or periods, or the per-account lists.
pub proof fn law_operations_keep_consistency(
    s: StoreView,
    id: u32,
    now: u64,
    balance: i128,
    allowance: i128,
    caller: Seq<u8>,
    admin: Seq<u8>,
)
    requires
        consistent(s),
    ensures
        charge_check(s, id, now) is Ok ==> consistent(
            settle_outcome(s, id, now, balance, allowance).0,
        ),
        pause_outcome(s, id) matches Ok((t, _who)) ==> consistent(t),
        resume_outcome(s, id, now) matches Ok((t, _who)) ==> consistent(t),
        cancel_outcome(s, caller, id) matches Ok(t) ==> consistent(t),
        set_admin_outcome(s, admin) matches Ok(t) ==> consistent(t),
{
    if s.subscriptions.dom().contains(id) {
        let sub = s.subscriptions[id];
        lemma_same_terms_keeps_consistency(
            s,
            id,
            SubscriptionView { status: SubscriptionStatus::Delinquent, ..sub },
        );
        lemma_same_terms_keeps_consistency(
            s,
            id,
            SubscriptionView {
                last_charge_timestamp: now,
                status: SubscriptionStatus::Active,
                ..sub
            },
        );
        lemma_same_terms_keeps_consistency(
            s,
            id,
            SubscriptionView { status: SubscriptionStatus::Paused, ..sub },
        );
        lemma_same_terms_keeps_consistency(
            s,
            id,
            SubscriptionView { status: SubscriptionStatus::Cancelled, ..sub },
        );
    }
}

/// Cancellation is permanent: a cancelled subscription can no longer be
/// charged, paused or resumed, and cancelling it again is refused as already
/// terminated, at any time and whoever asks.
pub proof fn law_cancelled_is_final(s: StoreView, id: u32, now: u64, caller: Seq<u8>)
    requires
        subscription_of(s, id) matches Some(sub) && sub.status == SubscriptionStatus::Cancelled,
    ensures
        charge_check(s, id, now) == Err::<SubscriptionView, ContractError>(
            ContractError::SubscriptionNotActive,
        ),
        pause_outcome(s, id) == Err::<(StoreView, Seq<u8>), ContractError>(
            ContractError::SubscriptionNotActive,
        ),
        resume_outcome(s, id, now) == Err::<(StoreView, Seq<u8>), ContractError>(
            ContractError::SubscriptionNotActive,
        ),
        cancel_outcome(s, caller, id) == Err::<StoreView, ContractError>(
            ContractError::SubscriptionAlreadyTerminated,
        ),
{
}

/// A successful cancellation leaves the subscription cancelled, and from then
/// on every charge, pause, resumption or cancellation of it is refused.
pub proof fn law_cancel_then_refused(
    s: StoreView,
    caller: Seq<u8>,
    id: u32,
    later: u64,
    other_caller: Seq<u8>,
)
    requires
        cancel_outcome(s, caller, id) is Ok,
    ensures
        cancel_outcome(s, caller, id) matches Ok(t) && {
            &&& subscription_of(t, id) matches Some(sub) && sub.status
                == SubscriptionStatus::Cancelled
            &&& charge_check(t, id, later) == Err::<SubscriptionView, ContractError>(
                ContractError::SubscriptionNotActive,
            )
            &&& pause_outcome(t, id) is Err
            &&& resume_outcome(t, id, later) is Err
            &&& cancel_outcome(t, other_caller, id) == Err::<StoreView, ContractError>(
                ContractError::SubscriptionAlreadyTerminated,
            )
        },
{
    let t = cancel_outcome(s, caller, id)->Ok_0;
    law_cancelled_is_final(t, id, later, other_caller);
}

/// Only the subscriber or the merchant can cancel: anyone else is refused as
/// not authorised, and the subscription stays as it was.
pub proof fn law_only_parties_cancel(s: StoreView, caller: Seq<u8>, id: u32)
    requires
        subscription_of(s, id) matches Some(sub) && sub.status != SubscriptionStatus::Cancelled
            && caller != sub.subscriber && caller != sub.merchant,
    ensures
        cancel_outcome(s, caller, id) == Err::<StoreView, ContractError>(
            ContractError::NotAuthorized,
        ),
{
}

/// No early charge: a charge goes ahead only once a whole period has passed
/// since the last payment, and only on an active or delinquent subscription.
pub proof fn law_charge_only_when_due(s: StoreView, id: u32, now: u64)
    requires
        charge_check(s, id, now) is Ok,
    ensures
        subscription_of(s, id) matches Some(sub) && chargeable(sub.status) && now
            >= sub.last_charge_timestamp + sub.period,
{
}

/// No double charge: once a charge is paid at `now`, any charge before a
/// whole period more has passed is refused as not yet due.
pub proof fn law_no_double_charge(
    s: StoreView,
    id: u32,
    now: u64,
    balance: i128,
    allowance: i128,
    later: u64,
)
    requires
        charge_check(s, id, now) is Ok,
        settle_outcome(s, id, now, balance, allowance).1 is Charged,
        later < now + s.subscriptions[id].period,
    ensures
        charge_check(settle_outcome(s, id, now, balance, allowance).0, id, later)
            == Err::<SubscriptionView, ContractError>(ContractError::BillingPeriodNotElapsed),
{
}

/// A paid charge pulls exactly the rate, in the subscription's token, from
/// the subscriber to the merchant, and leaves the subscription active and
/// last paid at the time of the charge; the funds fall short of the rate
/// exactly when nothing is pulled.
pub proof fn law_charge_pulls_the_rate(
    s: StoreView,
    id: u32,
    now: u64,
    balance: i128,
    allowance: i128,
)
    requires
        charge_check(s, id, now) is Ok,
    ensures
        ({
            let sub = s.subscriptions[id];
            let (t, outcome) = settle_outcome(s, id, now, balance, allowance);
            &&& (outcome is Delinquent <==> (balance < sub.rate || allowance < sub.rate))
            &&& outcome matches ChargeOutcomeView::Charged(tr) ==> {
                &&& tr.amount == sub.rate
                &&& tr.token == sub.token
                &&& tr.from == sub.subscriber
                &&& tr.to == sub.merchant
                &&& t.subscriptions[id].status == SubscriptionStatus::Active
                &&& t.subscriptions[id].last_charge_timestamp == now
            }
        }),
{
}

/// A payer who cannot cover the rate makes the subscription delinquent
/// without failing the charge; its billing date stays where it was, so the
/// charge may be retried at once, and a paid retry makes it active again.
pub proof fn law_delinquent_may_retry(
    s: StoreView,
    id: u32,
    now: u64,
    balance: i128,
    allowance: i128,
    later: u64,
    balance2: i128,
    allowance2: i128,
)
    requires
        charge_check(s, id, now) is Ok,
        settle_outcome(s, id, now, balance, allowance).1 is Delinquent,
        later >= now,
    ensures
        ({
            let t = settle_outcome(s, id, now, balance, allowance).0;
            &&& t.subscriptions[id].status == SubscriptionStatus::Delinquent
            &&& t.subscriptions[id].last_charge_timestamp == s.subscriptions[id].last_charge_timestamp
            &&& charge_check(t, id, later) is Ok
            &&& settle_outcome(t, id, later, balance2, allowance2).1 is Charged
                ==> settle_outcome(t, id, later, balance2, allowance2).0.subscriptions[id].status
                == SubscriptionStatus::Active
        }),
{
}

/// The first cycle is paid at creation: the payment for a new subscription is
/// its rate, in its token, from the subscriber straight to the merchant; the
/// subscription is active, and cannot be charged before a whole period has
/// passed since it was created.
pub proof fn law_first_cycle_paid_at_creation(
    s: StoreView,
    subscriber: Seq<u8>,
    merchant: Seq<u8>,
    token: Seq<u8>,
    rate: i128,
    period: u64,
    now: u64,
    later: u64,
)
    requires
        create_outcome(s, subscriber, merchant, token, rate, period, now) is Ok,
        later < now + period,
    ensures
        create_outcome(s, subscriber, merchant, token, rate, period, now) matches Ok((t, id)) && {
            &&& subscription_of(t, id) matches Some(sub) && sub.status
                == SubscriptionStatus::Active && sub.last_charge_timestamp == now
            &&& charge_check(t, id, later) == Err::<SubscriptionView, ContractError>(
                ContractError::BillingPeriodNotElapsed,
            )
            &&& billing_transfer(t.subscriptions[id]) == (TransferView {
                token,
                from: subscriber,
                to: merchant,
                amount: rate,
            })
        },
{
}

/// A paused subscription cannot be charged, at any time.
pub proof fn law_paused_is_not_charged(s: StoreView, id: u32, later: u64)
    requires
        pause_outcome(s, id) is Ok,
    ensures
        pause_outcome(s, id) matches Ok((t, _who)) && charge_check(t, id, later) == Err::<
            SubscriptionView,
            ContractError,
        >(ContractError::SubscriptionNotActive),
{
}

/// Resuming restarts the billing timeline at the time of resumption: the
/// paused time is never billed, and the next charge is due a whole period
/// after the resumption. Pausing then resuming changes nothing else.
pub proof fn law_resume_restarts_cycle(s: StoreView, id: u32, now: u64, later: u64)
    requires
        pause_outcome(s, id) is Ok,
        later < now + s.subscriptions[id].period,
    ensures
        ({
            let p = pause_outcome(s, id)->Ok_0.0;
            let r = resume_outcome(p, id, now);
            &&& r is Ok
            &&& r->Ok_0.0 == with_subscription(
                s,
                id,
                SubscriptionView { last_charge_timestamp: now, ..s.subscriptions[id] },
            )
            &&& charge_check(r->Ok_0.0, id, later) == Err::<SubscriptionView, ContractError>(
                ContractError::BillingPeriodNotElapsed,
            )
        }),
{
    let p = pause_outcome(s, id)->Ok_0.0;
    let r = resume_outcome(p, id, now)->Ok_0.0;
    assert(r.subscriptions =~= s.subscriptions.insert(
        id,
        SubscriptionView { last_charge_timestamp: now, ..s.subscriptions[id] },
    ));
}

/// The admin can only be set once: once set, a further attempt is refused
/// and the admin stays as it was.
pub proof fn law_admin_set_once(s: StoreView, first: Seq<u8>, second: Seq<u8>)
    requires
        set_admin_outcome(s, first) is Ok,
    ensures
        set_admin_outcome(s, first) matches Ok(t) && t.admin == Some(first)
            && set_admin_outcome(t, second) == Err::<StoreView, ContractError>(
            ContractError::NotAuthorized,
        ),
{
}

/// Reads give back what was written: a stored subscription reads back as
/// written and the others read as before; an identifier appended to an
/// account's list ends that list, and the other accounts' lists read as before.
pub proof fn law_read_after_write(
    s: StoreView,
    id: u32,
    sub: SubscriptionView,
    other: u32,
    m: Map<Seq<u8>, Seq<u32>>,
    account: Seq<u8>,
    other_account: Seq<u8>,
    new_id: u32,
)
    requires
        other != id,
        other_account != account,
    ensures
        subscription_of(with_subscription(s, id, sub), id) == Some(sub),
        subscription_of(with_subscription(s, id, sub), other) == subscription_of(s, other),
        ids_of(append_id(m, account, new_id), account) == ids_of(m, account).push(new_id),
        ids_of(append_id(m, account, new_id), other_account) == ids_of(m, other_account),
{
}

/// Each operation touches only its own subscription: every other
/// subscription reads the same afterwards.
pub proof fn law_other_subscriptions_untouched(
    s: StoreView,
    id: u32,
    other: u32,
    now: u64,
    balance: i128,
    allowance: i128,
    caller: Seq<u8>,
    subscriber: Seq<u8>,
    merchant: Seq<u8>,
    token: Seq<u8>,
    rate: i128,
    period: u64,
)
    requires
        other != id,
    ensures
        charge_check(s, id, now) is Ok ==> subscription_of(
            settle_outcome(s, id, now, balance, allowance).0,
            other,
        ) == subscription_of(s, other),
        pause_outcome(s, id) matches Ok((t, _who)) ==> subscription_of(t, other)
            == subscription_of(s, other),
        resume_outcome(s, id, now) matches Ok((t, _who)) ==> subscription_of(t, other)
            == subscription_of(s, other),
        cancel_outcome(s, caller, id) matches Ok(t) ==> subscription_of(t, other)
            == subscription_of(s, other),
        create_outcome(s, subscriber, merchant, token, rate, period, now) matches Ok((t, new_id))
            ==> (new_id != other ==> subscription_of(t, other) == subscription_of(s, other)),
{
}

/// One write to the ledger's storage, as the storage functions make them.
pub enum StorageWrite {
    SetAdmin(Seq<u8>),
    SetSubscription(u32, SubscriptionView),
    IncrementTotal,
    AddSubscriberSubscription(Seq<u8>, u32),
    AddMerchantSubscription(Seq<u8>, u32),
}

/// The state after one write: what `storage::set_admin`,
/// `storage::set_subscription`, `storage::increment_total_subscriptions`,
/// `storage::add_subscriber_subscription` and
/// `storage::add_merchant_subscription` each ensure.
pub open spec fn apply_write(s: StoreView, w: StorageWrite) -> StoreView {
    match w {
        StorageWrite::SetAdmin(a) => StoreView { admin: Some(a), ..s },
        StorageWrite::SetSubscription(id, sub) => StoreView {
            subscriptions: s.subscriptions.insert(id, sub),
            ..s
        },
        StorageWrite::IncrementTotal => StoreView { total: (s.total + 1) as u32, ..s },
        StorageWrite::AddSubscriberSubscription(a, id) => StoreView {
            by_subscriber: append_id(s.by_subscriber, a, id),
            ..s
        },
        StorageWrite::AddMerchantSubscription(a, id) => StoreView {
            by_merchant: append_id(s.by_merchant, a, id),
            ..s
        },
    }
}

/// The state after a sequence of writes.
pub open spec fn apply_writes(s: StoreView, ws: Seq<StorageWrite>) -> StoreView
    decreases ws.len(),
{
    if ws.len() == 0 {
        s
    } else {
        apply_write(apply_writes(s, ws.drop_last()), ws.last())
    }
}

/// Reads of the admin give back the last admin written, whatever other
/// writes came after it, and what was there before when none was written.
pub proof fn law_admin_reads_last_write(s: StoreView, ws: Seq<StorageWrite>)
    ensures
        (forall|i: int| 0 <= i < ws.len() ==> !(#[trigger] ws[i] is SetAdmin))
            ==> apply_writes(s, ws).admin == s.admin,
        forall|k: int|
            0 <= k < ws.len() && #[trigger] ws[k] is SetAdmin && (forall|j: int|
                k < j < ws.len() ==> !(#[trigger] ws[j] is SetAdmin)) ==> apply_writes(
                s,
                ws,
            ).admin == Some(ws[k]->SetAdmin_0),
    decreases ws.len(),
{
    if ws.len() > 0 {
        let d = ws.drop_last();
        law_admin_reads_last_write(s, d);
        assert forall|k: int|
            0 <= k < ws.len() && #[trigger] ws[k] is SetAdmin && (forall|j: int|
                k < j < ws.len() ==> !(#[trigger] ws[j] is SetAdmin)) implies apply_writes(
            s,
            ws,
        ).admin == Some(ws[k]->SetAdmin_0) by {
            if k < ws.len() - 1 {
                assert(ws[ws.len() - 1] !is SetAdmin);
                assert(d[k] == ws[k]);
                assert forall|j: int| k < j < d.len() implies !(#[trigger] d[j] is SetAdmin) by {
                    assert(d[j] == ws[j]);
                }
            }
        }
        if forall|i: int| 0 <= i < ws.len() ==> !(#[trigger] ws[i] is SetAdmin) {
            assert forall|i: int| 0 <= i < d.len() implies !(#[trigger] d[i] is SetAdmin) by {
                assert(d[i] == ws[i]);
            }
            assert(ws[ws.len() - 1] !is SetAdmin);
        }
    }
}

/// Whether `w` writes the subscription stored under `id`.
pub open spec fn writes_subscription(w: StorageWrite, id: u32) -> bool {
    w matches StorageWrite::SetSubscription(i, _sub) && i == id
}

/// Reads of a subscription give back the last one written under its
/// identifier, whatever other writes (to other identifiers or elsewhere) came
/// after it, and what was there before when none was written.
pub proof fn law_subscription_reads_last_write(s: StoreView, ws: Seq<StorageWrite>, id: u32)
    ensures
        (forall|i: int| 0 <= i < ws.len() ==> !writes_subscription(#[trigger] ws[i], id))
            ==> subscription_of(apply_writes(s, ws), id) == subscription_of(s, id),
        forall|k: int|
            0 <= k < ws.len() && writes_subscription(#[trigger] ws[k], id) && (forall|j: int|
                k < j < ws.len() ==> !writes_subscription(#[trigger] ws[j], id))
                ==> subscription_of(apply_writes(s, ws), id) == Some(ws[k]->SetSubscription_1),
    decreases ws.len(),
{
    if ws.len() > 0 {
        let d = ws.drop_last();
        law_subscription_reads_last_write(s, d, id);
        assert forall|k: int|
            0 <= k < ws.len() && writes_subscription(#[trigger] ws[k], id) && (forall|j: int|
                k < j < ws.len() ==> !writes_subscription(#[trigger] ws[j], id)) implies subscription_of(
            apply_writes(s, ws),
            id,
        ) == Some(ws[k]->SetSubscription_1) by {
            if k < ws.len() - 1 {
                assert(!writes_subscription(ws[ws.len() - 1], id));
                assert(d[k] == ws[k]);
                assert forall|j: int| k < j < d.len() implies !writes_subscription(
                    #[trigger] d[j],
                    id,
                ) by {
                    assert(d[j] == ws[j]);
                }
            }
        }
        if forall|i: int| 0 <= i < ws.len() ==> !writes_subscription(#[trigger] ws[i], id) {
            assert forall|i: int| 0 <= i < d.len() implies !writes_subscription(
                #[trigger] d[i],
                id,
            ) by {
                assert(d[i] == ws[i]);
            }
            assert(!writes_subscription(ws[ws.len() - 1], id));
        }
    }
}

/// What a charge check answers, from the stored subscription alone: it goes
/// ahead exactly when the subscription exists, is active or delinquent, and
/// a whole period has passed since its last payment, and then it hands back
/// that stored subscription itself; otherwise it names the first rule broken.
pub proof fn law_charge_check_answers(s: StoreView, id: u32, now: u64)
    ensures
        !s.subscriptions.dom().contains(id) ==> charge_check(s, id, now) == Err::<
            SubscriptionView,
            ContractError,
        >(ContractError::SubscriptionNotFound),
        s.subscriptions.dom().contains(id) ==> ({
            let sub = s.subscriptions[id];
            &&& (sub.status == SubscriptionStatus::Paused || sub.status
                == SubscriptionStatus::Cancelled) ==> charge_check(s, id, now) == Err::<
                SubscriptionView,
                ContractError,
            >(ContractError::SubscriptionNotActive)
            &&& (sub.status == SubscriptionStatus::Active || sub.status
                == SubscriptionStatus::Delinquent) && now < sub.last_charge_timestamp + sub.period
                ==> charge_check(s, id, now) == Err::<SubscriptionView, ContractError>(
                ContractError::BillingPeriodNotElapsed,
            )
            &&& (sub.status == SubscriptionStatus::Active || sub.status
                == SubscriptionStatus::Delinquent) && now >= sub.last_charge_timestamp + sub.period
                ==> charge_check(s, id, now) == Ok::<SubscriptionView, ContractError>(sub)
        }),
        charge_check(s, id, now) matches Ok(x) ==> subscription_of(s, id) == Some(x),
{
}

/// What settling a due charge does to the stored subscription: with enough
/// balance and allowance it pulls the rate and the subscription becomes
/// active, last paid now, otherwise it only becomes delinquent; its parties,
/// token, rate and period never change, and no other subscription or list
/// changes.
pub proof fn law_settle_changes(s: StoreView, id: u32, now: u64, balance: i128, allowance: i128)
    requires
        charge_check(s, id, now) is Ok,
    ensures
        ({
            let sub = s.subscriptions[id];
            let (t, outcome) = settle_outcome(s, id, now, balance, allowance);
            &&& t.admin == s.admin && t.total == s.total
            &&& t.by_subscriber == s.by_subscriber && t.by_merchant == s.by_merchant
            &&& balance >= sub.rate && allowance >= sub.rate ==> {
                &&& t.subscriptions == s.subscriptions.insert(
                    id,
                    SubscriptionView {
                        subscriber: sub.subscriber,
                        merchant: sub.merchant,
                        token: sub.token,
                        rate: sub.rate,
                        period: sub.period,
                        last_charge_timestamp: now,
                        status: SubscriptionStatus::Active,
                    },
                )
                &&& outcome == ChargeOutcomeView::Charged(
                    TransferView {
                        token: sub.token,
                        from: sub.subscriber,
                        to: sub.merchant,
                        amount: sub.rate,
                    },
                )
            }
            &&& (balance < sub.rate || allowance < sub.rate) ==> {
                &&& t.subscriptions == s.subscriptions.insert(
                    id,
                    SubscriptionView {
                        subscriber: sub.subscriber,
                        merchant: sub.merchant,
                        token: sub.token,
                        rate: sub.rate,
                        period: sub.period,
                        last_charge_timestamp: sub.last_charge_timestamp,
                        status: SubscriptionStatus::Delinquent,
                    },
                )
                &&& outcome == ChargeOutcomeView::Delinquent
            }
        }),
{
}

/// Creation is refused exactly for a non-positive rate or a zero period;
/// with valid terms it always succeeds, whatever subscriptions already exist
/// (the same parties may hold several), stores the new subscription as
/// given, active and last paid now, under the next identifier, and appends
/// that identifier to the subscriber's and the merchant's lists.
pub proof fn law_create_answers(
    s: StoreView,
    subscriber: Seq<u8>,
    merchant: Seq<u8>,
    token: Seq<u8>,
    rate: i128,
    period: u64,
    now: u64,
)
    ensures
        (rate <= 0 || period == 0) ==> create_outcome(
            s,
            subscriber,
            merchant,
            token,
            rate,
            period,
            now,
        ) == Err::<(StoreView, u32), ContractError>(ContractError::InvalidBillingParameters),
        rate > 0 && period != 0 && s.total < u32::MAX ==> ({
            let id = (s.total + 1) as u32;
            create_outcome(s, subscriber, merchant, token, rate, period, now) == Ok::<
                (StoreView, u32),
                ContractError,
            >(
                (
                    StoreView {
                        admin: s.admin,
                        total: id,
                        subscriptions: s.subscriptions.insert(
                            id,
                            SubscriptionView {
                                subscriber,
                                merchant,
                                token,
                                rate,
                                period,
                                last_charge_timestamp: now,
                                status: SubscriptionStatus::Active,
                            },
                        ),
                        by_subscriber: s.by_subscriber.insert(
                            subscriber,
                            ids_of(s.by_subscriber, subscriber).push(id),
                        ),
                        by_merchant: s.by_merchant.insert(
                            merchant,
                            ids_of(s.by_merchant, merchant).push(id),
                        ),
                    },
                    id,
                ),
            )
        }),
{
}

/// Only an active subscription can be paused, and pausing it changes its
/// status alone and asks for its subscriber's authorisation.
pub proof fn law_pause_answers(s: StoreView, id: u32)
    ensures
        !s.subscriptions.dom().contains(id) ==> pause_outcome(s, id) == Err::<
            (StoreView, Seq<u8>),
            ContractError,
        >(ContractError::SubscriptionNotFound),
        s.subscriptions.dom().contains(id) ==> ({
            let sub = s.subscriptions[id];
            &&& sub.status != SubscriptionStatus::Active ==> pause_outcome(s, id) == Err::<
                (StoreView, Seq<u8>),
                ContractError,
            >(ContractError::SubscriptionNotActive)
            &&& sub.status == SubscriptionStatus::Active ==> pause_outcome(s, id) == Ok::<
                (StoreView, Seq<u8>),
                ContractError,
            >(
                (
                    StoreView {
                        subscriptions: s.subscriptions.insert(
                            id,
                            SubscriptionView {
                                subscriber: sub.subscriber,
                                merchant: sub.merchant,
                                token: sub.token,
                                rate: sub.rate,
                                period: sub.period,
                                last_charge_timestamp: sub.last_charge_timestamp,
                                status: SubscriptionStatus::Paused,
                            },
                        ),
                        ..s
                    },
                    sub.subscriber,
                ),
            )
        }),
{
}

/// Only a paused subscription can be resumed (an active, delinquent or
/// cancelled one is refused as not active and left as it is); resuming makes
/// it active with its billing timeline restarted now, and asks for its
/// subscriber's authorisation.
pub proof fn law_resume_answers(s: StoreView, id: u32, now: u64)
    ensures
        !s.subscriptions.dom().contains(id) ==> resume_outcome(s, id, now) == Err::<
            (StoreView, Seq<u8>),
            ContractError,
        >(ContractError::SubscriptionNotFound),
        s.subscriptions.dom().contains(id) ==> ({
            let sub = s.subscriptions[id];
            &&& sub.status != SubscriptionStatus::Paused ==> resume_outcome(s, id, now) == Err::<
                (StoreView, Seq<u8>),
                ContractError,
            >(ContractError::SubscriptionNotActive)
            &&& sub.status == SubscriptionStatus::Paused ==> resume_outcome(s, id, now) == Ok::<
                (StoreView, Seq<u8>),
                ContractError,
            >(
                (
                    StoreView {
                        subscriptions: s.subscriptions.insert(
                            id,
                            SubscriptionView {
                                subscriber: sub.subscriber,
                                merchant: sub.merchant,
                                token: sub.token,
                                rate: sub.rate,
                                period: sub.period,
                                last_charge_timestamp: now,
                                status: SubscriptionStatus::Active,
                            },
                        ),
                        ..s
                    },
                    sub.subscriber,
                ),
            )
        }),
{
}

/// Either party can cancel any subscription that is not already cancelled,
/// whatever its status (active, paused or delinquent); cancelling changes its
/// status alone. A cancelled one is refused as already terminated, and anyone
/// other than the two parties as not authorised.
pub proof fn law_cancel_answers(s: StoreView, caller: Seq<u8>, id: u32)
    ensures
        !s.subscriptions.dom().contains(id) ==> cancel_outcome(s, caller, id) == Err::<
            StoreView,
            ContractError,
        >(ContractError::SubscriptionNotFound),
        s.subscriptions.dom().contains(id) ==> ({
            let sub = s.subscriptions[id];
            &&& sub.status == SubscriptionStatus::Cancelled ==> cancel_outcome(s, caller, id)
                == Err::<StoreView, ContractError>(ContractError::SubscriptionAlreadyTerminated)
            &&& sub.status != SubscriptionStatus::Cancelled && caller != sub.subscriber && caller
                != sub.merchant ==> cancel_outcome(s, caller, id) == Err::<StoreView, ContractError>(
                ContractError::NotAuthorized,
            )
            &&& sub.status != SubscriptionStatus::Cancelled && (caller == sub.subscriber || caller
                == sub.merchant) ==> cancel_outcome(s, caller, id) == Ok::<StoreView, ContractError>(
                StoreView {
                    subscriptions: s.subscriptions.insert(
                        id,
                        SubscriptionView {
                            subscriber: sub.subscriber,
                            merchant: sub.merchant,
                            token: sub.token,
                            rate: sub.rate,
                            period: sub.period,
                            last_charge_timestamp: sub.last_charge_timestamp,
                            status: SubscriptionStatus::Cancelled,
                        },
                    ),
                    ..s
                },
            )
        }),
{
}

/// While no admin is recorded, setting one succeeds whatever else the ledger
/// holds, and records that admin and nothing else; once one is recorded,
/// setting another is refused.
pub proof fn law_set_admin_answers(s: StoreView, admin: Seq<u8>)
    ensures
        s.admin is None ==> set_admin_outcome(s, admin) == Ok::<StoreView, ContractError>(
            StoreView { admin: Some(admin), ..s },
        ),
        s.admin is Some ==> set_admin_outcome(s, admin) == Err::<StoreView, ContractError>(
            ContractError::NotAuthorized,
        ),
{
}

} // verus!
