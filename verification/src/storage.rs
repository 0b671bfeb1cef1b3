use vstd::prelude::*;

use crate::table::{lemma_absent, lemma_last_match, lemma_push, lemma_update_last_match, pairs_to_map};
use crate::types::{
    copy_vec, opt_account_view, opt_subscription_view, AccountId, Subscription, SubscriptionView,
};

verus! {

/// One stored subscription under its identifier.
#[derive(Clone, Debug)]
pub struct SubscriptionEntry {
    pub id: u32,
    pub subscription: Subscription,
}

/// The subscription identifiers recorded for one account, oldest first.
#[derive(Clone, Debug)]
pub struct AccountEntry {
    pub account: AccountId,
    pub ids: Vec<u32>,
}

/// The persistent state of the billing ledger: the admin, the number of
/// subscriptions ever created, each subscription by identifier, and for each
/// account the identifiers of the subscriptions it pays and the ones it is paid by.
#[derive(Clone, Debug)]
pub struct ContractStorage {
    pub admin: Option<AccountId>,
    pub total_subscriptions: u32,
    /// Later entries for an identifier override earlier ones.
    pub subscriptions: Vec<SubscriptionEntry>,
    /// Later entries for an account override earlier ones.
    pub subscriber_lists: Vec<AccountEntry>,
    pub merchant_lists: Vec<AccountEntry>,
}

/// The ledger's state as a mathematical value.
pub struct StoreView {
    pub admin: Option<Seq<u8>>,
    pub total: u32,
    pub subscriptions: Map<u32, SubscriptionView>,
    pub by_subscriber: Map<Seq<u8>, Seq<u32>>,
    pub by_merchant: Map<Seq<u8>, Seq<u32>>,
}

pub closed spec fn subscription_pairs(v: Seq<SubscriptionEntry>) -> Seq<(u32, SubscriptionView)> {
    v.map_values(|e: SubscriptionEntry| (e.id, e.subscription@))
}

pub closed spec fn account_pairs(v: Seq<AccountEntry>) -> Seq<(Seq<u8>, Seq<u32>)> {
    v.map_values(|e: AccountEntry| (e.account@, e.ids@))
}

impl View for ContractStorage {
    type V = StoreView;

    closed spec fn view(&self) -> StoreView {
        StoreView {
            admin: opt_account_view(self.admin),
            total: self.total_subscriptions,
            subscriptions: pairs_to_map(subscription_pairs(self.subscriptions@)),
            by_subscriber: pairs_to_map(account_pairs(self.subscriber_lists@)),
            by_merchant: pairs_to_map(account_pairs(self.merchant_lists@)),
        }
    }
}

/// The state of a ledger on which nothing has happened yet.
pub open spec fn empty_store() -> StoreView {
    StoreView {
        admin: None,
        total: 0,
        subscriptions: Map::empty(),
        by_subscriber: Map::empty(),
        by_merchant: Map::empty(),
    }
}

/// The subscription stored under `id`, if any.
pub open spec fn subscription_of(s: StoreView, id: u32) -> Option<SubscriptionView> {
    if s.subscriptions.dom().contains(id) {
        Some(s.subscriptions[id])
    } else {
        None
    }
}

/// The identifiers recorded for `account` in a per-account list; none where
/// nothing was recorded.
pub open spec fn ids_of(m: Map<Seq<u8>, Seq<u32>>, account: Seq<u8>) -> Seq<u32> {
    if m.dom().contains(account) {
        m[account]
    } else {
        Seq::empty()
    }
}

/// `m` with `id` appended to the list of `account`.
pub open spec fn append_id(m: Map<Seq<u8>, Seq<u32>>, account: Seq<u8>, id: u32) -> Map<
    Seq<u8>,
    Seq<u32>,
> {
    m.insert(account, ids_of(m, account).push(id))
}

/// Position of the last entry stored under `id`.
fn find_subscription(v: &Vec<SubscriptionEntry>, id: u32) -> (r: Option<usize>)
    ensures
        r matches Some(i) ==> {
            &&& i < v@.len()
            &&& v@[i as int].id == id
            &&& forall|j: int| i < j < v@.len() ==> v@[j].id != id
        },
        r is None ==> forall|j: int| 0 <= j < v@.len() ==> v@[j].id != id,
{
    let mut i = v.len();
    while i > 0
        invariant
            i <= v@.len(),
            forall|j: int| i <= j < v@.len() ==> v@[j].id != id,
        decreases i,
    {
        i = i - 1;
        if v[i].id == id {
            return Some(i);
        }
    }
    None
}

/// Position of the last entry stored under `account`.
fn find_account(v: &Vec<AccountEntry>, account: &AccountId) -> (r: Option<usize>)
    ensures
        r matches Some(i) ==> {
            &&& i < v@.len()
            &&& v@[i as int].account@ == account@
            &&& forall|j: int| i < j < v@.len() ==> v@[j].account@ != account@
        },
        r is None ==> forall|j: int| 0 <= j < v@.len() ==> v@[j].account@ != account@,
{
    let mut i = v.len();
    while i > 0
        invariant
            i <= v@.len(),
            forall|j: int| i <= j < v@.len() ==> v@[j].account@ != account@,
        decreases i,
    {
        i = i - 1;
        if v[i].account.same_as(account) {
            return Some(i);
        }
    }
    None
}

/// The identifiers recorded for `account` in `lists`.
fn list_for(lists: &Vec<AccountEntry>, account: &AccountId) -> (r: Vec<u32>)
    ensures
        r@ == ids_of(pairs_to_map(account_pairs(lists@)), account@),
{
    let ghost p = account_pairs(lists@);
    match find_account(lists, account) {
        Some(i) => {
            proof {
                assert(p[i as int].0 == account@);
                lemma_last_match(p, i as int);
            }
            copy_vec(&lists[i].ids)
        },
        None => {
            proof {
                lemma_absent(p, account@);
            }
            Vec::new()
        },
    }
}

/// Appends `id` to the identifiers recorded for `account` in `lists`.
fn append_to_list(lists: &mut Vec<AccountEntry>, account: &AccountId, id: u32)
    ensures
        pairs_to_map(account_pairs(final(lists)@)) == append_id(
            pairs_to_map(account_pairs(old(lists)@)),
            account@,
            id,
        ),
{
    let ghost p = account_pairs(lists@);
    match find_account(lists, account) {
        Some(i) => {
            proof {
                lemma_last_match(p, i as int);
            }
            let mut ids = copy_vec(&lists[i].ids);
            ids.push(id);
            let entry = AccountEntry { account: account.duplicate(), ids };
            lists.set(i, entry);
            proof {
                lemma_update_last_match(p, i as int, ids@);
                assert(account_pairs(lists@) =~= p.update(i as int, (p[i as int].0, ids@)));
            }
        },
        None => {
            proof {
                lemma_absent(p, account@);
            }
            let mut ids: Vec<u32> = Vec::new();
            ids.push(id);
            let entry = AccountEntry { account: account.duplicate(), ids };
            lists.push(entry);
            proof {
                lemma_push(p, (account@, ids@));
                assert(account_pairs(lists@) =~= p.push((account@, ids@)));
                assert(ids@ =~= Seq::<u32>::empty().push(id));
            }
        },
    }
}

impl ContractStorage {
    /// A ledger on which nothing has happened yet.
    pub fn new() -> (r: ContractStorage)
        ensures
            r@ == empty_store(),
    {
        let r = ContractStorage {
            admin: None,
            total_subscriptions: 0,
            subscriptions: Vec::new(),
            subscriber_lists: Vec::new(),
            merchant_lists: Vec::new(),
        };
        proof {
            assert(subscription_pairs(r.subscriptions@) =~= Seq::empty());
            assert(account_pairs(r.subscriber_lists@) =~= Seq::empty());
            assert(account_pairs(r.merchant_lists@) =~= Seq::empty());
        }
        r
    }
}

/// The admin, if one was set.
pub fn get_admin(store: &ContractStorage) -> (r: Option<AccountId>)
    ensures
        opt_account_view(r) == store@.admin,
{
    match &store.admin {
        Some(a) => Some(a.duplicate()),
        None => None,
    }
}

/// Records `admin` as the admin.
pub fn set_admin(store: &mut ContractStorage, admin: &AccountId)
    ensures
        final(store)@ == (StoreView { admin: Some(admin@), ..old(store)@ }),
{
    store.admin = Some(admin.duplicate());
}

/// The subscription stored under `sub_id`, if any.
pub fn get_subscription(store: &ContractStorage, sub_id: u32) -> (r: Option<Subscription>)
    ensures
        opt_subscription_view(r) == subscription_of(store@, sub_id),
{
    let ghost p = subscription_pairs(store.subscriptions@);
    match find_subscription(&store.subscriptions, sub_id) {
        Some(i) => {
            proof {
                lemma_last_match(p, i as int);
            }
            Some(store.subscriptions[i].subscription.duplicate())
        },
        None => {
            proof {
                lemma_absent(p, sub_id);
            }
            None
        },
    }
}

/// Stores `sub` under `sub_id`, replacing what was stored there.
pub fn set_subscription(store: &mut ContractStorage, sub_id: u32, sub: &Subscription)
    ensures
        final(store)@ == (StoreView {
            subscriptions: old(store)@.subscriptions.insert(sub_id, sub@),
            ..old(store)@
        }),
{
    let ghost p = subscription_pairs(store.subscriptions@);
    let entry = SubscriptionEntry { id: sub_id, subscription: sub.duplicate() };
    match find_subscription(&store.subscriptions, sub_id) {
        Some(i) => {
            store.subscriptions.set(i, entry);
            proof {
                lemma_update_last_match(p, i as int, sub@);
                assert(subscription_pairs(store.subscriptions@) =~= p.update(
                    i as int,
                    (sub_id, sub@),
                ));
            }
        },
        None => {
            store.subscriptions.push(entry);
            proof {
                lemma_push(p, (sub_id, sub@));
                assert(subscription_pairs(store.subscriptions@) =~= p.push((sub_id, sub@)));
            }
        },
    }
}

/// The number of subscriptions ever created.
pub fn get_total_subscriptions(store: &ContractStorage) -> (r: u32)
    ensures
        r == store@.total,
{
    store.total_subscriptions
}

/// Counts one more subscription and returns the new count, which is the
/// identifier of that subscription.
pub fn increment_total_subscriptions(store: &mut ContractStorage) -> (r: u32)
    requires
        old(store)@.total < u32::MAX,
    ensures
        r == old(store)@.total + 1,
        final(store)@ == (StoreView { total: r, ..old(store)@ }),
{
    let count = get_total_subscriptions(store) + 1;
    store.total_subscriptions = count;
    count
}

/// Identifiers of the subscriptions that `subscriber` pays, oldest first.
pub fn get_subscriber_subscriptions(store: &ContractStorage, subscriber: &AccountId) -> (r: Vec<
    u32,
>)
    ensures
        r@ == ids_of(store@.by_subscriber, subscriber@),
{
    list_for(&store.subscriber_lists, subscriber)
}

/// Records `sub_id` as the newest subscription that `subscriber` pays.
pub fn add_subscriber_subscription(store: &mut ContractStorage, subscriber: &AccountId, sub_id: u32)
    ensures
        final(store)@ == (StoreView {
            by_subscriber: append_id(old(store)@.by_subscriber, subscriber@, sub_id),
            ..old(store)@
        }),
{
    append_to_list(&mut store.subscriber_lists, subscriber, sub_id);
}

/// Identifiers of the subscriptions that pay `merchant`, oldest first.
pub fn get_merchant_subscriptions(store: &ContractStorage, merchant: &AccountId) -> (r: Vec<u32>)
    ensures
        r@ == ids_of(store@.by_merchant, merchant@),
{
    list_for(&store.merchant_lists, merchant)
}

/// Records `sub_id` as the newest subscription that pays `merchant`.
pub fn add_merchant_subscription(store: &mut ContractStorage, merchant: &AccountId, sub_id: u32)
    ensures
        final(store)@ == (StoreView {
            by_merchant: append_id(old(store)@.by_merchant, merchant@, sub_id),
            ..old(store)@
        }),
{
    append_to_list(&mut store.merchant_lists, merchant, sub_id);
}

} // verus!
