use vstd::prelude::*;

verus! {

/// Copies a vector of plain values element by element.
pub fn copy_vec<T: Copy>(v: &Vec<T>) -> (r: Vec<T>)
    ensures
        r@ == v@,
{
    let mut r: Vec<T> = Vec::new();
    let n = v.len();
    for i in 0..n
        invariant
            n == v@.len(),
            r@ == v@.subrange(0, i as int),
    {
        let x = v[i];
        r.push(x);
        assert(r@ =~= v@.subrange(0, i + 1));
    }
    assert(r@ =~= v@);
    r
}

/// The identity of an account or contract on the ledger, held as the bytes
/// of its textual key. Two identities are the same exactly when their bytes are.
#[derive(Clone, Debug, PartialEq, Eq, Hash)]
pub struct AccountId {
    pub bytes: Vec<u8>,
}

impl View for AccountId {
    type V = Seq<u8>;

    open spec fn view(&self) -> Seq<u8> {
        self.bytes@
    }
}

impl AccountId {
    pub fn new(bytes: Vec<u8>) -> (r: AccountId)
        ensures
            r@ == bytes@,
    {
        AccountId { bytes }
    }

    /// A copy of this identity.
    pub fn duplicate(&self) -> (r: AccountId)
        ensures
            r@ == self@,
    {
        AccountId { bytes: copy_vec(&self.bytes) }
    }

    /// Whether both identities name the same account.
    pub fn same_as(&self, other: &AccountId) -> (r: bool)
        ensures
            r == (self@ == other@),
    {
        let n = self.bytes.len();
        if n != other.bytes.len() {
            return false;
        }
        for i in 0..n
            invariant
                n == self@.len(),
                n == other@.len(),
                forall|j: int| 0 <= j < i ==> self@[j] == other@[j],
        {
            if self.bytes[i] != other.bytes[i] {
                return false;
            }
        }
        assert(self@ =~= other@);
        true
    }
}

/// Where a subscription stands in its life.
#[derive(Clone, Copy, Debug, PartialEq, Eq, Hash, Structural)]
pub enum SubscriptionStatus {
    Active,
    Paused,
    Cancelled,
    Delinquent,
}

/// A recurring billing agreement between a subscriber and a merchant.
#[derive(Clone, Debug, PartialEq, Eq)]
pub struct Subscription {
    pub subscriber: AccountId,
    pub merchant: AccountId,
    pub token: AccountId,
    /// Amount pulled at each billing cycle.
    pub rate: i128,
    /// Length of a billing cycle, in seconds of ledger time.
    pub period: u64,
    /// Ledger time of the last payment, or of the last resumption.
    pub last_charge_timestamp: u64,
    pub status: SubscriptionStatus,
}

/// A subscription as a mathematical value.
pub struct SubscriptionView {
    pub subscriber: Seq<u8>,
    pub merchant: Seq<u8>,
    pub token: Seq<u8>,
    pub rate: i128,
    pub period: u64,
    pub last_charge_timestamp: u64,
    pub status: SubscriptionStatus,
}

impl View for Subscription {
    type V = SubscriptionView;

    open spec fn view(&self) -> SubscriptionView {
        SubscriptionView {
            subscriber: self.subscriber@,
            merchant: self.merchant@,
            token: self.token@,
            rate: self.rate,
            period: self.period,
            last_charge_timestamp: self.last_charge_timestamp,
            status: self.status,
        }
    }
}

impl Subscription {
    /// A copy of this subscription.
    pub fn duplicate(&self) -> (r: Subscription)
        ensures
            r@ == self@,
    {
        Subscription {
            subscriber: self.subscriber.duplicate(),
            merchant: self.merchant.duplicate(),
            token: self.token.duplicate(),
            rate: self.rate,
            period: self.period,
            last_charge_timestamp: self.last_charge_timestamp,
            status: self.status,
        }
    }
}

/// A token payment that the host is to carry out: `amount` units of `token`
/// pulled from `from` to `to` under the allowance granted to the ledger.
#[derive(Clone, Debug, PartialEq, Eq)]
pub struct Transfer {
    pub token: AccountId,
    pub from: AccountId,
    pub to: AccountId,
    pub amount: i128,
}

pub struct TransferView {
    pub token: Seq<u8>,
    pub from: Seq<u8>,
    pub to: Seq<u8>,
    pub amount: i128,
}

impl View for Transfer {
    type V = TransferView;

    open spec fn view(&self) -> TransferView {
        TransferView { token: self.token@, from: self.from@, to: self.to@, amount: self.amount }
    }
}

} // verus!

verus! {

/// An optional identity as an optional value.
pub open spec fn opt_account_view(o: Option<AccountId>) -> Option<Seq<u8>> {
    match o {
        Some(a) => Some(a@),
        None => None,
    }
}

/// An optional subscription as an optional value.
pub open spec fn opt_subscription_view(o: Option<Subscription>) -> Option<SubscriptionView> {
    match o {
        Some(s) => Some(s@),
        None => None,
    }
}

} // verus!
