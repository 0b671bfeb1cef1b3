use vstd::prelude::*;

use crate::contract::{
    billing_transfer, cancel_outcome, charge_check, create_outcome, pause_outcome,
    resume_outcome, set_admin_outcome, settle_outcome, ChargeOutcomeView,
};
use crate::laws::{consistent, law_create_keeps_consistency, law_operations_keep_consistency};
use crate::storage::StoreView;
use crate::types::TransferView;

verus! {

/// One call on the ledger, with what the host supplies for it.
pub enum Call {
    SetAdmin { admin: Seq<u8> },
    Create {
        subscriber: Seq<u8>,
        merchant: Seq<u8>,
        token: Seq<u8>,
        rate: i128,
        period: u64,
        now: u64,
    },
    Charge { id: u32, now: u64, balance: i128, allowance: i128 },
    Pause { id: u32 },
    Resume { id: u32, now: u64 },
    Cancel { caller: Seq<u8>, id: u32 },
}

/// A payment pulled for subscription `id` at ledger time `time`.
pub struct Pull {
    pub id: u32,
    pub time: u64,
    pub transfer: TransferView,
}

/// The ledger time at which a call is made, for the calls that read the clock.
pub open spec fn call_time(c: Call) -> Option<u64> {
    match c {
        Call::Create { now, .. } => Some(now),
        Call::Charge { now, .. } => Some(now),
        Call::Resume { now, .. } => Some(now),
        _ => None,
    }
}

/// The state after one call on `s`, and the payment it pulls, if any. A
/// refused call leaves the state as it was; so does a creation past the
/// largest identifier, which the host aborts.
pub open spec fn step(s: StoreView, c: Call) -> (StoreView, Option<Pull>) {
    match c {
        Call::SetAdmin { admin } => match set_admin_outcome(s, admin) {
            Ok(t) => (t, None),
            Err(_) => (s, None),
        },
        Call::Create { subscriber, merchant, token, rate, period, now } => {
            if rate > 0 && period != 0 && s.total == u32::MAX {
                (s, None)
            } else {
                match create_outcome(s, subscriber, merchant, token, rate, period, now) {
                    Ok((t, id)) => (
                        t,
                        Some(
                            Pull { id, time: now, transfer: billing_transfer(t.subscriptions[id]) },
                        ),
                    ),
                    Err(_) => (s, None),
                }
            }
        },
        Call::Charge { id, now, balance, allowance } => {
            if charge_check(s, id, now) is Err {
                (s, None)
            } else {
                let (t, outcome) = settle_outcome(s, id, now, balance, allowance);
                match outcome {
                    ChargeOutcomeView::Charged(tr) => (t, Some(Pull { id, time: now, transfer: tr })),
                    ChargeOutcomeView::Delinquent => (t, None),
                }
            }
        },
        Call::Pause { id } => match pause_outcome(s, id) {
            Ok((t, _who)) => (t, None),
            Err(_) => (s, None),
        },
        Call::Resume { id, now } => match resume_outcome(s, id, now) {
            Ok((t, _who)) => (t, None),
            Err(_) => (s, None),
        },
        Call::Cancel { caller, id } => match cancel_outcome(s, caller, id) {
            Ok(t) => (t, None),
            Err(_) => (s, None),
        },
    }
}

/// The state after a sequence of calls from `s0`, and every payment pulled on
/// the way, in order.
pub open spec fn run(s0: StoreView, calls: Seq<Call>) -> (StoreView, Seq<Pull>)
    decreases calls.len(),
{
    if calls.len() == 0 {
        (s0, Seq::empty())
    } else {
        let (s, pulls) = run(s0, calls.drop_last());
        let (t, pulled) = step(s, calls.last());
        match pulled {
            Some(p) => (t, pulls.push(p)),
            None => (t, pulls),
        }
    }
}

/// The ledger clock never goes back over a sequence of calls.
pub open spec fn times_nondecreasing(calls: Seq<Call>) -> bool {
    forall|i: int, j: int|
        0 <= i < j < calls.len() && call_time(#[trigger] calls[i]) is Some && call_time(
            #[trigger] calls[j],
        ) is Some ==> call_time(calls[i])->0 <= call_time(calls[j])->0
}

/// The latest ledger time that a sequence of calls has read, or 0.
pub open spec fn clock(calls: Seq<Call>) -> u64
    decreases calls.len(),
{
    if calls.len() == 0 {
        0
    } else {
        let c = clock(calls.drop_last());
        match call_time(calls.last()) {
            Some(t) => if t > c {
                t
            } else {
                c
            },
            None => c,
        }
    }
}

proof fn lemma_clock_bound(calls: Seq<Call>, bound: u64)
    requires
        forall|i: int|
            0 <= i < calls.len() && call_time(#[trigger] calls[i]) is Some ==> call_time(
                calls[i],
            )->0 <= bound,
    ensures
        clock(calls) <= bound,
    decreases calls.len(),
{
    if calls.len() > 0 {
        let d = calls.drop_last();
        assert forall|i: int|
            0 <= i < d.len() && call_time(#[trigger] d[i]) is Some implies call_time(d[i])->0
            <= bound by {
            assert(d[i] == calls[i]);
        }
        lemma_clock_bound(d, bound);
    }
}

/// What one call does to a consistent state: the state stays consistent;
/// every subscription it held is still held with the same parties, token,
/// rate and period, and its billing date either stays or moves to the time of
/// the call; a payment pulled is made at the time of the call, is one
/// billing cycle of its subscription, which is last paid then, and, for a
/// subscription that existed before, comes a whole period after its billing date.
proof fn lemma_step(s: StoreView, c: Call)
    requires
        consistent(s),
    ensures
        ({
            let (t, pulled) = step(s, c);
            &&& consistent(t)
            &&& forall|k: u32| #[trigger]
                s.subscriptions.dom().contains(k) ==> {
                    &&& t.subscriptions.dom().contains(k)
                    &&& t.subscriptions[k].subscriber == s.subscriptions[k].subscriber
                    &&& t.subscriptions[k].merchant == s.subscriptions[k].merchant
                    &&& t.subscriptions[k].token == s.subscriptions[k].token
                    &&& t.subscriptions[k].rate == s.subscriptions[k].rate
                    &&& t.subscriptions[k].period == s.subscriptions[k].period
                    &&& (t.subscriptions[k].last_charge_timestamp
                        == s.subscriptions[k].last_charge_timestamp || call_time(c) == Some(
                        t.subscriptions[k].last_charge_timestamp,
                    ))
                }
            &&& pulled matches Some(p) ==> {
                &&& call_time(c) == Some(p.time)
                &&& t.subscriptions.dom().contains(p.id)
                &&& t.subscriptions[p.id].last_charge_timestamp == p.time
                &&& p.transfer == billing_transfer(t.subscriptions[p.id])
                &&& s.subscriptions.dom().contains(p.id) ==> p.time
                    >= s.subscriptions[p.id].last_charge_timestamp + s.subscriptions[p.id].period
            }
        }),
{
    match c {
        Call::SetAdmin { admin } => {
            law_operations_keep_consistency(s, 0, 0, 0, 0, Seq::empty(), admin);
        },
        Call::Create { subscriber, merchant, token, rate, period, now } => {
            if !(rate > 0 && period != 0 && s.total == u32::MAX) {
                if rate > 0 && period != 0 {
                    law_create_keeps_consistency(s, subscriber, merchant, token, rate, period, now);
                }
            }
        },
        Call::Charge { id, now, balance, allowance } => {
            law_operations_keep_consistency(s, id, now, balance, allowance, Seq::empty(), Seq::empty());
        },
        Call::Pause { id } => {
            law_operations_keep_consistency(s, id, 0, 0, 0, Seq::empty(), Seq::empty());
        },
        Call::Resume { id, now } => {
            law_operations_keep_consistency(s, id, now, 0, 0, Seq::empty(), Seq::empty());
        },
        Call::Cancel { caller, id } => {
            law_operations_keep_consistency(s, id, 0, 0, 0, caller, Seq::empty());
        },
    }
}

/// What a run keeps: the state stays consistent; every payment pulled
/// belongs to a subscription still held, is one billing cycle of it (its
/// rate, in its token, from its subscriber to its merchant), was made no
/// later than the latest time read, and no later than the subscription's
/// billing date; and any two payments for one subscription lie a whole
/// period apart.
proof fn lemma_run(s0: StoreView, calls: Seq<Call>)
    requires
        consistent(s0),
        times_nondecreasing(calls),
    ensures
        ({
            let (s, pulls) = run(s0, calls);
            &&& consistent(s)
            &&& forall|k: int|
                0 <= k < pulls.len() ==> {
                    &&& s.subscriptions.dom().contains(#[trigger] pulls[k].id)
                    &&& pulls[k].transfer == billing_transfer(s.subscriptions[pulls[k].id])
                    &&& pulls[k].time <= s.subscriptions[pulls[k].id].last_charge_timestamp
                    &&& pulls[k].time <= clock(calls)
                }
            &&& forall|i: int, j: int|
                0 <= i < j < pulls.len() && #[trigger] pulls[i].id == #[trigger] pulls[j].id
                    ==> pulls[j].time >= pulls[i].time + s.subscriptions[pulls[i].id].period
        }),
    decreases calls.len(),
{
    if calls.len() > 0 {
        let prefix = calls.drop_last();
        let c = calls.last();
        assert forall|i: int, j: int|
            0 <= i < j < prefix.len() && call_time(#[trigger] prefix[i]) is Some && call_time(
                #[trigger] prefix[j],
            ) is Some implies call_time(prefix[i])->0 <= call_time(prefix[j])->0 by {
            assert(prefix[i] == calls[i] && prefix[j] == calls[j]);
        }
        lemma_run(s0, prefix);
        let (s, pulls) = run(s0, prefix);
        lemma_step(s, c);
        let (t, pulled) = step(s, c);
        if let Some(tau) = call_time(c) {
            assert forall|i: int|
                0 <= i < prefix.len() && call_time(#[trigger] prefix[i]) is Some implies call_time(
                prefix[i],
            )->0 <= tau by {
                assert(prefix[i] == calls[i]);
                assert(calls[calls.len() - 1] == c);
            }
            lemma_clock_bound(prefix, tau);
        }
        let new_pulls = run(s0, calls).1;
        assert forall|k: int| 0 <= k < pulls.len() implies {
            &&& t.subscriptions.dom().contains(#[trigger] pulls[k].id)
            &&& pulls[k].transfer == billing_transfer(t.subscriptions[pulls[k].id])
            &&& pulls[k].time <= t.subscriptions[pulls[k].id].last_charge_timestamp
            &&& pulls[k].time <= clock(calls)
        } by {
            assert(s.subscriptions.dom().contains(pulls[k].id));
        }
        match pulled {
            Some(p) => {
                assert(new_pulls == pulls.push(p));
                assert forall|i: int, j: int|
                    0 <= i < j < new_pulls.len() && #[trigger] new_pulls[i].id
                        == #[trigger] new_pulls[j].id implies new_pulls[j].time >= new_pulls[i].time
                    + t.subscriptions[new_pulls[i].id].period by {
                    assert(new_pulls[i] == pulls[i]);
                    assert(s.subscriptions.dom().contains(pulls[i].id));
                    if j < pulls.len() {
                        assert(new_pulls[j] == pulls[j]);
                    } else {
                        assert(new_pulls[j] == p);
                    }
                }
            },
            None => {
                assert(new_pulls == pulls);
                assert forall|i: int, j: int|
                    0 <= i < j < new_pulls.len() && #[trigger] new_pulls[i].id
                        == #[trigger] new_pulls[j].id implies new_pulls[j].time >= new_pulls[i].time
                    + t.subscriptions[new_pulls[i].id].period by {
                    assert(s.subscriptions.dom().contains(pulls[i].id));
                }
            },
        }
    }
}

/// A subscriber is pulled at most once per billing period, whatever the
/// calls: over any sequence of calls from a consistent state under a clock
/// that never goes back, any two payments pulled for the same subscription
/// (the one at its creation included) lie at least one of its periods apart,
/// and every payment pulled is exactly one billing cycle of its subscription:
/// its rate, in its token, from its subscriber straight to its merchant.
pub proof fn law_one_pull_per_period(s0: StoreView, calls: Seq<Call>)
    requires
        consistent(s0),
        times_nondecreasing(calls),
    ensures
        ({
            let (s, pulls) = run(s0, calls);
            &&& forall|i: int, j: int|
                0 <= i < j < pulls.len() && #[trigger] pulls[i].id == #[trigger] pulls[j].id
                    ==> pulls[j].time >= pulls[i].time + s.subscriptions[pulls[i].id].period
            &&& forall|k: int|
                0 <= k < pulls.len() ==> {
                    &&& s.subscriptions.dom().contains(#[trigger] pulls[k].id)
                    &&& pulls[k].transfer.from == s.subscriptions[pulls[k].id].subscriber
                    &&& pulls[k].transfer.to == s.subscriptions[pulls[k].id].merchant
                    &&& pulls[k].transfer.token == s.subscriptions[pulls[k].id].token
                    &&& pulls[k].transfer.amount == s.subscriptions[pulls[k].id].rate
                }
        }),
{
    lemma_run(s0, calls);
}

} // verus!
