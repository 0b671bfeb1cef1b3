use vstd::prelude::*;

verus! {

/// Whether, at ledger time `now`, the billing date that follows a charge
/// made at `last_charge_timestamp` has been reached (the sum is taken in
/// the integers, so a date beyond the clock's range is never reached).
pub open spec fn billing_period_elapsed(now: u64, last_charge_timestamp: u64, period: u64) -> bool {
    now >= last_charge_timestamp + period
}

/// Returns true if the current ledger timestamp has reached the next
/// scheduled billing date; false while it has not, including when that date
/// lies beyond the range of the ledger clock.
pub fn is_billing_period_elapsed(now: u64, last_charge_timestamp: u64, period: u64) -> (r: bool)
    ensures
        r == billing_period_elapsed(now, last_charge_timestamp, period),
{
    now >= last_charge_timestamp && now - last_charge_timestamp >= period
}

/// Once a billing date is reached it stays reached as the clock moves on,
/// and a longer period is never due earlier than a shorter one.
pub proof fn law_billing_date_monotone(
    now1: u64,
    now2: u64,
    last_charge_timestamp: u64,
    period1: u64,
    period2: u64,
)
    requires
        now1 <= now2,
        period1 <= period2,
    ensures
        billing_period_elapsed(now1, last_charge_timestamp, period1) ==> billing_period_elapsed(
            now2,
            last_charge_timestamp,
            period1,
        ),
        billing_period_elapsed(now1, last_charge_timestamp, period2) ==> billing_period_elapsed(
            now1,
            last_charge_timestamp,
            period1,
        ),
{
}

} // verus!
