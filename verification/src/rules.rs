//! The arithmetic of the campaign rules: the cap on what one contributor may
//! deposit, the least deposit, and the campaign window.
use crate::constant::{MAX_CONTRIBUTION_PERCENTAGE, PERCENTAGE_SCALER};
use vstd::prelude::*;

verus! {

/// The most that one contributor may deposit into a campaign with this
/// target: a fixed share of the target, whatever has been raised so far.
pub open spec fn contribution_cap(target: nat) -> nat {
    target * (MAX_CONTRIBUTION_PERCENTAGE as nat) / (PERCENTAGE_SCALER as nat)
}

/// One whole unit of an asset with this many decimal digits.
pub open spec fn whole_unit(decimals: nat) -> nat
    decreases decimals,
{
    if decimals == 0 {
        1
    } else {
        10 * whole_unit((decimals - 1) as nat)
    }
}

/// Whether a deposit of `amount` by a contributor who has deposited `so_far`
/// stays within the cap, alone and together with the earlier deposits.
pub open spec fn within_cap(target: nat, so_far: nat, amount: nat) -> bool {
    amount <= contribution_cap(target) && so_far + amount <= contribution_cap(target)
}

/// Whether contributions are still taken at `now`: the deadline has not
/// passed.
pub open spec fn window_open(started: nat, duration: nat, now: nat) -> bool {
    now <= started + duration
}

/// Whether the campaign can be settled at `now`: the whole window has gone
/// by since the start.
pub open spec fn window_elapsed(started: nat, duration: nat, now: nat) -> bool {
    now >= started + duration
}

/// Whether the owner may sweep the custody account.
pub open spec fn sweep_allowed(
    custody: nat,
    target: nat,
    started: nat,
    duration: nat,
    now: nat,
) -> bool {
    custody >= target && window_elapsed(started, duration, now)
}

/// Whether a contributor may take a deposit back.
pub open spec fn refund_allowed(
    custody: nat,
    target: nat,
    started: nat,
    duration: nat,
    now: nat,
) -> bool {
    window_elapsed(started, duration, now) && custody < target
}

/// A longer decimal precision never makes the whole unit smaller.
pub proof fn lemma_whole_unit_monotonic(low: nat, high: nat)
    requires
        low <= high,
    ensures
        1 <= whole_unit(low) <= whole_unit(high),
    decreases high,
{
    if high == 0 {
    } else if low == high {
        lemma_whole_unit_monotonic(0, (high - 1) as nat);
    } else {
        lemma_whole_unit_monotonic(low, (high - 1) as nat);
    }
}

/// The cap never exceeds the target it is a share of, and grows with it.
pub proof fn lemma_cap_bounds(target: nat, larger: nat)
    requires
        target <= larger,
    ensures
        contribution_cap(target) <= target,
        contribution_cap(target) <= contribution_cap(larger),
        contribution_cap(target) * 10 <= target,
{
}

/// A campaign never allows both a sweep and a refund: once the window has
/// gone by, the custody balance decides which.
pub proof fn lemma_sweep_excludes_refund(
    custody: nat,
    target: nat,
    started: nat,
    duration: nat,
    now: nat,
)
    ensures
        !(sweep_allowed(custody, target, started, duration, now) && refund_allowed(
            custody,
            target,
            started,
            duration,
            now,
        )),
        window_elapsed(started, duration, now) ==> (sweep_allowed(
            custody,
            target,
            started,
            duration,
            now,
        ) || refund_allowed(custody, target, started, duration, now)),
{
}

/// Contributions and settlement meet only at the deadline itself.
pub proof fn lemma_window_meets_at_deadline(started: nat, duration: nat, now: nat)
    ensures
        (window_open(started, duration, now) && window_elapsed(started, duration, now)) <==> now
            == started + duration,
        window_open(started, duration, now) || window_elapsed(started, duration, now),
{
}

/// Computes the cap for a target.
pub fn max_contribution(target: u64) -> (cap: u64)
    ensures
        cap == contribution_cap(target as nat),
{
    let scaled: u128 = (target as u128) * (MAX_CONTRIBUTION_PERCENTAGE as u128);
    (scaled / (PERCENTAGE_SCALER as u128)) as u64
}

/// Computes one whole unit of an asset, if a `u64` can hold it.
pub fn one_whole_unit(decimals: u8) -> (unit: Option<u64>)
    ensures
        match unit {
            Some(value) => value == whole_unit(decimals as nat),
            None => whole_unit(decimals as nat) > u64::MAX,
        },
{
    let mut value: u64 = 1;
    let mut digits: u8 = 0;
    while digits < decimals
        invariant
            digits <= decimals,
            value == whole_unit(digits as nat),
        decreases decimals - digits,
    {
        if value > u64::MAX / 10 {
            proof {
                lemma_whole_unit_monotonic((digits + 1) as nat, decimals as nat);
            }
            return None;
        }
        value = value * 10;
        digits = digits + 1;
    }
    Some(value)
}

/// Tells whether contributions are still taken at `now`.
pub fn is_window_open(started: u64, duration: u8, now: u64) -> (open: bool)
    ensures
        open == window_open(started as nat, duration as nat, now as nat),
{
    now <= started || now - started <= duration as u64
}

/// Tells whether the whole window has gone by at `now`.
pub fn is_window_elapsed(started: u64, duration: u8, now: u64) -> (elapsed: bool)
    ensures
        elapsed == window_elapsed(started as nat, duration as nat, now as nat),
{
    now >= started && now - started >= duration as u64
}

} // verus!
