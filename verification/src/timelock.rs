//! The time-lock enforcer.
//!
//! A stake may be unwound only once the configured minimum freeze
//! period has elapsed since it was created. Elapsed time exactly equal
//! to the period is unlockable (the boundary is inclusive). The current
//! time is supplied by the host's trusted clock, never by a client.

use vstd::prelude::*;

verus! {

/// Whether a stake created at `staked_at` may be unwound at `now`,
/// given a minimum freeze period of `min_freeze_period` seconds:
/// exactly when `now - staked_at >= min_freeze_period`.
pub open spec fn unlockable(staked_at: i64, min_freeze_period: u32, now: i64) -> bool {
    now - staked_at >= min_freeze_period
}

/// Decides `unlockable` on machine integers. The subtraction is done
/// at a wider width, so no pair of timestamps overflows.
pub fn is_unlockable(staked_at: i64, min_freeze_period: u32, now: i64) -> (r: bool)
    ensures
        r == unlockable(staked_at, min_freeze_period, now),
{
    let elapsed: i128 = (now as i128) - (staked_at as i128);
    elapsed >= min_freeze_period as i128
}

} // verus!
