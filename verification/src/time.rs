//! Time as the registry counts it: whole seconds since the Unix epoch, in a
//! `u64`.

use vstd::prelude::*;

verus! {

/// Whole seconds in a time given in milliseconds.
pub open spec fn seconds_of_millis(millis: u64) -> u64 {
    (millis / 1000) as u64
}

/// The time at which a record written at `now` for `validity_secs` seconds
/// runs out. It does not wrap: a sum past `u64::MAX` gives `u64::MAX`.
pub open spec fn expiry(now: u64, validity_secs: u64) -> u64 {
    if now + validity_secs > u64::MAX {
        u64::MAX
    } else {
        (now + validity_secs) as u64
    }
}

/// Whether a record that runs out at `valid_until` is in force at `now`. A
/// revoked record has `valid_until == 0` and is in force at no time.
pub open spec fn in_force(valid_until: u64, now: u64) -> bool {
    valid_until > now
}

/// Whole seconds in a time given in milliseconds, rounded down. The result
/// is far from `u64::MAX`.
pub fn seconds_from_millis(millis: u64) -> (secs: u64)
    ensures
        secs == seconds_of_millis(millis),
        secs <= u64::MAX / 1000,
{
    millis / 1000
}

/// The time at which a record written at `now` for `validity_secs` seconds
/// runs out: their sum, or `u64::MAX` where the sum is larger.
pub fn expiry_from(now: u64, validity_secs: u64) -> (valid_until: u64)
    ensures
        valid_until == expiry(now, validity_secs),
{
    now.saturating_add(validity_secs)
}

} // verus!
