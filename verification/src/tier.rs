//! Three-tier classification of a used/total ratio against fixed thresholds.

use vstd::prelude::*;

verus! {

/// Severity tier of a metric, derived from its used/total ratio.
#[derive(Clone, Copy, PartialEq, Eq, Structural, Debug)]
pub enum Tier {
    Normal,
    Warning,
    Critical,
}

/// The tier of `used` out of `total`: critical when `used` is at least four
/// fifths of `total` and warning when it is at least one half, both as exact
/// fractions; normal otherwise, and normal when `total` is zero so that the
/// ratio is never formed over a zero divisor.
pub open spec fn spec_tier(used: nat, total: nat) -> Tier {
    if total == 0 {
        Tier::Normal
    } else if 5 * used >= 4 * total {
        Tier::Critical
    } else if 2 * used >= total {
        Tier::Warning
    } else {
        Tier::Normal
    }
}

/// Classifies `used` out of `total` into a [`Tier`].
pub fn tier_of(used: u64, total: u64) -> (t: Tier)
    ensures
        t == spec_tier(used as nat, total as nat),
        total == 0 ==> t == Tier::Normal,
{
    let u: u128 = used as u128;
    let tot: u128 = total as u128;
    if total == 0 {
        Tier::Normal
    } else if 5 * u >= 4 * tot {
        Tier::Critical
    } else if 2 * u >= tot {
        Tier::Warning
    } else {
        Tier::Normal
    }
}

} // verus!
