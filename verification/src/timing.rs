//! Timing policies: when a worker's jobs fire.

use vstd::prelude::*;
use crate::config::ConfigValue;

verus! {

/// Fires exactly once, `delay` milliseconds after registration.
#[derive(Debug, Clone, Copy, PartialEq)]
pub struct Once {
    pub delay: u64,
}

/// Fires first after `delay` milliseconds, then every `interval`
/// milliseconds thereafter, indefinitely.
#[derive(Debug, Clone, Copy, PartialEq)]
pub struct Interval {
    pub delay: u64,
    pub interval: u64,
}

/// A worker's timing policy: exactly one variant is active.
///
/// Selection from a configuration value is structural: the presence of an
/// `interval` field selects `Interval`, its absence selects `Once`.
#[derive(Debug, Clone, Copy, PartialEq)]
pub enum Timing {
    Once(Once),
    Interval(Interval),
}

impl Default for Once {
    /// A zero delay: fire as soon as the runtime schedules it.
    fn default() -> (r: Self)
        ensures
            r == (Once { delay: 0 }),
    {
        Once { delay: 0 }
    }
}

impl Default for Interval {
    /// A zero delay and a one-second period.
    fn default() -> (r: Self)
        ensures
            r == (Interval { delay: 0, interval: 1000 }),
    {
        Interval { delay: 0, interval: 1000 }
    }
}

impl Timing {
    /// The timing a configuration value decodes to: `Interval` when the value
    /// carries an `interval` key (whatever stands under it), `Once` otherwise;
    /// `delay` defaults to zero, and a mistyped duration reads as zero.
    pub open spec fn spec_of(v: ConfigValue) -> Timing {
        if v.has_field("interval"@) {
            Timing::Interval(
                Interval {
                    delay: v.spec_u64_or("delay"@, 0),
                    interval: v.spec_u64_or("interval"@, 0),
                },
            )
        } else {
            Timing::Once(Once { delay: v.spec_u64_or("delay"@, 0) })
        }
    }

    /// Decodes a timing policy from a configuration value.
    pub fn new_from_value(v: &ConfigValue) -> (t: Timing)
        ensures
            t == Timing::spec_of(*v),
    {
        if v.has("interval") {
            Timing::Interval(
                Interval {
                    delay: v.get_u64_or("delay", 0),
                    interval: v.get_u64_or("interval", 0),
                },
            )
        } else {
            Timing::Once(Once { delay: v.get_u64_or("delay", 0) })
        }
    }

    /// The instant, in milliseconds after registration, at which the `n`-th
    /// firing of this policy is due — `None` where no `n`-th firing exists.
    pub open spec fn fire_time(self, n: nat) -> Option<int> {
        match self {
            Timing::Once(o) => if n == 0 {
                Some(o.delay as int)
            } else {
                None
            },
            Timing::Interval(iv) => Some(iv.delay + n * iv.interval),
        }
    }

    /// The initial wait before the first firing.
    pub fn delay(&self) -> (d: u64)
        ensures
            self.fire_time(0) == Some(d as int),
    {
        match self {
            Timing::Once(o) => o.delay,
            Timing::Interval(iv) => iv.delay,
        }
    }

    /// One step of a worker's schedule: the wait between the `n`-th firing
    /// and the one after it, or `None` where no later firing exists and the
    /// schedule entry retires. A `Once` policy retires after its single
    /// firing; an `Interval` policy always waits its interval again.
    pub fn wait_after(&self, n: u64) -> (r: Option<u64>)
        ensures
            r is Some <==> self.fire_time(n as nat + 1) is Some,
            r matches Some(w) ==> self.fire_time(n as nat + 1)->Some_0 - self.fire_time(
                n as nat,
            )->Some_0 == w,
    {
        match self {
            Timing::Once(_) => None,
            Timing::Interval(iv) => {
                proof {
                    assert((n as nat + 1) * iv.interval == n as nat * iv.interval + iv.interval)
                        by (nonlinear_arith);
                }
                Some(iv.interval)
            },
        }
    }
}

/// A worker configuration that carries an `interval` key — whatever stands
/// under it — decodes to an `Interval` timing, never to `Once`.
pub proof fn lemma_interval_key_selects_interval(v: ConfigValue)
    requires
        v.has_field("interval"@),
    ensures
        Timing::spec_of(v) is Interval,
{
}

/// A worker configuration without an `interval` key decodes to a `Once`
/// timing, whether or not a `delay` key is present; with no `delay` key, or
/// a `delay` of zero, the result is exactly the default `Once`.
pub proof fn lemma_no_interval_key_selects_once(v: ConfigValue)
    requires
        !v.has_field("interval"@),
    ensures
        Timing::spec_of(v) is Once,
        Timing::spec_of(v) == Timing::Once(Once { delay: v.spec_u64_or("delay"@, 0) }),
        !v.has_field("delay"@) ==> Timing::spec_of(v) == Timing::Once(Once { delay: 0 }),
        v.spec_field("delay"@) == Some(ConfigValue::UInt(0u64)) ==> Timing::spec_of(v)
            == Timing::Once(Once { delay: 0 }),
{
}

/// A `Once` policy fires exactly once: its single firing is due `delay` after
/// registration, and no later firing exists.
pub proof fn lemma_once_fires_exactly_once(o: Once)
    ensures
        Timing::Once(o).fire_time(0) == Some(o.delay as int),
        forall|n: nat| n >= 1 ==> Timing::Once(o).fire_time(n) is None,
{
}

/// An `Interval` policy fires indefinitely, at `delay`, `delay + interval`,
/// `delay + 2 * interval`, …: every firing exists, the `n`-th is due at
/// `delay + n * interval`, and consecutive firings are `interval` apart.
pub proof fn lemma_interval_fire_times(iv: Interval, n: nat)
    ensures
        Timing::Interval(iv).fire_time(n) == Some(iv.delay + n * iv.interval),
        Timing::Interval(iv).fire_time(n + 1)->Some_0 - Timing::Interval(iv).fire_time(n)->Some_0
            == iv.interval,
{
    assert((n + 1) * iv.interval == n * iv.interval + iv.interval) by (nonlinear_arith);
}

} // verus!
