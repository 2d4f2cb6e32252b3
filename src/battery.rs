use vstd::prelude::*;
use crate::event::SystemEvent;

verus! {

/// One complete battery report: both capacities were read. A report whose
/// read failed is no sample at all, and so changes nothing.
#[derive(Debug, Clone, Copy, PartialEq, Eq, Structural)]
pub struct BatterySample {
    pub full_capacity_mwh: i32,
    pub remaining_capacity_mwh: i32,
}

/// Last-known battery presence and charge percentage.
#[derive(Debug, Clone, Copy, PartialEq, Eq, Structural)]
pub struct BatteryCache {
    pub last_present: Option<bool>,
    pub last_percentage: Option<u8>,
}

/// `remaining / full * 100` rounded half away from zero, kept within 0..=100.
pub open spec fn percent_of(remaining: int, full: int) -> int
    recommends
        full > 0,
{
    if remaining <= 0 {
        0
    } else if remaining >= full {
        100
    } else {
        (200 * remaining + full) / (2 * full)
    }
}

/// A battery is present when its full-charge capacity reads as positive.
pub open spec fn sample_present(s: BatterySample) -> bool {
    s.full_capacity_mwh > 0
}

/// The charge percentage of a sample, when its full capacity is positive.
pub open spec fn sample_percentage(s: BatterySample) -> Option<u8> {
    if s.full_capacity_mwh > 0 {
        Some(percent_of(s.remaining_capacity_mwh as int, s.full_capacity_mwh as int) as u8)
    } else {
        None
    }
}

/// The cache a sample leaves behind, and the event it gives rise to.
pub open spec fn battery_step(c: BatteryCache, s: BatterySample) -> (BatteryCache, Option<SystemEvent>) {
    let present = sample_present(s);
    let pct = sample_percentage(s);
    if c.last_present != Some(present) {
        (
            BatteryCache { last_present: Some(present), last_percentage: pct },
            Some(if present { SystemEvent::BatteryInserted } else { SystemEvent::BatteryRemoved }),
        )
    } else if present && c.last_percentage != pct && pct is Some {
        (
            BatteryCache { last_present: c.last_present, last_percentage: pct },
            Some(SystemEvent::BatteryLevelReport(pct->0)),
        )
    } else {
        (c, None)
    }
}

/// Charge percentage of a battery with the given capacities, `None` when `full` is not positive.
pub fn battery_percentage(remaining: i32, full: i32) -> (r: Option<u8>)
    ensures
        full > 0 ==> r == Some(percent_of(remaining as int, full as int) as u8),
        full <= 0 ==> r is None,
{
    if full <= 0 {
        return None;
    }
    if remaining <= 0 {
        return Some(0);
    }
    if remaining >= full {
        return Some(100);
    }
    let num: i64 = 200 * (remaining as i64) + (full as i64);
    let den: i64 = 2 * (full as i64);
    let q: i64 = num / den;
    assert(0 <= q <= 100) by (nonlinear_arith)
        requires
            q == num / den,
            num == 200 * (remaining as i64) + (full as i64),
            den == 2 * (full as i64),
            0 < remaining < full,
    {
        assert(num < 101 * den);
        assert(q * den <= num);
    }
    Some(q as u8)
}

impl BatterySample {
    /// Whether the sample shows a battery.
    pub fn is_present(&self) -> (r: bool)
        ensures
            r == sample_present(*self),
    {
        self.full_capacity_mwh > 0
    }

    /// The sample's charge percentage, if it can be computed.
    pub fn percentage(&self) -> (r: Option<u8>)
        ensures
            r == sample_percentage(*self),
    {
        battery_percentage(self.remaining_capacity_mwh, self.full_capacity_mwh)
    }
}

impl BatteryCache {
    /// A cache that knows nothing yet.
    pub fn empty() -> (r: BatteryCache)
        ensures
            r.last_present is None,
            r.last_percentage is None,
    {
        BatteryCache { last_present: None, last_percentage: None }
    }

    /// The cache primed from the report read when monitoring starts; empty when that read failed.
    pub fn primed(initial: Option<BatterySample>) -> (r: BatteryCache)
        ensures
            r == BatteryCache::primed_spec(initial),
    {
        match initial {
            None => BatteryCache::empty(),
            Some(s) => BatteryCache { last_present: Some(s.is_present()), last_percentage: s.percentage() },
        }
    }

    /// The cache primed from an initial report, or empty when there was none.
    pub open spec fn primed_spec(initial: Option<BatterySample>) -> BatteryCache {
        match initial {
            None => BatteryCache { last_present: None, last_percentage: None },
            Some(s) => BatteryCache { last_present: Some(sample_present(s)), last_percentage: sample_percentage(s) },
        }
    }

    /// Compares a new report with the cache, updates the cache on a real change,
    /// and returns the event the change gives rise to.
    pub fn observe(&mut self, sample: &BatterySample) -> (r: Option<SystemEvent>)
        ensures
            (*final(self), r) == battery_step(*old(self), *sample),
    {
        let present = sample.is_present();
        let pct = sample.percentage();
        if self.last_present != Some(present) {
            self.last_present = Some(present);
            self.last_percentage = pct;
            Some(if present { SystemEvent::BatteryInserted } else { SystemEvent::BatteryRemoved })
        } else if present && self.last_percentage != pct && pct.is_some() {
            self.last_percentage = pct;
            match pct {
                Some(p) => Some(SystemEvent::BatteryLevelReport(p)),
                None => None,
            }
        } else {
            None
        }
    }
}

/// Feeding the same sample twice in a row gives at most one event: the second
/// report finds the cache already up to date.
pub proof fn lemma_battery_repeat_is_silent(c: BatteryCache, s: BatterySample)
    ensures
        battery_step(battery_step(c, s).0, s).1 is None,
        battery_step(battery_step(c, s).0, s).0 == battery_step(c, s).0,
{
}

} // verus!
