use vstd::prelude::*;
use crate::event::{SystemEvent, power_event, power_event_of};

verus! {

/// Last-known power source: `Some(true)` on AC, `Some(false)` on battery.
#[derive(Debug, Clone, Copy, PartialEq, Eq, Structural)]
pub struct PowerCache {
    pub last_on_ac: Option<bool>,
}

/// The cache a power-source reading leaves behind, and the event it gives rise
/// to: one only when the source differs from the last known one.
pub open spec fn power_step(c: PowerCache, source: u32) -> (PowerCache, Option<SystemEvent>) {
    let on_ac = source == 0;
    if c.last_on_ac == Some(on_ac) {
        (c, None)
    } else {
        (PowerCache { last_on_ac: Some(on_ac) }, Some(power_event_of(source)))
    }
}

impl PowerCache {
    /// A cache that knows nothing yet.
    pub fn empty() -> (r: PowerCache)
        ensures
            r.last_on_ac is None,
    {
        PowerCache { last_on_ac: None }
    }

    /// Compares a raw power-source reading (0 is AC) with the cache, updates
    /// the cache on a transition, and returns the transition's event.
    pub fn observe(&mut self, source: u32) -> (r: Option<SystemEvent>)
        ensures
            (*final(self), r) == power_step(*old(self), source),
    {
        let on_ac = source == 0;
        if self.last_on_ac == Some(on_ac) {
            None
        } else {
            self.last_on_ac = Some(on_ac);
            Some(power_event(source))
        }
    }
}

/// Reporting the same power source twice in a row gives at most one event.
pub proof fn lemma_power_repeat_is_silent(c: PowerCache, source: u32)
    ensures
        power_step(power_step(c, source).0, source).1 is None,
        power_step(power_step(c, source).0, source).0 == power_step(c, source).0,
{
}

} // verus!
