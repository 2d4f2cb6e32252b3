use vstd::prelude::*;

verus! {

/// Minimum spacing, in milliseconds, between two accepted events of one kind.
pub const DEBOUNCE_WINDOW_MS: u64 = 2000;

/// The two debounced kinds of device-bus occurrence.
#[derive(Debug, Clone, Copy, PartialEq, Eq, Structural)]
pub enum DeviceChange {
    Connected,
    Disconnected,
}

/// Time, in milliseconds, of the last accepted occurrence of each kind.
#[derive(Debug, Clone, Copy, PartialEq, Eq, Structural)]
pub struct DebounceState {
    pub last_connect_ms: Option<u64>,
    pub last_disconnect_ms: Option<u64>,
}

/// An occurrence at `now` is accepted when none was accepted before, or when
/// at least the window has passed since the last accepted one.
pub open spec fn debounce_accepts(last: Option<u64>, now: u64) -> bool {
    match last {
        None => true,
        Some(t) => now as int - t as int >= DEBOUNCE_WINDOW_MS as int,
    }
}

/// The last accepted time after an occurrence at `now`: moved only by acceptance.
pub open spec fn debounce_next(last: Option<u64>, now: u64) -> Option<u64> {
    if debounce_accepts(last, now) {
        Some(now)
    } else {
        last
    }
}

/// The last accepted time after feeding `times[0..i]` to a fresh filter.
pub open spec fn last_accepted_before(times: Seq<u64>, i: int) -> Option<u64>
    decreases i,
{
    if i <= 0 {
        None
    } else {
        debounce_next(last_accepted_before(times, i - 1), times[i - 1])
    }
}

/// Whether a fresh filter fed `times` in order accepts the occurrence at index `i`.
pub open spec fn accepted_at(times: Seq<u64>, i: int) -> bool {
    debounce_accepts(last_accepted_before(times, i), times[i])
}

/// Times that strictly increase.
pub open spec fn strictly_increasing(times: Seq<u64>) -> bool {
    forall|i: int, j: int| 0 <= i < j < times.len() ==> times[i] < times[j]
}

impl DebounceState {
    /// A filter that has accepted nothing yet.
    pub fn new() -> (r: DebounceState)
        ensures
            r.last_connect_ms is None,
            r.last_disconnect_ms is None,
    {
        DebounceState { last_connect_ms: None, last_disconnect_ms: None }
    }

    /// The last accepted time of one kind.
    pub open spec fn last_of(self, kind: DeviceChange) -> Option<u64> {
        match kind {
            DeviceChange::Connected => self.last_connect_ms,
            DeviceChange::Disconnected => self.last_disconnect_ms,
        }
    }

    /// The filter after an occurrence of `kind` at `now`; the other kind is untouched.
    pub open spec fn after(self, kind: DeviceChange, now: u64) -> DebounceState {
        match kind {
            DeviceChange::Connected => DebounceState {
                last_connect_ms: debounce_next(self.last_connect_ms, now),
                ..self
            },
            DeviceChange::Disconnected => DebounceState {
                last_disconnect_ms: debounce_next(self.last_disconnect_ms, now),
                ..self
            },
        }
    }

    /// Decides whether an occurrence of `kind` at time `now_ms` passes, and
    /// records it when it does.
    pub fn accept(&mut self, kind: DeviceChange, now_ms: u64) -> (r: bool)
        ensures
            r == debounce_accepts(old(self).last_of(kind), now_ms),
            *final(self) == old(self).after(kind, now_ms),
    {
        let last = match kind {
            DeviceChange::Connected => self.last_connect_ms,
            DeviceChange::Disconnected => self.last_disconnect_ms,
        };
        let ok = match last {
            None => true,
            Some(t) => now_ms >= t && now_ms - t >= DEBOUNCE_WINDOW_MS,
        };
        if ok {
            match kind {
                DeviceChange::Connected => self.last_connect_ms = Some(now_ms),
                DeviceChange::Disconnected => self.last_disconnect_ms = Some(now_ms),
            }
        }
        ok
    }
}

/// Calling `accept` on the times of a sequence in order follows the model of
/// `lemma_debounce_is_greedy`: a filter whose last accepted time of a kind is
/// the model's after `i` occurrences decides occurrence `i` as the model does,
/// and is left holding the model's state after `i + 1`.
pub proof fn lemma_accept_follows_model(d: DebounceState, kind: DeviceChange, times: Seq<u64>, i: int)
    requires
        0 <= i < times.len(),
        d.last_of(kind) == last_accepted_before(times, i),
    ensures
        debounce_accepts(d.last_of(kind), times[i]) == accepted_at(times, i),
        d.after(kind, times[i]).last_of(kind) == last_accepted_before(times, i + 1),
{
}

proof fn lemma_last_accepted_is_last_acceptance(times: Seq<u64>, i: int)
    requires
        0 <= i <= times.len(),
    ensures
        last_accepted_before(times, i) is None <==> (forall|k: int| 0 <= k < i ==> !accepted_at(times, k)),
        last_accepted_before(times, i) matches Some(t) ==> exists|j: int|
            0 <= j < i && accepted_at(times, j) && times[j] == t
                && (forall|k: int| j < k < i ==> !accepted_at(times, k)),
    decreases i,
{
    if i > 0 {
        lemma_last_accepted_is_last_acceptance(times, i - 1);
        if accepted_at(times, i - 1) {
            assert(last_accepted_before(times, i) == Some(times[i - 1]));
        } else {
            assert(last_accepted_before(times, i) == last_accepted_before(times, i - 1));
            if last_accepted_before(times, i) is None {
                assert forall|k: int| 0 <= k < i implies !accepted_at(times, k) by {
                    if k < i - 1 {
                    }
                }
            }
            if let Some(t) = last_accepted_before(times, i - 1) {
                let j = choose|j: int|
                    0 <= j < i - 1 && accepted_at(times, j) && times[j] == t
                        && (forall|k: int| j < k < i - 1 ==> !accepted_at(times, k));
                assert(forall|k: int| j < k < i ==> !accepted_at(times, k));
            }
        }
    }
}

/// Debouncing keeps exactly the greedy subsequence: over strictly increasing
/// times, the first occurrence is accepted; two accepted occurrences with none
/// accepted between them are at least the window apart; and every dropped one
/// lies within the window after the last accepted occurrence before it.
pub proof fn lemma_debounce_is_greedy(times: Seq<u64>)
    requires
        strictly_increasing(times),
    ensures
        times.len() > 0 ==> accepted_at(times, 0),
        forall|i: int, j: int|
            #![trigger accepted_at(times, i), accepted_at(times, j)]
            0 <= i < j < times.len() && accepted_at(times, i) && accepted_at(times, j)
                && (forall|k: int| i < k < j ==> !accepted_at(times, k))
                ==> times[j] - times[i] >= DEBOUNCE_WINDOW_MS,
        forall|j: int|
            0 <= j < times.len() && !accepted_at(times, j) ==> exists|i: int|
                0 <= i < j && accepted_at(times, i)
                    && (forall|k: int| i < k < j ==> !accepted_at(times, k))
                    && times[j] - times[i] < DEBOUNCE_WINDOW_MS,
{
    assert forall|i: int, j: int|
        #![trigger accepted_at(times, i), accepted_at(times, j)]
        0 <= i < j < times.len() && accepted_at(times, i) && accepted_at(times, j)
            && (forall|k: int| i < k < j ==> !accepted_at(times, k))
            implies times[j] - times[i] >= DEBOUNCE_WINDOW_MS by {
        lemma_last_accepted_is_last_acceptance(times, j);
        let t = last_accepted_before(times, j);
        assert(t is Some);
        let j2 = choose|j2: int|
            0 <= j2 < j && accepted_at(times, j2) && times[j2] == t->0
                && (forall|k: int| j2 < k < j ==> !accepted_at(times, k));
        assert(j2 == i);
    }
    assert forall|j: int| 0 <= j < times.len() && !accepted_at(times, j) implies exists|i: int|
        0 <= i < j && accepted_at(times, i)
            && (forall|k: int| i < k < j ==> !accepted_at(times, k))
            && times[j] - times[i] < DEBOUNCE_WINDOW_MS by {
        lemma_last_accepted_is_last_acceptance(times, j);
        let t = last_accepted_before(times, j);
        assert(t is Some);
        let i = choose|i: int|
            0 <= i < j && accepted_at(times, i) && times[i] == t->0
                && (forall|k: int| i < k < j ==> !accepted_at(times, k));
        assert(times[j] - times[i] < DEBOUNCE_WINDOW_MS);
    }
}

} // verus!
