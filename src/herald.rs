use vstd::prelude::*;
use crate::battery::{BatteryCache, BatterySample, battery_step};
use crate::debounce::{DebounceState, DeviceChange, debounce_accepts};
use crate::dispatch::{DispatchState, TextRequest, announcement_text, plain, reaches_text, request_for, resolve, text_view};
use crate::event::SystemEvent;
use crate::power::{PowerCache, power_step};
use crate::i18n::I18nManager;
use crate::network::{NetworkCache, NetworkIdentity, network_events, network_next};
use crate::queue::EventQueue;

verus! {

/// Something that happens to the pipeline: a sensor notification, a user
/// action, or the dispatcher asking for the next event.
pub enum Signal {
    /// The program has started.
    Startup,
    /// The power source was reported; 0 is AC.
    PowerSource(u32),
    /// A battery report was read.
    BatteryReport(BatterySample),
    /// The network status changed; the connection now in use, if any.
    NetworkReport(Option<NetworkIdentity>),
    /// A device was attached or detached at the given time in milliseconds.
    Device(DeviceChange, u64),
    /// The system is suspending.
    Suspend,
    /// The system has resumed.
    Resume,
    /// The console display changed state: 0 off, 1 on.
    DisplayState(u32),
    /// The user toggled pause.
    TogglePause,
    /// The dispatcher takes the next queued event.
    Dispatch,
    /// The user asked the program to exit.
    Exit,
}

/// The whole pipeline state: sleep gate, pause flag, sensor caches, debounce
/// filter, event queue, and what texts are resolved with.
pub struct Herald {
    sleeping: bool,
    paused: bool,
    power: PowerCache,
    battery: BatteryCache,
    network: NetworkCache,
    debounce: DebounceState,
    queue: EventQueue,
    texts: I18nManager,
    username: String,
}

/// The abstract state of a `Herald`.
pub struct HeraldView {
    pub sleeping: bool,
    pub paused: bool,
    pub power: PowerCache,
    pub battery: BatteryCache,
    pub network: Option<NetworkIdentity>,
    pub debounce: DebounceState,
    pub queue: Seq<SystemEvent>,
    pub texts: Map<Seq<char>, Seq<char>>,
    pub username: Seq<char>,
}

impl View for Herald {
    type V = HeraldView;

    closed spec fn view(&self) -> HeraldView {
        HeraldView {
            sleeping: self.sleeping,
            paused: self.paused,
            power: self.power,
            battery: self.battery,
            network: self.network.last,
            debounce: self.debounce,
            queue: self.queue@,
            texts: self.texts@,
            username: self.username@,
        }
    }
}

/// The dispatch flags of a state.
pub open spec fn gates(s: HeraldView) -> DispatchState {
    DispatchState { paused: s.paused, sleeping: s.sleeping }
}

/// `s` with events appended to its queue.
pub open spec fn enqueue(s: HeraldView, es: Seq<SystemEvent>) -> HeraldView {
    HeraldView { queue: s.queue + es, ..s }
}

/// The event that a dispatch step lets through to text resolution, if any.
pub open spec fn admitted(s: HeraldView, sig: Signal) -> Option<SystemEvent> {
    if sig is Dispatch && s.queue.len() > 0 && reaches_text(gates(s), s.queue[0]) {
        Some(s.queue[0])
    } else {
        None
    }
}

/// The state after a signal.
pub open spec fn next_state(s: HeraldView, sig: Signal) -> HeraldView {
    match sig {
        Signal::Startup => enqueue(s, seq![SystemEvent::SystemStartup]),
        Signal::PowerSource(src) => if s.sleeping {
            s
        } else {
            let (c, e) = power_step(s.power, src);
            let s1 = HeraldView { power: c, ..s };
            match e {
                Some(ev) => enqueue(s1, seq![ev]),
                None => s1,
            }
        },
        Signal::BatteryReport(sample) => if s.sleeping {
            s
        } else {
            let (c, e) = battery_step(s.battery, sample);
            let s1 = HeraldView { battery: c, ..s };
            match e {
                Some(ev) => enqueue(s1, seq![ev]),
                None => s1,
            }
        },
        Signal::NetworkReport(cur) => if s.sleeping {
            s
        } else {
            enqueue(HeraldView { network: network_next(s.network, cur), ..s }, network_events(s.network, cur))
        },
        Signal::Device(kind, now) => if s.sleeping {
            s
        } else {
            let s1 = HeraldView { debounce: s.debounce.after(kind, now), ..s };
            if debounce_accepts(s.debounce.last_of(kind), now) {
                enqueue(s1, seq![device_event(kind)])
            } else {
                s1
            }
        },
        Signal::Suspend => enqueue(HeraldView { sleeping: true, ..s }, seq![SystemEvent::SystemGoingToSleep]),
        Signal::Resume => enqueue(HeraldView { sleeping: false, ..s }, seq![SystemEvent::SystemResumedFromSleep]),
        Signal::DisplayState(d) => if d == 0 && !s.sleeping {
            enqueue(HeraldView { sleeping: true, ..s }, seq![SystemEvent::SystemGoingToSleep])
        } else if d == 1 && s.sleeping {
            enqueue(HeraldView { sleeping: false, ..s }, seq![SystemEvent::SystemResumedFromSleep])
        } else {
            s
        },
        Signal::TogglePause => HeraldView { paused: !s.paused, ..s },
        Signal::Dispatch => if s.queue.len() > 0 { HeraldView { queue: s.queue.drop_first(), ..s } } else { s },
        Signal::Exit => s,
    }
}

/// The template request a signal leads to: the admitted event's text on a
/// dispatch, the confirmation of a pause toggle, or the farewell on exit.
pub open spec fn request(s: HeraldView, sig: Signal) -> Option<TextRequest> {
    match sig {
        Signal::Dispatch => match admitted(s, sig) {
            Some(e) => request_for(e, s.username),
            None => None,
        },
        Signal::TogglePause => if s.paused { plain("announcement_resumed"@) } else { plain("announcement_paused"@) },
        Signal::Exit => plain("announcement_exit"@),
        _ => None,
    }
}

/// The event of a device-bus occurrence.
pub open spec fn device_event(kind: DeviceChange) -> SystemEvent {
    match kind {
        DeviceChange::Connected => SystemEvent::UsbDeviceConnected,
        DeviceChange::Disconnected => SystemEvent::UsbDeviceDisconnected,
    }
}

/// The state after a sequence of signals.
pub open spec fn state_after(s: HeraldView, sigs: Seq<Signal>) -> HeraldView
    decreases sigs.len(),
{
    if sigs.len() == 0 {
        s
    } else {
        next_state(state_after(s, sigs.drop_last()), sigs.last())
    }
}

/// A signal that clears the sleep gate.
pub open spec fn is_wake(sig: Signal) -> bool {
    sig is Resume || (sig matches Signal::DisplayState(d) && d == 1)
}

proof fn lemma_state_after_step(s: HeraldView, sigs: Seq<Signal>, i: int)
    requires
        0 <= i < sigs.len(),
    ensures
        state_after(s, sigs.take(i + 1)) == next_state(state_after(s, sigs.take(i)), sigs[i]),
{
    assert(sigs.take(i + 1).drop_last() =~= sigs.take(i));
}

proof fn lemma_stays_asleep(s: HeraldView, sigs: Seq<Signal>, i: int)
    requires
        sigs.len() > 0,
        sigs[0] is Suspend,
        forall|k: int| 0 < k < sigs.len() ==> !is_wake(#[trigger] sigs[k]),
        1 <= i <= sigs.len(),
    ensures
        state_after(s, sigs.take(i)).sleeping,
    decreases i,
{
    lemma_state_after_step(s, sigs, i - 1);
    if i > 1 {
        lemma_stays_asleep(s, sigs, i - 1);
        assert(!is_wake(sigs[i - 1]));
    } else {
        assert(sigs.take(0) =~= Seq::<Signal>::empty());
    }
}

/// Once the system goes to sleep, and until a signal wakes it, no event but
/// the resume event gets through to text resolution.
pub proof fn lemma_sleep_suppression(s: HeraldView, sigs: Seq<Signal>)
    requires
        sigs.len() > 0,
        sigs[0] is Suspend,
        forall|k: int| 0 < k < sigs.len() ==> !is_wake(#[trigger] sigs[k]),
    ensures
        forall|i: int| 0 < i <= sigs.len() ==> (#[trigger] state_after(s, sigs.take(i))).sleeping,
        forall|i: int|
            0 < i < sigs.len() && (#[trigger] admitted(state_after(s, sigs.take(i)), sigs[i])) is Some
                ==> admitted(state_after(s, sigs.take(i)), sigs[i])->0 is SystemResumedFromSleep,
{
    assert forall|i: int| 0 < i <= sigs.len() implies (#[trigger] state_after(s, sigs.take(i))).sleeping by {
        lemma_stays_asleep(s, sigs, i);
    }
    assert forall|i: int| 0 < i < sigs.len() && (#[trigger] admitted(state_after(s, sigs.take(i)), sigs[i])) is Some
        implies admitted(state_after(s, sigs.take(i)), sigs[i])->0 is SystemResumedFromSleep by {
        lemma_stays_asleep(s, sigs, i);
    }
}

proof fn lemma_stays_paused(s: HeraldView, sigs: Seq<Signal>, i: int)
    requires
        s.paused,
        forall|k: int| 0 <= k < sigs.len() ==> !(#[trigger] sigs[k] is TogglePause),
        0 <= i <= sigs.len(),
    ensures
        state_after(s, sigs.take(i)).paused,
    decreases i,
{
    if i > 0 {
        lemma_state_after_step(s, sigs, i - 1);
        lemma_stays_paused(s, sigs, i - 1);
        assert(!(sigs[i - 1] is TogglePause));
    } else {
        assert(sigs.take(0) =~= Seq::<Signal>::empty());
    }
}

/// While paused, and until the user toggles pause again, no event gets
/// through to text resolution; the only text asked for is the farewell on exit.
pub proof fn lemma_pause_gate(s: HeraldView, sigs: Seq<Signal>)
    requires
        s.paused,
        forall|k: int| 0 <= k < sigs.len() ==> !(#[trigger] sigs[k] is TogglePause),
    ensures
        forall|i: int| 0 <= i <= sigs.len() ==> (#[trigger] state_after(s, sigs.take(i))).paused,
        forall|i: int| 0 <= i < sigs.len() ==> (#[trigger] admitted(state_after(s, sigs.take(i)), sigs[i])) is None,
        forall|i: int|
            0 <= i < sigs.len() && (#[trigger] request(state_after(s, sigs.take(i)), sigs[i])) is Some ==> sigs[i] is Exit,
{
    assert forall|i: int| 0 <= i <= sigs.len() implies (#[trigger] state_after(s, sigs.take(i))).paused by {
        lemma_stays_paused(s, sigs, i);
    }
    assert forall|i: int| 0 <= i < sigs.len() implies (#[trigger] admitted(state_after(s, sigs.take(i)), sigs[i])) is None by {
        lemma_stays_paused(s, sigs, i);
    }
    assert forall|i: int|
        0 <= i < sigs.len() && (#[trigger] request(state_after(s, sigs.take(i)), sigs[i])) is Some implies sigs[i] is Exit by {
        lemma_stays_paused(s, sigs, i);
    }
}

/// A pause toggle flips the flag and asks for its own confirmation, which
/// is the one announcement that the pause gate lets through.
pub proof fn lemma_toggle_confirms(s: HeraldView)
    ensures
        next_state(s, Signal::TogglePause).paused == !s.paused,
        request(s, Signal::TogglePause) == if s.paused {
            plain("announcement_resumed"@)
        } else {
            plain("announcement_paused"@)
        },
{
}

/// Feeding the same power, battery or network report twice in a row queues
/// events at most once: the second report leaves the state as the first left it.
pub proof fn lemma_repeat_report_is_silent(s: HeraldView, sig: Signal)
    requires
        sig is PowerSource || sig is BatteryReport || sig is NetworkReport,
    ensures
        next_state(next_state(s, sig), sig) == next_state(s, sig),
{
    let s1 = next_state(s, sig);
    match sig {
        Signal::PowerSource(src) => {
            crate::power::lemma_power_repeat_is_silent(s.power, src);
            if !s.sleeping {
                assert(next_state(s1, sig) =~= s1);
            }
        },
        Signal::BatteryReport(sample) => {
            crate::battery::lemma_battery_repeat_is_silent(s.battery, sample);
            if !s.sleeping {
                assert(next_state(s1, sig) =~= s1);
            }
        },
        Signal::NetworkReport(cur) => {
            crate::network::lemma_network_repeat_is_silent(s.network, cur);
            if !s.sleeping {
                assert(s1.queue + Seq::<SystemEvent>::empty() =~= s1.queue);
                assert(next_state(s1, sig) =~= s1);
            }
        },
        _ => {},
    }
}

impl Herald {
    /// A pipeline primed with the battery and network readings taken when
    /// monitoring starts; awake, not paused, nothing queued.
    pub fn new(texts: I18nManager, username: String, battery: Option<BatterySample>, network: Option<NetworkIdentity>) -> (r: Herald)
        ensures
            !r@.sleeping,
            !r@.paused,
            r@.power.last_on_ac is None,
            r@.battery == BatteryCache::primed_spec(battery),
            r@.network == network,
            r@.debounce == (DebounceState { last_connect_ms: None, last_disconnect_ms: None }),
            r@.queue == Seq::<SystemEvent>::empty(),
            r@.texts == texts@,
            r@.username == username@,
    {
        Herald {
            sleeping: false,
            paused: false,
            power: PowerCache::empty(),
            battery: BatteryCache::primed(battery),
            network: NetworkCache::primed(network),
            debounce: DebounceState::new(),
            queue: EventQueue::new(),
            texts,
            username,
        }
    }

    /// Whether the sleep gate is set.
    pub fn is_sleeping(&self) -> (r: bool)
        ensures
            r == self@.sleeping,
    {
        self.sleeping
    }

    /// Whether announcements are paused.
    pub fn is_paused(&self) -> (r: bool)
        ensures
            r == self@.paused,
    {
        self.paused
    }

    /// Whether events wait to be dispatched.
    pub fn has_pending(&self) -> (r: bool)
        ensures
            r == (self@.queue.len() > 0),
    {
        !self.queue.is_empty()
    }

    /// The template table in use.
    pub fn texts(&self) -> (r: &I18nManager)
        ensures
            r@ == self@.texts,
    {
        &self.texts
    }

    /// Replaces the template table, as when the user picks another language.
    pub fn set_texts(&mut self, texts: I18nManager)
        ensures
            final(self)@ == (HeraldView { texts: texts@, ..old(self)@ }),
    {
        self.texts = texts;
    }

    fn push(&mut self, e: SystemEvent)
        ensures
            final(self)@ == enqueue(old(self)@, seq![e]),
    {
        self.queue.send(e);
        assert(old(self)@.queue.push(e) =~= old(self)@.queue + seq![e]);
    }

    /// Applies one signal and returns the text to speak, if any.
    pub fn step(&mut self, sig: Signal) -> (r: Option<String>)
        ensures
            final(self)@ == next_state(old(self)@, sig),
            text_view(r) == resolve(old(self)@.texts, request(old(self)@, sig)),
    {
        let ghost s = self@;
        match sig {
            Signal::Startup => {
                self.push(SystemEvent::SystemStartup);
                None
            },
            Signal::PowerSource(src) => {
                if !self.sleeping {
                    let e = self.power.observe(src);
                    match e {
                        Some(ev) => self.push(ev),
                        None => {},
                    }
                }
                None
            },
            Signal::BatteryReport(sample) => {
                if !self.sleeping {
                    let e = self.battery.observe(&sample);
                    match e {
                        Some(ev) => self.push(ev),
                        None => {},
                    }
                }
                None
            },
            Signal::NetworkReport(cur) => {
                if !self.sleeping {
                    let mut events = self.network.observe(cur);
                    let ghost es = events@;
                    let ghost mid = self@;
                    let mut i: usize = 0;
                    let n = events.len();
                    while events.len() > 0
                        invariant
                            events@ == es.skip(i as int),
                            i + events@.len() == n,
                            n == es.len(),
                            self@ == enqueue(mid, es.take(i as int)),
                        decreases events.len(),
                    {
                        let e = events.remove(0);
                        self.push(e);
                        proof {
                            assert(es.take(i as int) + seq![e] =~= es.take(i as int + 1));
                            assert(mid.queue + es.take(i as int) + seq![e] =~= mid.queue + es.take(i as int + 1));
                        }
                        i = i + 1;
                    }
                    assert(es.take(n as int) =~= es);
                }
                None
            },
            Signal::Device(kind, now) => {
                if !self.sleeping {
                    if self.debounce.accept(kind, now) {
                        let ev = match kind {
                            DeviceChange::Connected => SystemEvent::UsbDeviceConnected,
                            DeviceChange::Disconnected => SystemEvent::UsbDeviceDisconnected,
                        };
                        self.push(ev);
                    }
                }
                None
            },
            Signal::Suspend => {
                self.sleeping = true;
                self.push(SystemEvent::SystemGoingToSleep);
                None
            },
            Signal::Resume => {
                self.sleeping = false;
                self.push(SystemEvent::SystemResumedFromSleep);
                None
            },
            Signal::DisplayState(d) => {
                if d == 0 && !self.sleeping {
                    self.sleeping = true;
                    self.push(SystemEvent::SystemGoingToSleep);
                } else if d == 1 && self.sleeping {
                    self.sleeping = false;
                    self.push(SystemEvent::SystemResumedFromSleep);
                }
                None
            },
            Signal::TogglePause => {
                self.paused = !self.paused;
                if self.paused {
                    self.texts.get_text("announcement_paused")
                } else {
                    self.texts.get_text("announcement_resumed")
                }
            },
            Signal::Dispatch => {
                match self.queue.try_recv() {
                    None => None,
                    Some(e) => {
                        let st = DispatchState { paused: self.paused, sleeping: self.sleeping };
                        if st.admits(&e) {
                            announcement_text(&self.texts, &e, self.username.as_str())
                        } else {
                            None
                        }
                    },
                }
            },
            Signal::Exit => self.texts.get_text("announcement_exit"),
        }
    }
}

} // verus!
