use system_herald::battery::BatterySample;
use system_herald::debounce::DeviceChange;
use system_herald::event::{ConnectionType, SystemEvent};
use system_herald::herald::{Herald, Signal};
use system_herald::i18n::I18nManager;
use system_herald::network::NetworkIdentity;
use system_herald::queue::EventQueue;

fn table() -> I18nManager {
    let mut t = I18nManager::empty();
    for (k, v) in [
        ("system_online", "Welcome {user}"),
        ("external_power_connected", "AC"),
        ("switched_to_battery", "DC"),
        ("battery_level_report", "Level {level}%"),
        ("usb_device_detected", "Device in"),
        ("usb_device_disconnected", "Device out"),
        ("battery_inserted", "Battery in"),
        ("battery_removed", "Battery out"),
        ("network_connected_wifi", "WiFi {SSID}"),
        ("network_connected_ethernet", "Wired"),
        ("network_disconnected", "Offline"),
        ("system_resumed_from_sleep", "Awake"),
        ("announcement_paused", "Paused"),
        ("announcement_resumed", "Resumed"),
        ("announcement_exit", "Bye"),
    ] {
        t.insert(k.to_string(), v.to_string());
    }
    t
}

fn herald() -> Herald {
    let net = Some(NetworkIdentity { name: "Home".to_string(), conn_type: ConnectionType::WiFi });
    let bat = Some(BatterySample { full_capacity_mwh: 100, remaining_capacity_mwh: 50 });
    Herald::new(table(), "Ann".to_string(), bat, net)
}

fn drain(h: &mut Herald) -> Vec<Option<String>> {
    let mut out = Vec::new();
    while h.has_pending() {
        out.push(h.step(Signal::Dispatch));
    }
    out
}

fn spoken(h: &mut Herald) -> Vec<String> {
    drain(h).into_iter().flatten().collect()
}

#[test]
fn startup_greets_user() {
    let mut h = herald();
    assert_eq!(h.step(Signal::Startup), None);
    assert_eq!(spoken(&mut h), vec!["Welcome Ann".to_string()]);
}

#[test]
fn suspend_then_network_blip_then_resume() {
    let mut h = herald();
    h.step(Signal::Suspend);
    assert!(h.is_sleeping());
    h.step(Signal::NetworkReport(Some(NetworkIdentity { name: "Blip".to_string(), conn_type: ConnectionType::Ethernet })));
    h.step(Signal::Resume);
    assert!(!h.is_sleeping());
    assert_eq!(drain(&mut h), vec![None, Some("Awake".to_string())]);
    h.step(Signal::NetworkReport(Some(NetworkIdentity { name: "Home".to_string(), conn_type: ConnectionType::WiFi })));
    assert!(!h.has_pending());
}

#[test]
fn nothing_but_resume_is_spoken_while_asleep() {
    let mut h = herald();
    h.step(Signal::PowerSource(0));
    h.step(Signal::Resume);
    h.step(Signal::Suspend);
    h.step(Signal::PowerSource(1));
    h.step(Signal::BatteryReport(BatterySample { full_capacity_mwh: 0, remaining_capacity_mwh: 0 }));
    h.step(Signal::Device(DeviceChange::Connected, 0));
    assert_eq!(drain(&mut h), vec![None, Some("Awake".to_string()), None]);
}

#[test]
fn display_state_drives_sleep_gate() {
    let mut h = herald();
    h.step(Signal::DisplayState(1));
    assert!(!h.has_pending());
    h.step(Signal::DisplayState(0));
    assert!(h.is_sleeping());
    h.step(Signal::DisplayState(0));
    h.step(Signal::DisplayState(1));
    assert!(!h.is_sleeping());
    assert_eq!(drain(&mut h), vec![None, Some("Awake".to_string())]);
}

#[test]
fn pause_silences_events_but_confirms_itself() {
    let mut h = herald();
    assert_eq!(h.step(Signal::TogglePause), Some("Paused".to_string()));
    assert!(h.is_paused());
    h.step(Signal::PowerSource(0));
    h.step(Signal::Device(DeviceChange::Disconnected, 10));
    assert_eq!(drain(&mut h), vec![None, None]);
    assert_eq!(h.step(Signal::Exit), Some("Bye".to_string()));
    assert_eq!(h.step(Signal::TogglePause), Some("Resumed".to_string()));
    h.step(Signal::PowerSource(1));
    assert_eq!(spoken(&mut h), vec!["DC".to_string()]);
}

#[test]
fn going_to_sleep_is_never_spoken() {
    let mut q = Herald::new(I18nManager::empty(), "x".to_string(), None, None);
    q.step(Signal::Suspend);
    assert_eq!(drain(&mut q), vec![None]);
}

#[test]
fn event_texts() {
    let mut h = herald();
    h.step(Signal::PowerSource(7));
    h.step(Signal::BatteryReport(BatterySample { full_capacity_mwh: 100, remaining_capacity_mwh: 42 }));
    h.step(Signal::NetworkReport(Some(NetworkIdentity { name: "Cafe".to_string(), conn_type: ConnectionType::WiFi })));
    h.step(Signal::NetworkReport(Some(NetworkIdentity { name: "Dock".to_string(), conn_type: ConnectionType::Cellular })));
    h.step(Signal::Device(DeviceChange::Connected, 100));
    h.step(Signal::Device(DeviceChange::Disconnected, 200));
    h.step(Signal::BatteryReport(BatterySample { full_capacity_mwh: 0, remaining_capacity_mwh: 42 }));
    h.step(Signal::BatteryReport(BatterySample { full_capacity_mwh: 100, remaining_capacity_mwh: 42 }));
    let got = spoken(&mut h);
    let want: Vec<String> = [
        "DC", "Level 42%", "Offline", "WiFi Cafe", "Offline", "Wired", "Device in", "Device out", "Battery out", "Battery in",
    ]
    .iter()
    .map(|s| s.to_string())
    .collect();
    assert_eq!(got, want);
}

#[test]
fn device_bursts_are_debounced_in_pipeline() {
    let mut h = herald();
    h.step(Signal::Device(DeviceChange::Connected, 0));
    h.step(Signal::Device(DeviceChange::Connected, 500));
    h.step(Signal::Device(DeviceChange::Connected, 3000));
    assert_eq!(spoken(&mut h), vec!["Device in".to_string(), "Device in".to_string()]);
}

#[test]
fn repeated_reports_give_one_event() {
    let mut h = herald();
    let s = BatterySample { full_capacity_mwh: 100, remaining_capacity_mwh: 60 };
    h.step(Signal::BatteryReport(s));
    h.step(Signal::BatteryReport(s));
    let n = || Some(NetworkIdentity { name: "Home".to_string(), conn_type: ConnectionType::WiFi });
    h.step(Signal::NetworkReport(n()));
    h.step(Signal::NetworkReport(n()));
    assert_eq!(spoken(&mut h), vec!["Level 60%".to_string()]);
}

#[test]
fn missing_template_drops_event() {
    let mut h = Herald::new(I18nManager::empty(), "x".to_string(), None, None);
    h.step(Signal::PowerSource(0));
    assert_eq!(drain(&mut h), vec![None]);
    assert_eq!(h.step(Signal::TogglePause), None);
    assert!(h.is_paused());
}

#[test]
fn language_switch_takes_effect() {
    let mut h = herald();
    let mut other = I18nManager::empty();
    other.insert("external_power_connected".to_string(), "Netzstrom".to_string());
    h.set_texts(other);
    assert_eq!(h.texts().get_text("external_power_connected"), Some("Netzstrom".to_string()));
    h.step(Signal::PowerSource(0));
    assert_eq!(spoken(&mut h), vec!["Netzstrom".to_string()]);
}

#[test]
fn queue_is_first_in_first_out() {
    let mut q = EventQueue::new();
    assert!(q.is_empty());
    q.send(SystemEvent::NetworkDisconnected);
    q.send(SystemEvent::NetworkConnected { name: "A".to_string(), conn_type: ConnectionType::WiFi });
    q.send(SystemEvent::BatteryLevelReport(3));
    assert_eq!(q.len(), 3);
    assert!(matches!(q.try_recv(), Some(SystemEvent::NetworkDisconnected)));
    assert!(matches!(q.try_recv(), Some(SystemEvent::NetworkConnected { .. })));
    q.send(SystemEvent::SystemStartup);
    assert!(matches!(q.try_recv(), Some(SystemEvent::BatteryLevelReport(3))));
    assert!(matches!(q.try_recv(), Some(SystemEvent::SystemStartup)));
    assert!(q.try_recv().is_none());
}

#[test]
fn repeated_power_readings_give_one_event() {
    let mut h = herald();
    h.step(Signal::PowerSource(0));
    h.step(Signal::PowerSource(0));
    h.step(Signal::PowerSource(1));
    h.step(Signal::PowerSource(1));
    h.step(Signal::PowerSource(0));
    assert_eq!(spoken(&mut h), vec!["AC".to_string(), "DC".to_string(), "AC".to_string()]);
}

#[test]
fn power_reading_while_asleep_leaves_cache() {
    let mut h = herald();
    h.step(Signal::PowerSource(0));
    h.step(Signal::Suspend);
    h.step(Signal::PowerSource(1));
    h.step(Signal::Resume);
    h.step(Signal::PowerSource(1));
    assert_eq!(spoken(&mut h), vec!["AC".to_string(), "Awake".to_string(), "DC".to_string()]);
}
