use vstd::prelude::*;
use vstd::string::StringExecFns;
use crate::event::{ConnectionType, SystemEvent};
use crate::i18n::{I18nManager, placeholder, replace_all};

verus! {

/// Pause and sleep flags that decide whether an event is announced.
#[derive(Debug, Clone, Copy, PartialEq, Eq, Structural)]
pub struct DispatchState {
    pub paused: bool,
    pub sleeping: bool,
}

/// Whether an event gets past the gates to text resolution: while asleep only
/// the resume event passes, the going-to-sleep event never does, and nothing
/// passes while paused.
pub open spec fn reaches_text(st: DispatchState, e: SystemEvent) -> bool {
    &&& !(st.sleeping && !(e is SystemResumedFromSleep))
    &&& !(e is SystemGoingToSleep)
    &&& !st.paused
}

impl DispatchState {
    /// Applies the gates to an event.
    pub fn admits(&self, e: &SystemEvent) -> (r: bool)
        ensures
            r == reaches_text(*self, *e),
    {
        if self.sleeping && !matches!(e, SystemEvent::SystemResumedFromSleep) {
            return false;
        }
        if matches!(e, SystemEvent::SystemGoingToSleep) {
            return false;
        }
        !self.paused
    }
}

/// A template key with an optional parameter name and value.
pub struct TextRequest {
    pub key: Seq<char>,
    pub param: Option<(Seq<char>, Seq<char>)>,
}

/// A request for a template without a parameter.
pub open spec fn plain(key: Seq<char>) -> Option<TextRequest> {
    Some(TextRequest { key, param: None })
}

/// A request for a template with one parameter.
pub open spec fn with_param(key: Seq<char>, name: Seq<char>, value: Seq<char>) -> Option<TextRequest> {
    Some(TextRequest { key, param: Some((name, value)) })
}

/// The decimal digit character of `d < 10`.
pub open spec fn digit_char(d: nat) -> char {
    if d == 0 { '0' } else if d == 1 { '1' } else if d == 2 { '2' } else if d == 3 { '3' }
    else if d == 4 { '4' } else if d == 5 { '5' } else if d == 6 { '6' } else if d == 7 { '7' }
    else if d == 8 { '8' } else { '9' }
}

/// Decimal notation of a natural number, without leading zeros.
pub open spec fn decimal(n: nat) -> Seq<char>
    decreases n,
{
    if n < 10 {
        seq![digit_char(n)]
    } else {
        decimal(n / 10).push(digit_char(n % 10))
    }
}

/// The template request of an event: key, and the parameter it fills in.
pub open spec fn request_for(e: SystemEvent, username: Seq<char>) -> Option<TextRequest> {
    match e {
        SystemEvent::SystemStartup => with_param("system_online"@, "user"@, username),
        SystemEvent::PowerSwitchedToAC => plain("external_power_connected"@),
        SystemEvent::PowerSwitchedToBattery => plain("switched_to_battery"@),
        SystemEvent::BatteryLevelReport(level) => with_param("battery_level_report"@, "level"@, decimal(level as nat)),
        SystemEvent::UsbDeviceConnected => plain("usb_device_detected"@),
        SystemEvent::UsbDeviceDisconnected => plain("usb_device_disconnected"@),
        SystemEvent::BatteryInserted => plain("battery_inserted"@),
        SystemEvent::BatteryRemoved => plain("battery_removed"@),
        SystemEvent::NetworkConnected { name, conn_type } => if conn_type == ConnectionType::WiFi {
            with_param("network_connected_wifi"@, "SSID"@, name@)
        } else {
            plain("network_connected_ethernet"@)
        },
        SystemEvent::NetworkDisconnected => plain("network_disconnected"@),
        SystemEvent::SystemResumedFromSleep => plain("system_resumed_from_sleep"@),
        SystemEvent::SystemGoingToSleep => None,
    }
}

/// The text a request resolves to in a template table; `None` when there is no
/// request or no template for its key.
pub open spec fn resolve(table: Map<Seq<char>, Seq<char>>, req: Option<TextRequest>) -> Option<Seq<char>> {
    match req {
        None => None,
        Some(r) => if table.contains_key(r.key) {
            match r.param {
                None => Some(table[r.key]),
                Some((name, value)) => Some(replace_all(table[r.key], placeholder(name), value)),
            }
        } else {
            None
        },
    }
}

/// The view of an optional string.
pub open spec fn text_view(t: Option<String>) -> Option<Seq<char>> {
    match t {
        Some(s) => Some(s@),
        None => None,
    }
}

fn digit_str(d: u8) -> (r: &'static str)
    requires
        d < 10,
    ensures
        r@ == seq![digit_char(d as nat)],
{
    proof {
        reveal_strlit("0"); reveal_strlit("1"); reveal_strlit("2"); reveal_strlit("3");
        reveal_strlit("4"); reveal_strlit("5"); reveal_strlit("6"); reveal_strlit("7");
        reveal_strlit("8"); reveal_strlit("9");
    }
    match d {
        0 => "0",
        1 => "1",
        2 => "2",
        3 => "3",
        4 => "4",
        5 => "5",
        6 => "6",
        7 => "7",
        8 => "8",
        _ => "9",
    }
}

/// Decimal notation of a byte.
pub fn decimal_text(n: u8) -> (r: String)
    ensures
        r@ == decimal(n as nat),
{
    if n < 10 {
        String::from_str(digit_str(n))
    } else if n < 100 {
        let mut s = String::from_str(digit_str(n / 10));
        s.append(digit_str(n % 10));
        assert(decimal(n as nat) == decimal((n / 10) as nat).push(digit_char((n % 10) as nat)));
        s
    } else {
        let mut s = String::from_str(digit_str(n / 100));
        s.append(digit_str((n / 10) % 10));
        s.append(digit_str(n % 10));
        assert(decimal((n / 10) as nat) == decimal((n / 100) as nat).push(digit_char(((n / 10) % 10) as nat))) by {
            assert((n / 10) / 10 == n / 100);
        }
        s
    }
}

/// Resolves the text announcing an event, from the template table and the
/// name of the signed-in user.
pub fn announcement_text(table: &I18nManager, e: &SystemEvent, username: &str) -> (r: Option<String>)
    ensures
        text_view(r) == resolve(table@, request_for(*e, username@)),
{
    match e {
        SystemEvent::SystemStartup => table.get_text_with_param("system_online", "user", username),
        SystemEvent::PowerSwitchedToAC => table.get_text("external_power_connected"),
        SystemEvent::PowerSwitchedToBattery => table.get_text("switched_to_battery"),
        SystemEvent::BatteryLevelReport(level) => {
            let digits = decimal_text(*level);
            table.get_text_with_param("battery_level_report", "level", digits.as_str())
        },
        SystemEvent::UsbDeviceConnected => table.get_text("usb_device_detected"),
        SystemEvent::UsbDeviceDisconnected => table.get_text("usb_device_disconnected"),
        SystemEvent::BatteryInserted => table.get_text("battery_inserted"),
        SystemEvent::BatteryRemoved => table.get_text("battery_removed"),
        SystemEvent::NetworkConnected { name, conn_type } => match conn_type {
            ConnectionType::WiFi => table.get_text_with_param("network_connected_wifi", "SSID", name.as_str()),
            _ => table.get_text("network_connected_ethernet"),
        },
        SystemEvent::NetworkDisconnected => table.get_text("network_disconnected"),
        SystemEvent::SystemResumedFromSleep => table.get_text("system_resumed_from_sleep"),
        SystemEvent::SystemGoingToSleep => None,
    }
}

} // verus!
