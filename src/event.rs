use vstd::prelude::*;

verus! {

/// Link type of a network connection.
#[derive(Debug, Clone, Copy, PartialEq, Eq, Structural)]
pub enum ConnectionType {
    Ethernet,
    WiFi,
    Cellular,
    Unknown,
}

/// One normalized event of the stream.
#[derive(Debug)]
pub enum SystemEvent {
    PowerSwitchedToAC,
    PowerSwitchedToBattery,
    BatteryLevelReport(u8),
    UsbDeviceConnected,
    UsbDeviceDisconnected,
    SystemStartup,
    BatteryInserted,
    BatteryRemoved,
    NetworkConnected { name: String, conn_type: ConnectionType },
    NetworkDisconnected,
    SystemGoingToSleep,
    SystemResumedFromSleep,
}

/// The link type that an IANA interface-type code stands for.
pub open spec fn connection_type_of(code: u32) -> ConnectionType {
    if code == 6 {
        ConnectionType::Ethernet
    } else if code == 71 {
        ConnectionType::WiFi
    } else if code == 243 || code == 244 {
        ConnectionType::Cellular
    } else {
        ConnectionType::Unknown
    }
}

/// Classifies an IANA interface-type code.
pub fn connection_type_from_iana(code: u32) -> (r: ConnectionType)
    ensures
        r == connection_type_of(code),
{
    match code {
        6 => ConnectionType::Ethernet,
        71 => ConnectionType::WiFi,
        243 | 244 => ConnectionType::Cellular,
        _ => ConnectionType::Unknown,
    }
}

/// The event that a power-source reading stands for: 0 is AC, anything else battery.
pub open spec fn power_event_of(source: u32) -> SystemEvent {
    if source == 0 {
        SystemEvent::PowerSwitchedToAC
    } else {
        SystemEvent::PowerSwitchedToBattery
    }
}

/// Turns a raw power-source value into its event.
pub fn power_event(source: u32) -> (r: SystemEvent)
    ensures
        r == power_event_of(source),
{
    if source == 0 {
        SystemEvent::PowerSwitchedToAC
    } else {
        SystemEvent::PowerSwitchedToBattery
    }
}

} // verus!
