//! Turns independent operating-system signals (power source, battery, network,
//! device bus, sleep and resume) into one ordered, deduplicated and debounced
//! stream of events, and decides which of them are announced and with what text.

pub mod event;
pub mod battery;
pub mod power;
pub mod network;
pub mod debounce;
pub mod queue;
pub mod i18n;
pub mod dispatch;
pub mod herald;
pub mod config;
pub mod locale;
pub mod voice;
