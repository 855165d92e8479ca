//! Verified core of a utility that connects Bluetooth devices and
//! disconnects them again once a per-device timeout runs out.

pub mod app;
pub mod card;
pub mod connect_os;
pub mod device;
pub mod device_order;
pub mod discover;
pub mod duration_text;
pub mod editing;
pub mod ext;
pub mod logging;
pub mod mac_address;
pub mod notification;
pub mod remove;
pub mod time_span;
pub mod timeout;
pub mod timeout_laws;
pub mod win32;
pub mod with_err;
