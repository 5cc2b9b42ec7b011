//! Verified core logic of a custom Launchpad firmware: LED engine, app host and
//! setup menus, USB MIDI plumbing, and the per-device surface decoders.

pub mod events;
pub mod bits;
pub mod usb;
pub mod launchpad_pro_mk3;
pub mod spsc;
pub mod launchpad_pro;
pub mod driver;
pub mod palette;
pub mod settings;
pub mod led;
pub mod storage;
pub mod system;
pub mod app;
pub mod launchpad_mk2;
pub mod launchpad_s_and_mini;
pub mod launchpad_mini_mk3;
