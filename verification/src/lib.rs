//! Runtime control core of a battery-powered camera device.
//!
//! The library arbitrates a single status-indicator line among several
//! producers, decides between streaming and standalone recording modes,
//! monitors battery state to trigger a safe shutdown, and computes the
//! responses of the device's small HTTP control surface.  All hardware,
//! network and filesystem access lives outside this crate; the functions
//! here take plain values in and hand plain values back.

pub mod battery;
pub mod connectivity;
pub mod cpu_temp;
pub mod http;
pub mod indicator;
pub mod install;
pub mod mode;
pub mod text;
pub mod videos;

pub use battery::BatteryStats;
