//! Double-buffered pixel memory and transmission state for eight parallel
//! WS2811 / WS2813 LED strings.
pub mod color;
pub mod config;
pub mod driver;

pub use color::ColorOrder;
pub use config::TypeRate;
pub use driver::{DriverError, HardwareSlot, OctoWS2811, ShowStep};
