//! The battery sensor, also reachable under this module.

pub use crate::hal::sensors::BatterySensor;
