//! Control core of an energy-management system: device wire codecs,
//! transport clients, and the power-balancing controller.

pub mod commands;
pub mod devices;
pub mod drivers;
pub mod ems_core;
pub mod errors;
pub mod gps;
pub mod types;
pub mod uplink;
pub mod wire;
