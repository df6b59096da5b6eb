//! Device abstractions: PV, battery, generator, PCS, and charger, each with
//! its wire codec and its transport handle.

pub mod bms;
pub mod charger;
pub mod genset;
pub mod pcs;
pub mod pv_dcdc;
