//! Transport drivers: the Modbus/TCP client and the CAN bus driver.

pub mod can;
pub mod modbus;
