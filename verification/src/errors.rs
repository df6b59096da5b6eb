//! Error taxonomy: transport-level error types and the single
//! device-level error kind that the controller sees.

use vstd::prelude::*;

verus! {

/// Errors reported by the Modbus/TCP client.
#[derive(Debug, Clone, PartialEq, Eq)]
pub enum ModbusError {
    ConnectionFailed(String),
    Timeout,
    ProtocolError(String),
    InvalidData(String),
}

/// Errors reported by the CAN bus driver.
#[derive(Debug, Clone, PartialEq, Eq)]
pub enum CanError {
    ConnectionFailed(String),
    Timeout,
    ProtocolError(String),
    InvalidData(String),
    ConfigError(String),
}

/// The device-boundary error taxonomy. Devices translate transport
/// errors into these kinds; the controller never sees transport-specific
/// variants.
#[derive(Debug, Clone, Copy, PartialEq, Eq, Structural)]
pub enum DeviceError {
    ConnectionFailed,
    Timeout,
    ProtocolError,
    InvalidData,
    ConfigError,
    NotConnected,
    Poisoned,
}

impl ModbusError {
    /// The device-level kind of this transport error.
    pub fn kind(&self) -> (r: DeviceError)
        ensures
            r == self.kind_spec(),
    {
        match self {
            ModbusError::ConnectionFailed(_) => DeviceError::ConnectionFailed,
            ModbusError::Timeout => DeviceError::Timeout,
            ModbusError::ProtocolError(_) => DeviceError::ProtocolError,
            ModbusError::InvalidData(_) => DeviceError::InvalidData,
        }
    }

    pub open spec fn kind_spec(&self) -> DeviceError {
        match self {
            ModbusError::ConnectionFailed(_) => DeviceError::ConnectionFailed,
            ModbusError::Timeout => DeviceError::Timeout,
            ModbusError::ProtocolError(_) => DeviceError::ProtocolError,
            ModbusError::InvalidData(_) => DeviceError::InvalidData,
        }
    }
}

impl CanError {
    /// The device-level kind of this transport error.
    pub fn kind(&self) -> (r: DeviceError)
        ensures
            r == self.kind_spec(),
    {
        match self {
            CanError::ConnectionFailed(_) => DeviceError::ConnectionFailed,
            CanError::Timeout => DeviceError::Timeout,
            CanError::ProtocolError(_) => DeviceError::ProtocolError,
            CanError::InvalidData(_) => DeviceError::InvalidData,
            CanError::ConfigError(_) => DeviceError::ConfigError,
        }
    }

    pub open spec fn kind_spec(&self) -> DeviceError {
        match self {
            CanError::ConnectionFailed(_) => DeviceError::ConnectionFailed,
            CanError::Timeout => DeviceError::Timeout,
            CanError::ProtocolError(_) => DeviceError::ProtocolError,
            CanError::InvalidData(_) => DeviceError::InvalidData,
            CanError::ConfigError(_) => DeviceError::ConfigError,
        }
    }
}

} // verus!
