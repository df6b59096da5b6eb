//! Power conversion system: mode and signed active power over two Modbus
//! holding registers, with the signed setpoint carried as a two's-
//! complement register word.

use vstd::prelude::*;

use crate::drivers::modbus::ModbusClient;
use crate::errors::DeviceError;
use crate::types::{PcsMode, PcsStatus};
use crate::wire;
use crate::wire::{clamp_spec, i16_of_wire, wire_of_i16};

verus! {

/// Modbus register that holds the operating mode.
pub const PCS_MODE_REGISTER: u16 = 1;

/// Modbus register that holds the signed active power.
pub const PCS_POWER_REGISTER: u16 = 2;

/// The register value each mode is written as.
pub open spec fn spec_pcs_mode_value(m: PcsMode) -> u16 {
    match m {
        PcsMode::Standby => 0,
        PcsMode::Charging => 1,
        PcsMode::Discharging => 2,
        PcsMode::GridTie => 3,
        PcsMode::OffGrid => 4,
        PcsMode::Fault => 5,
    }
}

/// The mode a register value decodes to, for values 0..=5.
pub open spec fn spec_pcs_mode_of(v: int) -> PcsMode {
    if v == 0 {
        PcsMode::Standby
    } else if v == 1 {
        PcsMode::Charging
    } else if v == 2 {
        PcsMode::Discharging
    } else if v == 3 {
        PcsMode::GridTie
    } else if v == 4 {
        PcsMode::OffGrid
    } else {
        PcsMode::Fault
    }
}

/// The register value each mode is written as.
pub fn pcs_mode_value(m: PcsMode) -> (r: u16)
    ensures
        r == spec_pcs_mode_value(m),
{
    match m {
        PcsMode::Standby => 0,
        PcsMode::Charging => 1,
        PcsMode::Discharging => 2,
        PcsMode::GridTie => 3,
        PcsMode::OffGrid => 4,
        PcsMode::Fault => 5,
    }
}

/// The status that two registers read from address 1 decode to: the mode
/// from the first register (values above 5 are out of range and decode to
/// nothing), the active power from the second, reinterpreted as a signed
/// 16-bit value in 0.1 kW units.
pub open spec fn spec_decode_pcs_registers(regs: Seq<u16>) -> Option<PcsStatus> {
    if regs.len() < 2 {
        None
    } else if regs[0] > 5 {
        None
    } else {
        Some(
            PcsStatus {
                mode: spec_pcs_mode_of(regs[0] as int),
                power: i16_of_wire(regs[1] as int) as i32,
            },
        )
    }
}

/// Decodes the two status registers; fewer than two, or a mode value
/// above 5, decode to nothing.
pub fn decode_pcs_registers(regs: &[u16]) -> (r: Option<PcsStatus>)
    ensures
        r == spec_decode_pcs_registers(regs@),
{
    if regs.len() < 2 {
        return None;
    }
    let mode = match regs[0] {
        0 => PcsMode::Standby,
        1 => PcsMode::Charging,
        2 => PcsMode::Discharging,
        3 => PcsMode::GridTie,
        4 => PcsMode::OffGrid,
        5 => PcsMode::Fault,
        _ => {
            return None;
        }
    };
    Some(PcsStatus { mode, power: wire::i16_of_u16(regs[1]) as i32 })
}

/// The register word a signed power setpoint in 0.1 kW units is written
/// as: clamped to the -100..=100 kW range, then bit-cast to the unsigned
/// register image.
pub fn pcs_power_setpoint_word(power_dkw: i32) -> (r: u16)
    ensures
        r == wire_of_i16(clamp_spec(power_dkw as int, -1000, 1000)),
{
    wire::u16_of_i16(wire::clamp_i32(power_dkw, -1000, 1000) as i16)
}

/// PCS device over Modbus. The cache holds the last successfully read
/// status.
pub struct PcsDevice {
    pub id: String,
    pub modbus_client: Option<ModbusClient>,
    pub cache: PcsStatus,
}

impl PcsDevice {
    /// Whether the device holds a connected Modbus client.
    pub open spec fn connected(&self) -> bool {
        self.modbus_client matches Some(c) && c.connected()
    }

    /// Whether the device holds a Modbus client at all.
    pub open spec fn has_client(&self) -> bool {
        self.modbus_client is Some
    }

    /// Builds the device and connects its Modbus client at once; a failed
    /// connect fails the construction.
    pub fn new(id: String, host: &str, port: u16) -> (r: Result<PcsDevice, DeviceError>)
        ensures
            r matches Ok(d) ==> d.connected() && d.id@ == id@ && d.cache
                == PcsStatus::spec_zeroed(),
    {
        let mut modbus_client = ModbusClient::new(host, port);
        match modbus_client.connect() {
            Ok(()) => Ok(
                PcsDevice { id, modbus_client: Some(modbus_client), cache: PcsStatus::zeroed() },
            ),
            Err(e) => Err(e.kind()),
        }
    }

    /// Builds the device around an existing client, connected or not.
    pub fn with_client(id: String, modbus_client: ModbusClient) -> (r: PcsDevice)
        ensures
            r.id@ == id@,
            r.cache == PcsStatus::spec_zeroed(),
            r.connected() == modbus_client.connected(),
            r.has_client(),
    {
        PcsDevice { id, modbus_client: Some(modbus_client), cache: PcsStatus::zeroed() }
    }

    /// Whether the device holds a connected Modbus client.
    pub fn is_connected(&self) -> (r: bool)
        ensures
            r == self.connected(),
    {
        match &self.modbus_client {
            Some(c) => c.is_connected(),
            None => false,
        }
    }

    /// Reads the two status registers and decodes them; a mode register
    /// above 5 is out of range and yields invalid data. A successful read
    /// updates the cache with exactly the returned status; a failed read
    /// leaves it as it was.
    pub fn read_status(&mut self) -> (r: Result<PcsStatus, DeviceError>)
        ensures
            final(self).id == old(self).id,
            final(self).connected() == old(self).connected(),
            !old(self).has_client() ==> r == Result::<PcsStatus, DeviceError>::Err(
                DeviceError::NotConnected,
            ),
            r matches Ok(s) ==> final(self).cache == s,
            r is Err ==> final(self).cache == old(self).cache,
    {
        let client = match &mut self.modbus_client {
            Some(c) => c,
            None => {
                return Err(DeviceError::NotConnected);
            }
        };
        let regs = match client.read_holding_registers(1, 2) {
            Ok(v) => v,
            Err(e) => {
                return Err(e.kind());
            }
        };
        match decode_pcs_registers(regs.as_slice()) {
            Some(status) => {
                self.cache = status;
                Ok(status)
            }
            None => Err(DeviceError::InvalidData),
        }
    }

    /// The cached status; never touches the bus and never fails.
    pub fn get_cached_status(&self) -> (r: PcsStatus)
        ensures
            r == self.cache,
    {
        self.cache
    }

    /// Writes the mode register. The cache is not touched.
    pub fn set_mode(&mut self, mode: PcsMode) -> (r: Result<(), DeviceError>)
        ensures
            final(self).id == old(self).id,
            final(self).connected() == old(self).connected(),
            final(self).cache == old(self).cache,
            !old(self).has_client() ==> r == Result::<(), DeviceError>::Err(
                DeviceError::NotConnected,
            ),
    {
        let word = pcs_mode_value(mode);
        let client = match &mut self.modbus_client {
            Some(c) => c,
            None => {
                return Err(DeviceError::NotConnected);
            }
        };
        match client.write_single_register(PCS_MODE_REGISTER, word) {
            Ok(()) => Ok(()),
            Err(e) => Err(e.kind()),
        }
    }

    /// Writes mode and signed active power to their registers, the power
    /// clamped to the register's signed 16-bit range. The cache is not
    /// touched.
    pub fn write_status(&mut self, status: PcsStatus) -> (r: Result<(), DeviceError>)
        ensures
            final(self).id == old(self).id,
            final(self).connected() == old(self).connected(),
            final(self).cache == old(self).cache,
            !old(self).has_client() ==> r == Result::<(), DeviceError>::Err(
                DeviceError::NotConnected,
            ),
    {
        let mode_word = pcs_mode_value(status.mode);
        let power_word = wire::u16_of_i16(wire::clamp_i32(status.power, -0x8000, 0x7FFF) as i16);
        let client = match &mut self.modbus_client {
            Some(c) => c,
            None => {
                return Err(DeviceError::NotConnected);
            }
        };
        match client.write_single_register(PCS_MODE_REGISTER, mode_word) {
            Ok(()) => {}
            Err(e) => {
                return Err(e.kind());
            }
        }
        match client.write_single_register(PCS_POWER_REGISTER, power_word) {
            Ok(()) => Ok(()),
            Err(e) => Err(e.kind()),
        }
    }

    /// Writes the power setpoint register with the clamped signed
    /// setpoint, given in 0.1 kW units; positive discharges, negative
    /// charges. The cache is not touched.
    pub fn set_power_setpoint(&mut self, power_dkw: i32) -> (r: Result<(), DeviceError>)
        ensures
            final(self).id == old(self).id,
            final(self).connected() == old(self).connected(),
            final(self).cache == old(self).cache,
            !old(self).has_client() ==> r == Result::<(), DeviceError>::Err(
                DeviceError::NotConnected,
            ),
    {
        let word = pcs_power_setpoint_word(power_dkw);
        let client = match &mut self.modbus_client {
            Some(c) => c,
            None => {
                return Err(DeviceError::NotConnected);
            }
        };
        match client.write_single_register(PCS_POWER_REGISTER, word) {
            Ok(()) => Ok(()),
            Err(e) => Err(e.kind()),
        }
    }
}

} // verus!
