//! PV DC-DC converter: status over seven Modbus holding registers, mode
//! control, and clamped voltage/power setpoints.

use vstd::prelude::*;

use crate::drivers::modbus::ModbusClient;
use crate::errors::DeviceError;
use crate::types::PvStatus;
use crate::wire;
use crate::wire::clamp_spec;

verus! {

/// Modbus register that selects the operating mode.
pub const PV_MODE_REGISTER: u16 = 6;

/// Modbus register that takes the voltage setpoint.
pub const PV_VOLTAGE_SETPOINT_REGISTER: u16 = 10;

/// Modbus register that takes the power setpoint.
pub const PV_POWER_SETPOINT_REGISTER: u16 = 11;

/// Operating modes of the PV DC-DC stage.
#[derive(Debug, Clone, Copy, PartialEq, Eq, Structural)]
pub enum PvMode {
    Standby,
    MPPT,
    ConstantVoltage,
    ConstantCurrent,
    Fault,
}

/// The register value each mode is written as.
pub open spec fn spec_pv_mode_value(m: PvMode) -> u16 {
    match m {
        PvMode::Standby => 0,
        PvMode::MPPT => 1,
        PvMode::ConstantVoltage => 2,
        PvMode::ConstantCurrent => 3,
        PvMode::Fault => 4,
    }
}

/// The mode a register value decodes to; values outside 0..=4 fall back
/// to standby.
pub open spec fn spec_pv_mode_of(v: int) -> PvMode {
    if v == 1 {
        PvMode::MPPT
    } else if v == 2 {
        PvMode::ConstantVoltage
    } else if v == 3 {
        PvMode::ConstantCurrent
    } else if v == 4 {
        PvMode::Fault
    } else {
        PvMode::Standby
    }
}

impl PvMode {
    /// The register value this mode is written as.
    pub fn value(&self) -> (r: u16)
        ensures
            r == spec_pv_mode_value(*self),
    {
        match self {
            PvMode::Standby => 0,
            PvMode::MPPT => 1,
            PvMode::ConstantVoltage => 2,
            PvMode::ConstantCurrent => 3,
            PvMode::Fault => 4,
        }
    }

    /// The mode a register value decodes to.
    pub fn of_value(v: u16) -> (r: PvMode)
        ensures
            r == spec_pv_mode_of(v as int),
    {
        match v {
            1 => PvMode::MPPT,
            2 => PvMode::ConstantVoltage,
            3 => PvMode::ConstantCurrent,
            4 => PvMode::Fault,
            _ => PvMode::Standby,
        }
    }
}

/// The status and mode that seven registers read from address 1 decode to:
/// voltage, current and power in deci-units straight from the registers,
/// temperature as the fourth register less its 500 offset, efficiency in
/// centi-percent, the mode from the sixth register, and the fault flag
/// from any nonzero seventh register.
pub open spec fn spec_decode_pv_registers(regs: Seq<u16>) -> Option<(PvStatus, PvMode)> {
    if regs.len() < 7 {
        None
    } else {
        Some(
            (
                PvStatus {
                    voltage: regs[0],
                    current: regs[1],
                    power: regs[2],
                    temperature: (regs[3] - 500) as i32,
                    efficiency: regs[4],
                    fault: regs[6] != 0,
                },
                spec_pv_mode_of(regs[5] as int),
            ),
        )
    }
}

/// Decodes the seven status registers; fewer than seven decode to
/// nothing.
pub fn decode_pv_registers(regs: &[u16]) -> (r: Option<(PvStatus, PvMode)>)
    ensures
        r == spec_decode_pv_registers(regs@),
{
    if regs.len() < 7 {
        return None;
    }
    let status = PvStatus {
        voltage: regs[0],
        current: regs[1],
        power: regs[2],
        temperature: (regs[3] as i32) - 500,
        efficiency: regs[4],
        fault: regs[6] != 0,
    };
    Some((status, PvMode::of_value(regs[5])))
}

/// The register word a voltage setpoint in 0.1 V units is written as:
/// clamped to the 0..=1000 V range.
pub fn pv_voltage_setpoint_word(voltage_dv: u16) -> (r: u16)
    ensures
        r == clamp_spec(voltage_dv as int, 0, 10000),
{
    wire::clamp_u16(voltage_dv, 0, 10000)
}

/// The register word a power setpoint in 0.1 W units is written as: the
/// commanded range is 0..=10000 W, further capped at what a 16-bit
/// register can carry.
pub fn pv_power_setpoint_word(power_dw: u32) -> (r: u16)
    ensures
        r == clamp_spec(power_dw as int, 0, 0xFFFF),
{
    if power_dw > 0xFFFF {
        0xFFFF
    } else {
        power_dw as u16
    }
}

/// PV DC-DC device over Modbus. The cache holds the last successfully
/// read status and mode.
pub struct PvDevice {
    pub id: String,
    pub modbus_client: Option<ModbusClient>,
    pub cache: PvStatus,
    pub mode: PvMode,
}

impl PvDevice {
    /// Whether the device holds a connected Modbus client.
    pub open spec fn connected(&self) -> bool {
        self.modbus_client matches Some(c) && c.connected()
    }

    /// Whether the device holds a Modbus client at all.
    pub open spec fn has_client(&self) -> bool {
        self.modbus_client is Some
    }

    /// Builds the device and connects its Modbus client at once; a failed
    /// connect fails the construction.
    pub fn new(id: String, host: &str, port: u16) -> (r: Result<PvDevice, DeviceError>)
        ensures
            r matches Ok(d) ==> d.connected() && d.id@ == id@ && d.cache == PvStatus::spec_zeroed()
                && d.mode == PvMode::Standby,
    {
        let mut modbus_client = ModbusClient::new(host, port);
        match modbus_client.connect() {
            Ok(()) => Ok(
                PvDevice {
                    id,
                    modbus_client: Some(modbus_client),
                    cache: PvStatus::zeroed(),
                    mode: PvMode::Standby,
                },
            ),
            Err(e) => Err(e.kind()),
        }
    }

    /// Builds the device around an existing client, connected or not.
    pub fn with_client(id: String, modbus_client: ModbusClient) -> (r: PvDevice)
        ensures
            r.id@ == id@,
            r.cache == PvStatus::spec_zeroed(),
            r.mode == PvMode::Standby,
            r.connected() == modbus_client.connected(),
            r.has_client(),
    {
        PvDevice {
            id,
            modbus_client: Some(modbus_client),
            cache: PvStatus::zeroed(),
            mode: PvMode::Standby,
        }
    }

    /// Whether the device holds a connected Modbus client.
    pub fn is_connected(&self) -> (r: bool)
        ensures
            r == self.connected(),
    {
        match &self.modbus_client {
            Some(c) => c.is_connected(),
            None => false,
        }
    }

    /// Reads the seven status registers and decodes them. A successful
    /// read updates the cached status and mode with exactly what was
    /// decoded; a failed read leaves both as they were.
    pub fn read_status(&mut self) -> (r: Result<PvStatus, DeviceError>)
        ensures
            final(self).id == old(self).id,
            final(self).connected() == old(self).connected(),
            !old(self).has_client() ==> r == Result::<PvStatus, DeviceError>::Err(
                DeviceError::NotConnected,
            ),
            r matches Ok(s) ==> final(self).cache == s,
            r is Err ==> final(self).cache == old(self).cache && final(self).mode == old(
                self,
            ).mode,
    {
        let client = match &mut self.modbus_client {
            Some(c) => c,
            None => {
                return Err(DeviceError::NotConnected);
            }
        };
        let regs = match client.read_holding_registers(1, 7) {
            Ok(v) => v,
            Err(e) => {
                return Err(e.kind());
            }
        };
        match decode_pv_registers(regs.as_slice()) {
            Some((status, mode)) => {
                self.cache = status;
                self.mode = mode;
                proof {
                    assert(spec_decode_pv_registers(regs@) == Some((status, mode)));
                }
                Ok(status)
            }
            None => Err(DeviceError::InvalidData),
        }
    }

    /// The cached status; never touches the bus and never fails.
    pub fn get_cached_status(&self) -> (r: PvStatus)
        ensures
            r == self.cache,
    {
        self.cache
    }

    /// Writes the mode register. The cache is not touched.
    pub fn set_mode(&mut self, mode: PvMode) -> (r: Result<(), DeviceError>)
        ensures
            final(self).id == old(self).id,
            final(self).connected() == old(self).connected(),
            final(self).cache == old(self).cache,
            final(self).mode == old(self).mode,
            !old(self).has_client() ==> r == Result::<(), DeviceError>::Err(
                DeviceError::NotConnected,
            ),
    {
        let client = match &mut self.modbus_client {
            Some(c) => c,
            None => {
                return Err(DeviceError::NotConnected);
            }
        };
        match client.write_single_register(PV_MODE_REGISTER, mode.value()) {
            Ok(()) => Ok(()),
            Err(e) => Err(e.kind()),
        }
    }

    /// Writes the voltage setpoint register with the clamped setpoint,
    /// given in 0.1 V units.
    pub fn set_voltage_setpoint(&mut self, voltage_dv: u16) -> (r: Result<(), DeviceError>)
        ensures
            final(self).id == old(self).id,
            final(self).connected() == old(self).connected(),
            final(self).cache == old(self).cache,
            final(self).mode == old(self).mode,
            !old(self).has_client() ==> r == Result::<(), DeviceError>::Err(
                DeviceError::NotConnected,
            ),
    {
        let word = pv_voltage_setpoint_word(voltage_dv);
        let client = match &mut self.modbus_client {
            Some(c) => c,
            None => {
                return Err(DeviceError::NotConnected);
            }
        };
        match client.write_single_register(PV_VOLTAGE_SETPOINT_REGISTER, word) {
            Ok(()) => Ok(()),
            Err(e) => Err(e.kind()),
        }
    }

    /// Writes the power setpoint register with the clamped setpoint, given
    /// in 0.1 W units.
    pub fn set_power_setpoint(&mut self, power_dw: u32) -> (r: Result<(), DeviceError>)
        ensures
            final(self).id == old(self).id,
            final(self).connected() == old(self).connected(),
            final(self).cache == old(self).cache,
            final(self).mode == old(self).mode,
            !old(self).has_client() ==> r == Result::<(), DeviceError>::Err(
                DeviceError::NotConnected,
            ),
    {
        let word = pv_power_setpoint_word(power_dw);
        let client = match &mut self.modbus_client {
            Some(c) => c,
            None => {
                return Err(DeviceError::NotConnected);
            }
        };
        match client.write_single_register(PV_POWER_SETPOINT_REGISTER, word) {
            Ok(()) => Ok(()),
            Err(e) => Err(e.kind()),
        }
    }
}

} // verus!
