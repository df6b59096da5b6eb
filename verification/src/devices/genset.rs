//! Diesel generator set: running flag from a coil, readings from eight
//! Modbus holding registers, engine start/stop, and a clamped power
//! setpoint.

use vstd::prelude::*;

use crate::drivers::modbus::ModbusClient;
use crate::errors::DeviceError;
use crate::types::GensetStatus;
use crate::wire;
use crate::wire::clamp_spec;

verus! {

/// Modbus coil that reads back whether the engine runs.
pub const GENSET_RUNNING_COIL: u16 = 0;

/// Modbus coil that starts and stops the engine.
pub const GENSET_ENGINE_COIL: u16 = 1;

/// Modbus register that takes the power setpoint.
pub const GENSET_POWER_SETPOINT_REGISTER: u16 = 9;

/// The status that the running coil and eight registers read from
/// address 1 decode to: power, fuel, voltage, current and frequency in
/// their deci- or centi-units straight from the registers, the engine
/// hours from the big-endian register pair, and the temperature from the
/// last register.
pub open spec fn spec_decode_genset_registers(running: bool, regs: Seq<u16>) -> Option<
    GensetStatus,
> {
    if regs.len() < 8 {
        None
    } else {
        Some(
            GensetStatus {
                running,
                power_output: regs[0],
                fuel_level: regs[1],
                voltage: regs[2],
                current: regs[3],
                frequency: regs[4],
                engine_hours: (regs[5] * 0x10000 + regs[6]) as u32,
                temperature: regs[7],
            },
        )
    }
}

/// Decodes the running flag and the eight status registers; fewer than
/// eight decode to nothing.
pub fn decode_genset_registers(running: bool, regs: &[u16]) -> (r: Option<GensetStatus>)
    ensures
        r == spec_decode_genset_registers(running, regs@),
{
    if regs.len() < 8 {
        return None;
    }
    Some(
        GensetStatus {
            running,
            power_output: regs[0],
            fuel_level: regs[1],
            voltage: regs[2],
            current: regs[3],
            frequency: regs[4],
            engine_hours: wire::u32_of_word_pair(regs[5], regs[6]),
            temperature: regs[7],
        },
    )
}

/// The register word a power setpoint in 0.1 kW units is written as:
/// clamped to the 0..=1000 kW range.
pub fn genset_power_setpoint_word(power_dkw: u16) -> (r: u16)
    ensures
        r == clamp_spec(power_dkw as int, 0, 10000),
{
    wire::clamp_u16(power_dkw, 0, 10000)
}

/// Generator set device over Modbus. The cache holds the last
/// successfully read status; engine commands update its running flag.
pub struct GensetDevice {
    pub id: String,
    pub modbus_client: Option<ModbusClient>,
    pub cache: GensetStatus,
}

impl GensetDevice {
    /// Whether the device holds a connected Modbus client.
    pub open spec fn connected(&self) -> bool {
        self.modbus_client matches Some(c) && c.connected()
    }

    /// Whether the device holds a Modbus client at all.
    pub open spec fn has_client(&self) -> bool {
        self.modbus_client is Some
    }

    /// Builds the device and connects its Modbus client at once; a failed
    /// connect fails the construction.
    pub fn new(id: String, host: &str, port: u16) -> (r: Result<GensetDevice, DeviceError>)
        ensures
            r matches Ok(d) ==> d.connected() && d.id@ == id@ && d.cache
                == GensetStatus::spec_zeroed(),
    {
        let mut modbus_client = ModbusClient::new(host, port);
        match modbus_client.connect() {
            Ok(()) => Ok(
                GensetDevice {
                    id,
                    modbus_client: Some(modbus_client),
                    cache: GensetStatus::zeroed(),
                },
            ),
            Err(e) => Err(e.kind()),
        }
    }

    /// Builds the device around an existing client, connected or not.
    pub fn with_client(id: String, modbus_client: ModbusClient) -> (r: GensetDevice)
        ensures
            r.id@ == id@,
            r.cache == GensetStatus::spec_zeroed(),
            r.connected() == modbus_client.connected(),
            r.has_client(),
    {
        GensetDevice { id, modbus_client: Some(modbus_client), cache: GensetStatus::zeroed() }
    }

    /// Whether the device holds a connected Modbus client.
    pub fn is_connected(&self) -> (r: bool)
        ensures
            r == self.connected(),
    {
        match &self.modbus_client {
            Some(c) => c.is_connected(),
            None => false,
        }
    }

    /// Reads the running coil and the eight status registers and decodes
    /// them. A successful read updates the cache with exactly the returned
    /// status; a failed read leaves it as it was.
    pub fn read_status(&mut self) -> (r: Result<GensetStatus, DeviceError>)
        ensures
            final(self).id == old(self).id,
            final(self).connected() == old(self).connected(),
            !old(self).has_client() ==> r == Result::<GensetStatus, DeviceError>::Err(
                DeviceError::NotConnected,
            ),
            r matches Ok(s) ==> final(self).cache == s,
            r is Err ==> final(self).cache == old(self).cache,
    {
        let client = match &mut self.modbus_client {
            Some(c) => c,
            None => {
                return Err(DeviceError::NotConnected);
            }
        };
        let coils = match client.read_coils(GENSET_RUNNING_COIL, 1) {
            Ok(v) => v,
            Err(e) => {
                return Err(e.kind());
            }
        };
        let running = coils[0];
        let regs = match client.read_holding_registers(1, 8) {
            Ok(v) => v,
            Err(e) => {
                return Err(e.kind());
            }
        };
        match decode_genset_registers(running, regs.as_slice()) {
            Some(status) => {
                self.cache = status;
                Ok(status)
            }
            None => Err(DeviceError::InvalidData),
        }
    }

    /// The cached status; never touches the bus and never fails.
    pub fn get_cached_status(&self) -> (r: GensetStatus)
        ensures
            r == self.cache,
    {
        self.cache
    }

    /// Commands the engine on through the engine coil; on success the
    /// cached running flag is set.
    pub fn start_engine(&mut self) -> (r: Result<(), DeviceError>)
        ensures
            final(self).id == old(self).id,
            final(self).connected() == old(self).connected(),
            !old(self).has_client() ==> r == Result::<(), DeviceError>::Err(
                DeviceError::NotConnected,
            ),
            r is Ok ==> final(self).cache == (GensetStatus { running: true, ..old(self).cache }),
            r is Err ==> final(self).cache == old(self).cache,
    {
        let client = match &mut self.modbus_client {
            Some(c) => c,
            None => {
                return Err(DeviceError::NotConnected);
            }
        };
        match client.write_single_coil(GENSET_ENGINE_COIL, true) {
            Ok(()) => {
                self.cache.running = true;
                Ok(())
            }
            Err(e) => Err(e.kind()),
        }
    }

    /// Commands the engine off through the engine coil; on success the
    /// cached running flag is cleared.
    pub fn stop_engine(&mut self) -> (r: Result<(), DeviceError>)
        ensures
            final(self).id == old(self).id,
            final(self).connected() == old(self).connected(),
            !old(self).has_client() ==> r == Result::<(), DeviceError>::Err(
                DeviceError::NotConnected,
            ),
            r is Ok ==> final(self).cache == (GensetStatus { running: false, ..old(self).cache }),
            r is Err ==> final(self).cache == old(self).cache,
    {
        let client = match &mut self.modbus_client {
            Some(c) => c,
            None => {
                return Err(DeviceError::NotConnected);
            }
        };
        match client.write_single_coil(GENSET_ENGINE_COIL, false) {
            Ok(()) => {
                self.cache.running = false;
                Ok(())
            }
            Err(e) => Err(e.kind()),
        }
    }

    /// Writes the power setpoint register with the clamped setpoint, given
    /// in 0.1 kW units. The cache is not touched.
    pub fn set_power_setpoint(&mut self, power_dkw: u16) -> (r: Result<(), DeviceError>)
        ensures
            final(self).id == old(self).id,
            final(self).connected() == old(self).connected(),
            final(self).cache == old(self).cache,
            !old(self).has_client() ==> r == Result::<(), DeviceError>::Err(
                DeviceError::NotConnected,
            ),
    {
        let word = genset_power_setpoint_word(power_dkw);
        let client = match &mut self.modbus_client {
            Some(c) => c,
            None => {
                return Err(DeviceError::NotConnected);
            }
        };
        match client.write_single_register(GENSET_POWER_SETPOINT_REGISTER, word) {
            Ok(()) => Ok(()),
            Err(e) => Err(e.kind()),
        }
    }
}

} // verus!
