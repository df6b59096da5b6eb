//! Battery management system: pack and cell status over CAN. Each logical
//! message fits one 8-byte data frame, so reads can decode real frames and
//! writes can reach the bus; the codecs are proved to round-trip.

use vstd::prelude::*;

use crate::drivers::can::{CanDriver, CanRecv};
use crate::errors::DeviceError;
use crate::types::{BatteryCellStatus, BatteryStatus};
use crate::wire;
use crate::wire::{be_hi, be_lo, be_val, clamp_spec, i16_of_wire, wire_of_i16};

verus! {

/// CAN identifier of the pack-status request frame.
pub const BATTERY_STATUS_REQUEST_ID: u16 = 0x100;

/// CAN identifier of the pack-status reply frame.
pub const BATTERY_STATUS_RESPONSE_ID: u16 = 0x101;

/// CAN identifier of the pack-status write frame.
pub const BATTERY_STATUS_WRITE_ID: u16 = 0x102;

/// CAN identifier of the cell-status request frame.
pub const BATTERY_CELL_REQUEST_ID: u16 = 0x103;

/// CAN identifier of the cell-status reply frame.
pub const BATTERY_CELL_RESPONSE_ID: u16 = 0x104;

/// Whether every field of a pack status lies within the clamp ranges the
/// codec carries losslessly: soc 0..=100 %, voltage 0..=500 V, current
/// -300..=300 A, temperature -50..=50 degC, state-of-power 0..=100 %.
pub open spec fn battery_fields_in_range(s: BatteryStatus) -> bool {
    &&& s.soc <= 100
    &&& s.voltage <= 50000
    &&& -30000 <= s.current <= 30000
    &&& -50 <= s.temperature <= 50
    &&& s.sop_charge <= 100
    &&& s.sop_discharge <= 100
}

/// The 8-byte pack-status frame payload: soc, voltage and current as
/// big-endian centi-unit pairs (the current in two's complement), the
/// temperature as a single byte with a +50 degC offset, and the two
/// state-of-power limits as whole-percent bytes, each field clamped to
/// its range first.
pub open spec fn spec_pack_battery_status(s: BatteryStatus) -> Seq<u8> {
    let v = clamp_spec(s.voltage as int, 0, 50000);
    let c = wire_of_i16(clamp_spec(s.current as int, -30000, 30000));
    seq![
        clamp_spec(s.soc as int, 0, 100) as u8,
        be_hi(v),
        be_lo(v),
        be_hi(c),
        be_lo(c),
        (clamp_spec(s.temperature as int, -50, 50) + 50) as u8,
        clamp_spec(s.sop_charge as int, 0, 100) as u8,
        clamp_spec(s.sop_discharge as int, 0, 100) as u8,
    ]
}

/// The pack status a frame payload decodes to; a payload shorter than
/// 8 bytes decodes to nothing.
pub open spec fn spec_unpack_battery_status(d: Seq<u8>) -> Option<BatteryStatus> {
    if d.len() < 8 {
        None
    } else {
        Some(
            BatteryStatus {
                soc: d[0],
                voltage: be_val(d[1], d[2]) as u16,
                current: i16_of_wire(be_val(d[3], d[4])) as i16,
                temperature: (d[5] - 50) as i16,
                sop_charge: d[6],
                sop_discharge: d[7],
            },
        )
    }
}

/// Whether every field of a cell status lies within the ranges the codec
/// carries losslessly; the temperatures ride the wire as single bytes
/// with a +50 degC offset, the count as a single byte.
pub open spec fn battery_cell_fields_in_range(s: BatteryCellStatus) -> bool {
    &&& s.cell_count <= 255
    &&& -50 <= s.max_cell_temperature <= 205
    &&& -50 <= s.min_cell_temperature <= 205
    &&& s.health_percentage <= 100
}

/// The 8-byte cell-status frame payload: cell count, the two cell
/// voltages as big-endian 0.1 mV pairs, the two temperatures as single
/// bytes with a +50 degC offset, and the health as a whole-percent byte.
/// The working-time and cycle-count accumulators do not fit the single
/// frame and are not carried.
pub open spec fn spec_pack_battery_cell_status(s: BatteryCellStatus) -> Seq<u8> {
    seq![
        clamp_spec(s.cell_count as int, 0, 255) as u8,
        be_hi(s.max_cell_voltage as int),
        be_lo(s.max_cell_voltage as int),
        be_hi(s.min_cell_voltage as int),
        be_lo(s.min_cell_voltage as int),
        (clamp_spec(s.max_cell_temperature as int, -50, 205) + 50) as u8,
        (clamp_spec(s.min_cell_temperature as int, -50, 205) + 50) as u8,
        clamp_spec(s.health_percentage as int, 0, 100) as u8,
    ]
}

/// The cell status a frame payload decodes to; a payload shorter than
/// 8 bytes decodes to nothing. The accumulators the frame does not carry
/// read back zero.
pub open spec fn spec_unpack_battery_cell_status(d: Seq<u8>) -> Option<BatteryCellStatus> {
    if d.len() < 8 {
        None
    } else {
        Some(
            BatteryCellStatus {
                cell_count: d[0] as u16,
                max_cell_voltage: be_val(d[1], d[2]) as u16,
                min_cell_voltage: be_val(d[3], d[4]) as u16,
                max_cell_temperature: (d[5] - 50) as i16,
                min_cell_temperature: (d[6] - 50) as i16,
                working_time: 0,
                cycle_count: 0,
                health_percentage: d[7],
            },
        )
    }
}

/// Decoding an encoded pack status gives the status back unchanged,
/// whenever its fields lie within the clamp ranges.
pub proof fn lemma_battery_status_round_trip(s: BatteryStatus)
    requires
        battery_fields_in_range(s),
    ensures
        spec_unpack_battery_status(spec_pack_battery_status(s)) == Some(s),
{
    let d = spec_pack_battery_status(s);
    assert(d.len() == 8);
    wire::lemma_be_round_trip(s.voltage as int);
    wire::lemma_be_round_trip(wire_of_i16(s.current as int));
    wire::lemma_i16_wire_round_trip(s.current as int);
    assert(spec_unpack_battery_status(d) == Some(s));
}

/// Decoding an encoded cell status gives every carried field back
/// unchanged, whenever the fields lie within the clamp ranges; the
/// accumulators the frame does not carry come back zero.
pub proof fn lemma_battery_cell_status_round_trip(s: BatteryCellStatus)
    requires
        battery_cell_fields_in_range(s),
    ensures
        spec_unpack_battery_cell_status(spec_pack_battery_cell_status(s)) == Some(
            BatteryCellStatus { working_time: 0, cycle_count: 0, ..s },
        ),
{
    let d = spec_pack_battery_cell_status(s);
    assert(d.len() == 8);
    wire::lemma_be_round_trip(s.max_cell_voltage as int);
    wire::lemma_be_round_trip(s.min_cell_voltage as int);
}

/// Battery device speaking the request/reply protocol on the CAN bus.
/// The cache holds the last successfully read pack status.
pub struct BatteryDevice {
    pub id: String,
    pub can_driver: Option<CanDriver>,
    pub cache: BatteryStatus,
}

impl BatteryDevice {
    /// Whether the device holds a connected CAN driver.
    pub open spec fn connected(&self) -> bool {
        self.can_driver matches Some(d) && d.connected()
    }

    /// Whether the device holds a CAN driver at all.
    pub open spec fn has_driver(&self) -> bool {
        self.can_driver is Some
    }

    /// Builds the device and connects its CAN driver at once; a failed
    /// connect fails the construction.
    pub fn new(id: String, can_interface: &str) -> (r: Result<BatteryDevice, DeviceError>)
        ensures
            r matches Ok(d) ==> d.connected() && d.id@ == id@ && d.cache
                == BatteryStatus::spec_zeroed(),
    {
        let mut can_driver = CanDriver::new(can_interface);
        match can_driver.connect() {
            Ok(()) => Ok(
                BatteryDevice {
                    id,
                    can_driver: Some(can_driver),
                    cache: BatteryStatus::zeroed(),
                },
            ),
            Err(e) => Err(e.kind()),
        }
    }

    /// Builds the device around an existing driver, connected or not.
    pub fn with_driver(id: String, can_driver: CanDriver) -> (r: BatteryDevice)
        ensures
            r.id@ == id@,
            r.cache == BatteryStatus::spec_zeroed(),
            r.connected() == can_driver.connected(),
            r.has_driver(),
    {
        BatteryDevice { id, can_driver: Some(can_driver), cache: BatteryStatus::zeroed() }
    }

    /// Whether the device holds a connected CAN driver.
    pub fn is_connected(&self) -> (r: bool)
        ensures
            r == self.connected(),
    {
        match &self.can_driver {
            Some(d) => d.is_connected(),
            None => false,
        }
    }

    /// Encodes a pack status into its 8-byte frame payload, clamping each
    /// field to its range.
    pub fn pack_battery_status(status: &BatteryStatus) -> (r: Vec<u8>)
        ensures
            r@ == spec_pack_battery_status(*status),
            r@.len() == 8,
    {
        let soc: u8 = if status.soc > 100 {
            100
        } else {
            status.soc
        };
        let v = wire::be_split(wire::clamp_u16(status.voltage, 0, 50000));
        let c = wire::be_split(wire::u16_of_i16(wire::clamp_i16(status.current, -30000, 30000)));
        let t: u8 = (wire::clamp_i16(status.temperature, -50, 50) + 50) as u8;
        let sc: u8 = if status.sop_charge > 100 {
            100
        } else {
            status.sop_charge
        };
        let sd: u8 = if status.sop_discharge > 100 {
            100
        } else {
            status.sop_discharge
        };
        let mut data: Vec<u8> = Vec::new();
        data.push(soc);
        data.push(v.0);
        data.push(v.1);
        data.push(c.0);
        data.push(c.1);
        data.push(t);
        data.push(sc);
        data.push(sd);
        proof {
            assert(data@ =~= spec_pack_battery_status(*status));
        }
        data
    }

    /// Decodes an 8-byte frame payload into a pack status; a shorter
    /// payload decodes to nothing.
    pub fn unpack_battery_status(data: &[u8]) -> (r: Option<BatteryStatus>)
        ensures
            r == spec_unpack_battery_status(data@),
    {
        if data.len() < 8 {
            return None;
        }
        Some(
            BatteryStatus {
                soc: data[0],
                voltage: wire::be_join(data[1], data[2]),
                current: wire::i16_of_u16(wire::be_join(data[3], data[4])),
                temperature: (data[5] as i16) - 50,
                sop_charge: data[6],
                sop_discharge: data[7],
            },
        )
    }

    /// Encodes a cell status into its 8-byte frame payload; the
    /// working-time and cycle-count accumulators are not carried.
    pub fn pack_battery_cell_status(status: &BatteryCellStatus) -> (r: Vec<u8>)
        ensures
            r@ == spec_pack_battery_cell_status(*status),
            r@.len() == 8,
    {
        let cc: u8 = if status.cell_count > 255 {
            255
        } else {
            status.cell_count as u8
        };
        let maxv = wire::be_split(status.max_cell_voltage);
        let minv = wire::be_split(status.min_cell_voltage);
        let maxt: u8 = (wire::clamp_i16(status.max_cell_temperature, -50, 205) + 50) as u8;
        let mint: u8 = (wire::clamp_i16(status.min_cell_temperature, -50, 205) + 50) as u8;
        let h: u8 = if status.health_percentage > 100 {
            100
        } else {
            status.health_percentage
        };
        let mut data: Vec<u8> = Vec::new();
        data.push(cc);
        data.push(maxv.0);
        data.push(maxv.1);
        data.push(minv.0);
        data.push(minv.1);
        data.push(maxt);
        data.push(mint);
        data.push(h);
        proof {
            assert(data@ =~= spec_pack_battery_cell_status(*status));
        }
        data
    }

    /// Decodes an 8-byte frame payload into a cell status; a shorter
    /// payload decodes to nothing, and the accumulators the frame does
    /// not carry read back zero.
    pub fn unpack_battery_cell_status(data: &[u8]) -> (r: Option<BatteryCellStatus>)
        ensures
            r == spec_unpack_battery_cell_status(data@),
    {
        if data.len() < 8 {
            return None;
        }
        Some(
            BatteryCellStatus {
                cell_count: data[0] as u16,
                max_cell_voltage: wire::be_join(data[1], data[2]),
                min_cell_voltage: wire::be_join(data[3], data[4]),
                max_cell_temperature: (data[5] as i16) - 50,
                min_cell_temperature: (data[6] as i16) - 50,
                working_time: 0,
                cycle_count: 0,
                health_percentage: data[7],
            },
        )
    }

    /// Requests the pack status and decodes the reply. A successful read
    /// updates the cache with exactly the returned status; a failed read
    /// leaves the cache as it was.
    pub fn read_status(&mut self) -> (r: Result<BatteryStatus, DeviceError>)
        ensures
            final(self).id == old(self).id,
            final(self).connected() == old(self).connected(),
            !old(self).has_driver() ==> r == Result::<BatteryStatus, DeviceError>::Err(
                DeviceError::NotConnected,
            ),
            r matches Ok(s) ==> final(self).cache == s,
            r is Err ==> final(self).cache == old(self).cache,
    {
        let driver = match &self.can_driver {
            Some(d) => d,
            None => {
                return Err(DeviceError::NotConnected);
            }
        };
        let request: Vec<u8> = vec![0x01, 0, 0, 0, 0, 0, 0, 0];
        match driver.send_frame(BATTERY_STATUS_REQUEST_ID, request.as_slice()) {
            Ok(()) => {}
            Err(e) => {
                return Err(e.kind());
            }
        }
        match driver.recv_frame() {
            Ok(CanRecv::Standard { id, data }) => {
                if id != BATTERY_STATUS_RESPONSE_ID {
                    return Err(DeviceError::InvalidData);
                }
                match Self::unpack_battery_status(data.as_slice()) {
                    Some(status) => {
                        self.cache = status;
                        Ok(status)
                    }
                    None => Err(DeviceError::InvalidData),
                }
            }
            Ok(CanRecv::Other) => Err(DeviceError::InvalidData),
            Err(e) => Err(e.kind()),
        }
    }

    /// Encodes the given status and sends it on the write identifier,
    /// but only if the encoding fits a single 8-byte frame, as every pack
    /// encoding does; an oversize payload would be rejected as invalid
    /// data, never truncated. With a connected driver only the bus itself
    /// can refuse the write.
    pub fn write_status(&self, status: BatteryStatus) -> (r: Result<(), DeviceError>)
        ensures
            !self.has_driver() ==> r == Result::<(), DeviceError>::Err(DeviceError::NotConnected),
            self.has_driver() && !self.connected() ==> r == Result::<(), DeviceError>::Err(
                DeviceError::ConnectionFailed,
            ),
            self.connected() ==> (r matches Err(e) ==> e == DeviceError::ProtocolError),
    {
        let driver = match &self.can_driver {
            Some(d) => d,
            None => {
                return Err(DeviceError::NotConnected);
            }
        };
        let data = Self::pack_battery_status(&status);
        if data.len() > 8 {
            return Err(DeviceError::InvalidData);
        }
        match driver.send_frame(BATTERY_STATUS_WRITE_ID, data.as_slice()) {
            Ok(()) => Ok(()),
            Err(e) => Err(e.kind()),
        }
    }

    /// Requests the cell status and decodes the reply. The pack-status
    /// cache is not touched.
    pub fn read_cell_status(&mut self) -> (r: Result<BatteryCellStatus, DeviceError>)
        ensures
            *final(self) == *old(self),
            !old(self).has_driver() ==> r == Result::<BatteryCellStatus, DeviceError>::Err(
                DeviceError::NotConnected,
            ),
    {
        let driver = match &self.can_driver {
            Some(d) => d,
            None => {
                return Err(DeviceError::NotConnected);
            }
        };
        let request: Vec<u8> = vec![0x01];
        match driver.send_frame(BATTERY_CELL_REQUEST_ID, request.as_slice()) {
            Ok(()) => {}
            Err(e) => {
                return Err(e.kind());
            }
        }
        match driver.recv_frame() {
            Ok(CanRecv::Standard { id, data }) => {
                if id != BATTERY_CELL_RESPONSE_ID {
                    return Err(DeviceError::InvalidData);
                }
                match Self::unpack_battery_cell_status(data.as_slice()) {
                    Some(status) => Ok(status),
                    None => Err(DeviceError::InvalidData),
                }
            }
            Ok(CanRecv::Other) => Err(DeviceError::InvalidData),
            Err(e) => Err(e.kind()),
        }
    }

    /// The cached pack status; never touches the bus and never fails.
    pub fn get_cached_status(&self) -> (r: BatteryStatus)
        ensures
            r == self.cache,
    {
        self.cache
    }
}

} // verus!
