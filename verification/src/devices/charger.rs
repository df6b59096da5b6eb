//! EV charging station: status, vehicle-battery reads, mode and power
//! setpoints over CAN. Each logical message fits one 8-byte data frame,
//! so reads can decode real frames and writes can reach the bus; the
//! status codec is proved to round-trip for up to two fault codes and to
//! truncate longer lists observably.

use vstd::prelude::*;

use crate::drivers::can::{CanDriver, CanRecv};
use crate::errors::DeviceError;
use crate::types::{CarBattery, CarBatteryView, ChargerStatus, ChargerStatusView};
use crate::wire;
use crate::wire::{be_hi, be_lo, be_val, clamp_spec};

verus! {

/// CAN identifier of the status request frame.
pub const CHARGER_STATUS_REQUEST_ID: u16 = 0x200;

/// CAN identifier of the status reply frame.
pub const CHARGER_STATUS_RESPONSE_ID: u16 = 0x201;

/// CAN identifier of the mode command frame.
pub const CHARGER_MODE_ID: u16 = 0x202;

/// CAN identifier of the status write frame.
pub const CHARGER_STATUS_WRITE_ID: u16 = 0x203;

/// CAN identifier of the power setpoint frame.
pub const CHARGER_SETPOINT_ID: u16 = 0x204;

/// CAN identifier of the vehicle battery request frame.
pub const CAR_BATTERY_REQUEST_ID: u16 = 0x205;

/// CAN identifier of the vehicle battery reply frame.
pub const CAR_BATTERY_RESPONSE_ID: u16 = 0x206;

/// Operating modes of a charging station. The fault value is defined on
/// the wire but reserved: no firmware command corresponds to it.
#[derive(Debug, Clone, Copy, PartialEq, Eq, Structural)]
pub enum ChargerMode {
    Standby,
    Charging,
    Fault,
}

/// The wire byte each mode is sent as.
pub open spec fn spec_charger_mode_value(m: ChargerMode) -> u8 {
    match m {
        ChargerMode::Standby => 0,
        ChargerMode::Charging => 1,
        ChargerMode::Fault => 2,
    }
}

impl ChargerMode {
    /// The wire byte this mode is sent as.
    pub fn value(&self) -> (r: u8)
        ensures
            r == spec_charger_mode_value(*self),
    {
        match self {
            ChargerMode::Standby => 0,
            ChargerMode::Charging => 1,
            ChargerMode::Fault => 2,
        }
    }
}

/// How many fault codes the frame carries: at most two.
pub open spec fn spec_charger_codes_count(codes: Seq<u16>) -> int {
    if codes.len() >= 2 {
        2
    } else {
        codes.len() as int
    }
}

/// The byte a carried fault code rides as: its value clamped to one
/// byte; a slot past the carried count rides as zero.
pub open spec fn spec_charger_code_byte(codes: Seq<u16>, slot: int) -> u8 {
    if slot < spec_charger_codes_count(codes) {
        clamp_spec(codes[slot] as int, 0, 255) as u8
    } else {
        0u8
    }
}

/// Whether every numeric field of a charger status lies within the clamp
/// ranges the codec carries losslessly: power 0..=100 kW, voltage
/// 0..=1000 V, current 0..=200 A, temperature -50..=100 degC, efficiency
/// 0..=100 %, and every fault code one byte wide.
pub open spec fn charger_fields_in_range(s: ChargerStatusView) -> bool {
    &&& s.power <= 100
    &&& s.voltage <= 1000
    &&& s.current <= 200
    &&& -50 <= s.temperature <= 100
    &&& s.efficiency <= 100
    &&& forall|i: int| 0 <= i < s.fault_codes.len() ==> (#[trigger] s.fault_codes[i]) <= 255
}

/// The 8-byte status frame payload. The first byte packs the charging
/// flag, the fault flag, the carried fault-code count (at most two) and
/// the voltage's high bits as `charging + 2*fault + 4*count +
/// 16*(voltage/256)`; then come the power in whole kW, the voltage's low
/// byte (whole V, clamped to 1000), the current in whole A, the
/// temperature as a byte with a +50 degC offset, the efficiency in
/// percent, and the first two fault codes, one byte each and zero when
/// absent.
pub open spec fn spec_pack_charger_status(s: ChargerStatusView) -> Seq<u8> {
    let v = clamp_spec(s.voltage as int, 0, 1000);
    let n = spec_charger_codes_count(s.fault_codes);
    seq![
        ((if s.charging {
            1int
        } else {
            0int
        }) + (if s.fault {
            2int
        } else {
            0int
        }) + 4 * n + 16 * (v / 256)) as u8,
        clamp_spec(s.power as int, 0, 100) as u8,
        (v % 256) as u8,
        clamp_spec(s.current as int, 0, 200) as u8,
        (clamp_spec(s.temperature as int, -50, 100) + 50) as u8,
        clamp_spec(s.efficiency as int, 0, 100) as u8,
        spec_charger_code_byte(s.fault_codes, 0),
        spec_charger_code_byte(s.fault_codes, 1),
    ]
}

/// The status a frame payload decodes to. A payload shorter than eight
/// bytes decodes to nothing, never to a partial status; a fault count
/// above two reads as two, and decoded values are clamped to their
/// ranges.
pub open spec fn spec_unpack_charger_status(d: Seq<u8>) -> Option<ChargerStatusView> {
    if d.len() < 8 {
        None
    } else {
        let b0 = d[0] as int;
        let n0 = (b0 / 4) % 4;
        let n: int = if n0 >= 2 {
            2
        } else {
            n0
        };
        Some(
            ChargerStatusView {
                charging: b0 % 2 == 1,
                power: clamp_spec(d[1] as int, 0, 100) as u8,
                voltage: clamp_spec((b0 / 16) * 256 + d[2], 0, 1000) as u16,
                current: clamp_spec(d[3] as int, 0, 200) as u8,
                temperature: clamp_spec(d[4] - 50, -50, 100) as i16,
                efficiency: clamp_spec(d[5] as int, 0, 100) as u8,
                fault: (b0 / 2) % 2 == 1,
                fault_codes: if n == 0 {
                    Seq::empty()
                } else if n == 1 {
                    seq![d[6] as u16]
                } else {
                    seq![d[6] as u16, d[7] as u16]
                },
            },
        )
    }
}

/// The flags byte decomposes back into its four packed quantities.
proof fn lemma_charger_flags_byte(ch: int, f: int, n: int, vh: int)
    requires
        0 <= ch <= 1,
        0 <= f <= 1,
        0 <= n <= 2,
        0 <= vh <= 3,
    ensures
        (ch + 2 * f + 4 * n + 16 * vh) % 2 == ch,
        ((ch + 2 * f + 4 * n + 16 * vh) / 2) % 2 == f,
        (((ch + 2 * f + 4 * n + 16 * vh) / 4) % 4) == n,
        (ch + 2 * f + 4 * n + 16 * vh) / 16 == vh,
        0 <= ch + 2 * f + 4 * n + 16 * vh <= 59,
{
    let b = ch + 2 * f + 4 * n + 16 * vh;
    assert(b % 2 == ch && (b / 2) % 2 == f && (b / 4) % 4 == n && b / 16 == vh) by (
    nonlinear_arith)
        requires
            0 <= ch <= 1,
            0 <= f <= 1,
            0 <= n <= 2,
            0 <= vh <= 3,
            b == ch + 2 * f + 4 * n + 16 * vh,
    ;
}

/// Decoding an encoded charger status gives the status back with its
/// fault codes truncated to the first two, whenever the numeric fields
/// lie within the clamp ranges; the truncation is visible in the carried
/// count.
pub proof fn lemma_charger_status_truncating_round_trip(s: ChargerStatusView)
    requires
        charger_fields_in_range(s),
    ensures
        spec_unpack_charger_status(spec_pack_charger_status(s)) == Some(
            ChargerStatusView {
                fault_codes: s.fault_codes.take(spec_charger_codes_count(s.fault_codes)),
                ..s
            },
        ),
        (spec_pack_charger_status(s)[0] / 4) % 4 == spec_charger_codes_count(s.fault_codes),
{
    let d = spec_pack_charger_status(s);
    let n = spec_charger_codes_count(s.fault_codes);
    let v = clamp_spec(s.voltage as int, 0, 1000);
    assert(d.len() == 8);
    lemma_charger_flags_byte(
        if s.charging {
            1int
        } else {
            0int
        },
        if s.fault {
            1int
        } else {
            0int
        },
        n,
        v / 256,
    );
    assert(v == 256 * (v / 256) + v % 256);
    let u = spec_unpack_charger_status(d).unwrap();
    assert(u.voltage == s.voltage);
    assert(u.fault_codes =~= s.fault_codes.take(n));
    assert(spec_unpack_charger_status(d) == Some(
        ChargerStatusView { fault_codes: s.fault_codes.take(n), ..s },
    ));
}

/// Decoding an encoded charger status gives the status back unchanged,
/// whenever the numeric fields lie within the clamp ranges, each fault
/// code is one byte wide, and at most two fault codes are set.
pub proof fn lemma_charger_status_round_trip(s: ChargerStatusView)
    requires
        charger_fields_in_range(s),
        s.fault_codes.len() <= 2,
    ensures
        spec_unpack_charger_status(spec_pack_charger_status(s)) == Some(s),
{
    lemma_charger_status_truncating_round_trip(s);
    assert(s.fault_codes.take(spec_charger_codes_count(s.fault_codes)) =~= s.fault_codes);
    assert(ChargerStatusView {
        fault_codes: s.fault_codes.take(spec_charger_codes_count(s.fault_codes)),
        ..s
    } == s);
}

/// Whether every carried field of a vehicle battery record lies within
/// the clamp ranges the codec carries losslessly.
pub open spec fn car_battery_fields_in_range(v: CarBatteryView) -> bool {
    &&& v.soc <= 100
    &&& v.voltage <= 10000
    &&& -10000 <= v.current <= 10000
    &&& -50 <= v.cell_temperature <= 100
    &&& v.max_charge_power <= 100
    &&& v.health <= 100
}

/// The 8-byte vehicle battery payload: state of charge, the pack voltage
/// in 0.1 V units and the pack current in 0.1 A units with its +1000 A
/// offset as big-endian pairs, the cell temperature as a byte with a
/// +50 degC offset, the maximum charge power in whole kW, and the health.
/// The cell extrema and the board temperature do not fit the single
/// frame and are not carried.
pub open spec fn spec_pack_car_battery(v: CarBatteryView) -> Seq<u8> {
    let vv = clamp_spec(v.voltage as int, 0, 10000);
    let cur = clamp_spec(v.current + 10000, 0, 20000);
    seq![
        clamp_spec(v.soc as int, 0, 100) as u8,
        be_hi(vv),
        be_lo(vv),
        be_hi(cur),
        be_lo(cur),
        clamp_spec(v.cell_temperature + 50, 0, 150) as u8,
        clamp_spec(v.max_charge_power as int, 0, 100) as u8,
        clamp_spec(v.health as int, 0, 100) as u8,
    ]
}

/// The vehicle battery record a payload decodes to; a payload shorter
/// than 8 bytes decodes to nothing. The identifier, the cell extrema,
/// the board temperature, the maximum discharge power, the fault flag
/// and the fault codes are not carried on the wire and come back empty,
/// zero, and clear.
pub open spec fn spec_unpack_car_battery(d: Seq<u8>) -> Option<CarBatteryView> {
    if d.len() < 8 {
        None
    } else {
        Some(
            CarBatteryView {
                id: Seq::empty(),
                soc: clamp_spec(d[0] as int, 0, 100) as u8,
                voltage: be_val(d[1], d[2]) as u16,
                current: (be_val(d[3], d[4]) - 10000) as i32,
                max_cell_voltage: 0,
                min_cell_voltage: 0,
                cell_temperature: clamp_spec(d[5] - 50, -50, 100) as i32,
                board_temperature: 0,
                max_charge_power: clamp_spec(d[6] as int, 0, 100) as u8,
                max_discharge_power: 0,
                health: clamp_spec(d[7] as int, 0, 100) as u8,
                fault: false,
                fault_codes: Seq::empty(),
            },
        )
    }
}

/// Decoding an encoded vehicle battery record gives every carried field
/// back unchanged, whenever the fields lie within the clamp ranges; the
/// fields the wire does not carry come back at their defaults.
pub proof fn lemma_car_battery_carried_fields_round_trip(v: CarBatteryView)
    requires
        car_battery_fields_in_range(v),
    ensures
        spec_unpack_car_battery(spec_pack_car_battery(v)) == Some(
            CarBatteryView {
                id: Seq::empty(),
                max_cell_voltage: 0,
                min_cell_voltage: 0,
                board_temperature: 0,
                max_discharge_power: 0,
                fault: false,
                fault_codes: Seq::empty(),
                ..v
            },
        ),
{
    let d = spec_pack_car_battery(v);
    assert(d.len() == 8);
    wire::lemma_be_round_trip(v.voltage as int);
    wire::lemma_be_round_trip(v.current + 10000);
}

/// The big-endian byte pair a power setpoint in 0.1 kW units is sent as:
/// clamped to the 0..=50 kW range.
pub fn charger_setpoint_bytes(power_dkw: u16) -> (r: (u8, u8))
    ensures
        r.0 == be_hi(clamp_spec(power_dkw as int, 0, 500)),
        r.1 == be_lo(clamp_spec(power_dkw as int, 0, 500)),
{
    wire::be_split(wire::clamp_u16(power_dkw, 0, 500))
}

/// Copies a fault-code list.
fn clone_codes(v: &Vec<u16>) -> (r: Vec<u16>)
    ensures
        r@ == v@,
{
    let mut r: Vec<u16> = Vec::new();
    let mut i: usize = 0;
    while i < v.len()
        invariant
            i <= v.len(),
            r@ == v@.take(i as int),
        decreases v.len() - i,
    {
        r.push(v[i]);
        proof {
            assert(v@.take(i as int).push(v@[i as int]) =~= v@.take(i + 1));
        }
        i += 1;
    }
    proof {
        assert(v@.take(v@.len() as int) =~= v@);
    }
    r
}

/// Charging station speaking the request/reply protocol on the CAN bus.
/// The cache holds the last successfully read status.
pub struct ChargerDevice {
    pub id: String,
    pub can_driver: Option<CanDriver>,
    pub cache: ChargerStatus,
}

impl ChargerDevice {
    /// Whether the device holds a connected CAN driver.
    pub open spec fn connected(&self) -> bool {
        self.can_driver matches Some(d) && d.connected()
    }

    /// Whether the device holds a CAN driver at all.
    pub open spec fn has_driver(&self) -> bool {
        self.can_driver is Some
    }

    /// Builds the device and connects its CAN driver at once; a failed
    /// connect fails the construction.
    pub fn new(id: String, can_interface: &str) -> (r: Result<ChargerDevice, DeviceError>)
        ensures
            r matches Ok(d) ==> d.connected() && d.id@ == id@ && d.cache@
                == ChargerStatus::spec_zeroed_view(),
    {
        let mut can_driver = CanDriver::new(can_interface);
        match can_driver.connect() {
            Ok(()) => Ok(
                ChargerDevice { id, can_driver: Some(can_driver), cache: ChargerStatus::zeroed() },
            ),
            Err(e) => Err(e.kind()),
        }
    }

    /// Builds the device around an existing driver, connected or not.
    pub fn with_driver(id: String, can_driver: CanDriver) -> (r: ChargerDevice)
        ensures
            r.id@ == id@,
            r.cache@ == ChargerStatus::spec_zeroed_view(),
            r.connected() == can_driver.connected(),
            r.has_driver(),
    {
        ChargerDevice { id, can_driver: Some(can_driver), cache: ChargerStatus::zeroed() }
    }

    /// Whether the device holds a connected CAN driver.
    pub fn is_connected(&self) -> (r: bool)
        ensures
            r == self.connected(),
    {
        match &self.can_driver {
            Some(d) => d.is_connected(),
            None => false,
        }
    }

    /// Encodes a charger status into its 8-byte frame payload, carrying
    /// at most the first two fault codes.
    pub fn pack_charger_status(status: &ChargerStatus) -> (r: Vec<u8>)
        ensures
            r@ == spec_pack_charger_status(status@),
            r@.len() == 8,
    {
        let n: usize = if status.fault_codes.len() >= 2 {
            2
        } else {
            status.fault_codes.len()
        };
        let v = wire::clamp_u16(status.voltage, 0, 1000);
        let flags: u8 = (if status.charging {
            1u16
        } else {
            0u16
        } + if status.fault {
            2u16
        } else {
            0u16
        } + 4 * (n as u16) + 16 * (v / 256)) as u8;
        let code0: u8 = if n >= 1 {
            wire::clamp_u16(status.fault_codes[0], 0, 255) as u8
        } else {
            0
        };
        let code1: u8 = if n >= 2 {
            wire::clamp_u16(status.fault_codes[1], 0, 255) as u8
        } else {
            0
        };
        let mut data: Vec<u8> = Vec::new();
        data.push(flags);
        data.push(if status.power > 100 { 100 } else { status.power });
        data.push((v % 256) as u8);
        data.push(if status.current > 200 { 200 } else { status.current });
        data.push((wire::clamp_i16(status.temperature, -50, 100) + 50) as u8);
        data.push(if status.efficiency > 100 { 100 } else { status.efficiency });
        data.push(code0);
        data.push(code1);
        proof {
            assert(data@ =~= spec_pack_charger_status(status@));
        }
        data
    }

    /// Decodes an 8-byte frame payload into a charger status; a shorter
    /// payload decodes to nothing.
    pub fn unpack_charger_status(data: &[u8]) -> (r: Option<ChargerStatus>)
        ensures
            r is Some <==> spec_unpack_charger_status(data@) is Some,
            r matches Some(s) ==> spec_unpack_charger_status(data@) == Some(s@),
    {
        if data.len() < 8 {
            return None;
        }
        let b0 = data[0];
        let n0: u8 = (b0 / 4) % 4;
        let n: usize = if n0 >= 2 {
            2
        } else {
            n0 as usize
        };
        let mut fault_codes: Vec<u16> = Vec::new();
        if n >= 1 {
            fault_codes.push(data[6] as u16);
        }
        if n == 2 {
            fault_codes.push(data[7] as u16);
        }
        let status = ChargerStatus {
            charging: b0 % 2 == 1,
            power: if data[1] > 100 {
                100
            } else {
                data[1]
            },
            voltage: wire::clamp_u16((b0 / 16) as u16 * 256 + data[2] as u16, 0, 1000),
            current: if data[3] > 200 {
                200
            } else {
                data[3]
            },
            temperature: wire::clamp_i16((data[4] as i16) - 50, -50, 100),
            efficiency: if data[5] > 100 {
                100
            } else {
                data[5]
            },
            fault: (b0 / 2) % 2 == 1,
            fault_codes,
        };
        proof {
            let su = spec_unpack_charger_status(data@).unwrap();
            assert(status@.fault_codes =~= su.fault_codes);
            assert(status@ == su);
        }
        Some(status)
    }

    /// Encodes a vehicle battery record into its 8-byte payload; the
    /// cell extrema and the board temperature are not carried.
    pub fn pack_car_battery(battery: &CarBattery) -> (r: Vec<u8>)
        ensures
            r@ == spec_pack_car_battery(battery@),
            r@.len() == 8,
    {
        let vv = wire::be_split(wire::clamp_u16(battery.voltage, 0, 10000));
        let cur = wire::be_split(wire::clamp_i64(battery.current as i64 + 10000, 0, 20000) as u16);
        let ct = wire::clamp_i64(battery.cell_temperature as i64 + 50, 0, 150) as u8;
        let mut data: Vec<u8> = Vec::new();
        data.push(if battery.soc > 100 { 100 } else { battery.soc });
        data.push(vv.0);
        data.push(vv.1);
        data.push(cur.0);
        data.push(cur.1);
        data.push(ct);
        data.push(if battery.max_charge_power > 100 { 100 } else { battery.max_charge_power });
        data.push(if battery.health > 100 { 100 } else { battery.health });
        proof {
            assert(data@ =~= spec_pack_car_battery(battery@));
        }
        data
    }

    /// Decodes an 8-byte payload into a vehicle battery record; a shorter
    /// payload decodes to nothing, and the fields the frame does not
    /// carry read back at their defaults.
    pub fn unpack_car_battery(data: &[u8]) -> (r: Option<CarBattery>)
        ensures
            r is Some <==> spec_unpack_car_battery(data@) is Some,
            r matches Some(b) ==> spec_unpack_car_battery(data@) == Some(b@),
    {
        if data.len() < 8 {
            return None;
        }
        let battery = CarBattery {
            id: String::new(),
            soc: if data[0] > 100 {
                100
            } else {
                data[0]
            },
            voltage: wire::be_join(data[1], data[2]),
            current: (wire::be_join(data[3], data[4]) as i32) - 10000,
            max_cell_voltage: 0,
            min_cell_voltage: 0,
            cell_temperature: wire::clamp_i32((data[5] as i32) - 50, -50, 100),
            board_temperature: 0,
            max_charge_power: if data[6] > 100 {
                100
            } else {
                data[6]
            },
            max_discharge_power: 0,
            health: if data[7] > 100 {
                100
            } else {
                data[7]
            },
            fault: false,
            fault_codes: Vec::new(),
        };
        proof {
            let su = spec_unpack_car_battery(data@).unwrap();
            assert(battery@.fault_codes =~= su.fault_codes);
            assert(battery@.id =~= su.id);
            assert(battery@ == su);
        }
        Some(battery)
    }

    /// Requests the status and decodes the reply. A successful read
    /// updates the cache with exactly the returned status; a failed read
    /// leaves it as it was.
    pub fn read_status(&mut self) -> (r: Result<ChargerStatus, DeviceError>)
        ensures
            final(self).id == old(self).id,
            final(self).connected() == old(self).connected(),
            !old(self).has_driver() ==> r == Result::<ChargerStatus, DeviceError>::Err(
                DeviceError::NotConnected,
            ),
            r matches Ok(s) ==> final(self).cache@ == s@,
            r is Err ==> final(self).cache@ == old(self).cache@,
    {
        let driver = match &self.can_driver {
            Some(d) => d,
            None => {
                return Err(DeviceError::NotConnected);
            }
        };
        let request: Vec<u8> = vec![0x01];
        match driver.send_frame(CHARGER_STATUS_REQUEST_ID, request.as_slice()) {
            Ok(()) => {}
            Err(e) => {
                return Err(e.kind());
            }
        }
        match driver.recv_frame() {
            Ok(CanRecv::Standard { id, data }) => {
                if id != CHARGER_STATUS_RESPONSE_ID {
                    return Err(DeviceError::InvalidData);
                }
                match Self::unpack_charger_status(data.as_slice()) {
                    Some(status) => {
                        self.cache = ChargerStatus {
                            charging: status.charging,
                            power: status.power,
                            voltage: status.voltage,
                            current: status.current,
                            temperature: status.temperature,
                            efficiency: status.efficiency,
                            fault: status.fault,
                            fault_codes: clone_codes(&status.fault_codes),
                        };
                        Ok(status)
                    }
                    None => Err(DeviceError::InvalidData),
                }
            }
            Ok(CanRecv::Other) => Err(DeviceError::InvalidData),
            Err(e) => Err(e.kind()),
        }
    }

    /// Requests the vehicle battery record and decodes the reply. The
    /// status cache is not touched.
    pub fn read_car_battery(&mut self) -> (r: Result<CarBattery, DeviceError>)
        ensures
            *final(self) == *old(self),
            !old(self).has_driver() ==> r == Result::<CarBattery, DeviceError>::Err(
                DeviceError::NotConnected,
            ),
    {
        let driver = match &self.can_driver {
            Some(d) => d,
            None => {
                return Err(DeviceError::NotConnected);
            }
        };
        let request: Vec<u8> = vec![0x01];
        match driver.send_frame(CAR_BATTERY_REQUEST_ID, request.as_slice()) {
            Ok(()) => {}
            Err(e) => {
                return Err(e.kind());
            }
        }
        match driver.recv_frame() {
            Ok(CanRecv::Standard { id, data }) => {
                if id != CAR_BATTERY_RESPONSE_ID {
                    return Err(DeviceError::InvalidData);
                }
                match Self::unpack_car_battery(data.as_slice()) {
                    Some(battery) => Ok(battery),
                    None => Err(DeviceError::InvalidData),
                }
            }
            Ok(CanRecv::Other) => Err(DeviceError::InvalidData),
            Err(e) => Err(e.kind()),
        }
    }

    /// The cached status; never touches the bus and never fails.
    pub fn get_cached_status(&self) -> (r: ChargerStatus)
        ensures
            r@ == self.cache@,
    {
        ChargerStatus {
            charging: self.cache.charging,
            power: self.cache.power,
            voltage: self.cache.voltage,
            current: self.cache.current,
            temperature: self.cache.temperature,
            efficiency: self.cache.efficiency,
            fault: self.cache.fault,
            fault_codes: clone_codes(&self.cache.fault_codes),
        }
    }

    /// Sends the mode command byte. The cache is not touched.
    pub fn set_mode(&self, mode: ChargerMode) -> (r: Result<(), DeviceError>)
        ensures
            !self.has_driver() ==> r == Result::<(), DeviceError>::Err(DeviceError::NotConnected),
    {
        let driver = match &self.can_driver {
            Some(d) => d,
            None => {
                return Err(DeviceError::NotConnected);
            }
        };
        let frame: Vec<u8> = vec![mode.value()];
        match driver.send_frame(CHARGER_MODE_ID, frame.as_slice()) {
            Ok(()) => Ok(()),
            Err(e) => Err(e.kind()),
        }
    }

    /// Encodes the given status and sends it on the write identifier,
    /// but only if the encoding fits a single 8-byte frame, as every
    /// status encoding does; an oversize payload would be rejected as
    /// invalid data, never truncated. With a connected driver only the
    /// bus itself can refuse the write.
    pub fn write_status(&self, status: ChargerStatus) -> (r: Result<(), DeviceError>)
        ensures
            !self.has_driver() ==> r == Result::<(), DeviceError>::Err(DeviceError::NotConnected),
            self.has_driver() && !self.connected() ==> r == Result::<(), DeviceError>::Err(
                DeviceError::ConnectionFailed,
            ),
            self.connected() ==> (r matches Err(e) ==> e == DeviceError::ProtocolError),
    {
        let driver = match &self.can_driver {
            Some(d) => d,
            None => {
                return Err(DeviceError::NotConnected);
            }
        };
        let data = Self::pack_charger_status(&status);
        if data.len() > 8 {
            return Err(DeviceError::InvalidData);
        }
        match driver.send_frame(CHARGER_STATUS_WRITE_ID, data.as_slice()) {
            Ok(()) => Ok(()),
            Err(e) => Err(e.kind()),
        }
    }

    /// Sends the clamped power setpoint, given in 0.1 kW units, as a
    /// big-endian pair. The cache is not touched.
    pub fn set_power_setpoint(&self, power_dkw: u16) -> (r: Result<(), DeviceError>)
        ensures
            !self.has_driver() ==> r == Result::<(), DeviceError>::Err(DeviceError::NotConnected),
    {
        let driver = match &self.can_driver {
            Some(d) => d,
            None => {
                return Err(DeviceError::NotConnected);
            }
        };
        let bytes = charger_setpoint_bytes(power_dkw);
        let frame: Vec<u8> = vec![bytes.0, bytes.1];
        match driver.send_frame(CHARGER_SETPOINT_ID, frame.as_slice()) {
            Ok(()) => Ok(()),
            Err(e) => Err(e.kind()),
        }
    }
}

} // verus!
