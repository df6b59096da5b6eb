//! Charger and vehicle-battery codec behavior: round trips for up to two
//! fault codes, observable truncation of longer lists, the packed flags
//! byte, offsets, clamps, and the single-frame write path.

use ems_control::devices::charger::{charger_setpoint_bytes, ChargerDevice, ChargerMode};
use ems_control::drivers::can::CanDriver;
use ems_control::errors::DeviceError;
use ems_control::types::{CarBattery, ChargerStatus};

fn sample_status(codes: Vec<u16>) -> ChargerStatus {
    ChargerStatus {
        charging: true,
        power: 21,
        voltage: 400,
        current: 32,
        temperature: -12,
        efficiency: 97,
        fault: false,
        fault_codes: codes,
    }
}

#[test]
fn charger_status_round_trip_without_codes() {
    let s = sample_status(vec![]);
    let data = ChargerDevice::pack_charger_status(&s);
    assert_eq!(data.len(), 8);
    assert_eq!(ChargerDevice::unpack_charger_status(&data).unwrap(), s);
}

#[test]
fn charger_status_round_trip_with_one_code() {
    let s = sample_status(vec![18]);
    let data = ChargerDevice::pack_charger_status(&s);
    assert_eq!(data.len(), 8);
    assert_eq!(ChargerDevice::unpack_charger_status(&data).unwrap(), s);
}

#[test]
fn charger_status_round_trip_with_two_codes() {
    let s = sample_status(vec![18, 239]);
    let data = ChargerDevice::pack_charger_status(&s);
    assert_eq!(data.len(), 8);
    assert_eq!(ChargerDevice::unpack_charger_status(&data).unwrap(), s);
}

#[test]
fn charger_status_exact_bytes() {
    let s = sample_status(vec![18]);
    let data = ChargerDevice::pack_charger_status(&s);
    // Flags byte: charging 1 + fault 0 + 4*count(1) + 16*(400/256 = 1)
    // = 21; voltage low byte 400 % 256 = 144; temperature -12 rides as
    // 38 with its +50 offset.
    assert_eq!(data, vec![21, 21, 144, 32, 38, 97, 18, 0]);
}

#[test]
fn charger_oversize_fault_list_truncates_to_two_codes() {
    let s = sample_status(vec![10, 20, 30, 40, 50]);
    let data = ChargerDevice::pack_charger_status(&s);
    assert_eq!(data.len(), 8);
    // The truncation is observable: the carried count reads two.
    assert_eq!((data[0] / 4) % 4, 2);
    let back = ChargerDevice::unpack_charger_status(&data).unwrap();
    assert_eq!(back.fault_codes, vec![10, 20]);
    let mut expected = s.clone();
    expected.fault_codes = vec![10, 20];
    assert_eq!(back, expected);
}

#[test]
fn charger_write_fits_one_frame_and_needs_the_bus() {
    // Every status encoding, even with an oversize fault list, fits a
    // single 8-byte frame; only the missing connection refuses the
    // write here.
    let dev = ChargerDevice::with_driver(String::from("chg-1"), CanDriver::new("vcan-test"));
    assert_eq!(
        dev.write_status(sample_status(vec![10, 20, 30, 40, 50])),
        Err(DeviceError::ConnectionFailed)
    );
    assert_eq!(dev.write_status(sample_status(vec![])), Err(DeviceError::ConnectionFailed));
}

#[test]
fn charger_short_frame_is_rejected() {
    assert!(ChargerDevice::unpack_charger_status(&[0u8; 7]).is_none());
}

#[test]
fn charger_unpack_clamps_decoded_values() {
    // Efficiency beyond 100 % clamps; a temperature byte of 255 stands
    // for 205 degC and clamps to 100.
    let data = [0u8, 0, 0, 0, 255, 200, 0, 0];
    let back = ChargerDevice::unpack_charger_status(&data).unwrap();
    assert_eq!(back.efficiency, 100);
    assert_eq!(back.temperature, 100);
    // Voltage high bits 3 with a full low byte decode to 1023 and clamp
    // to 1000.
    let data = [48u8, 0, 255, 0, 50, 0, 0, 0];
    let back = ChargerDevice::unpack_charger_status(&data).unwrap();
    assert_eq!(back.voltage, 1000);
    // A carried count of three reads as two.
    let data = [12u8, 0, 0, 0, 50, 0, 7, 9];
    let back = ChargerDevice::unpack_charger_status(&data).unwrap();
    assert_eq!(back.fault_codes, vec![7, 9]);
}

#[test]
fn charger_read_without_driver_is_not_connected() {
    let mut dev = ChargerDevice {
        id: String::from("chg-1"),
        can_driver: None,
        cache: ChargerStatus::zeroed(),
    };
    assert_eq!(dev.read_status(), Err(DeviceError::NotConnected));
    assert_eq!(dev.read_car_battery(), Err(DeviceError::NotConnected));
    assert_eq!(dev.set_mode(ChargerMode::Charging), Err(DeviceError::NotConnected));
    assert_eq!(dev.set_power_setpoint(100), Err(DeviceError::NotConnected));
    assert_eq!(dev.write_status(ChargerStatus::zeroed()), Err(DeviceError::NotConnected));
}

#[test]
fn charger_mode_wire_values() {
    assert_eq!(ChargerMode::Standby.value(), 0);
    assert_eq!(ChargerMode::Charging.value(), 1);
    assert_eq!(ChargerMode::Fault.value(), 2);
}

#[test]
fn charger_setpoint_clamps_to_fifty_kilowatts() {
    assert_eq!(charger_setpoint_bytes(300), (0x01, 0x2C));
    assert_eq!(charger_setpoint_bytes(600), (0x01, 0xF4));
    assert_eq!(charger_setpoint_bytes(0), (0x00, 0x00));
}

fn sample_car_battery() -> CarBattery {
    CarBattery {
        id: String::new(),
        soc: 80,
        voltage: 3987,
        current: -123,
        max_cell_voltage: 0,
        min_cell_voltage: 0,
        cell_temperature: 25,
        board_temperature: 0,
        max_charge_power: 50,
        max_discharge_power: 0,
        health: 99,
        fault: false,
        fault_codes: Vec::new(),
    }
}

#[test]
fn car_battery_round_trip_of_carried_fields() {
    let b = sample_car_battery();
    let data = ChargerDevice::pack_car_battery(&b);
    assert_eq!(data.len(), 8);
    let back = ChargerDevice::unpack_car_battery(&data).unwrap();
    assert_eq!(back, b);
}

#[test]
fn car_battery_exact_bytes() {
    let b = sample_car_battery();
    let data = ChargerDevice::pack_car_battery(&b);
    // current -123 rides with the +1000 A offset as 9877 = 0x2695; the
    // cell temperature rides as 75 with its +50 offset.
    assert_eq!(data, vec![80, 0x0F, 0x93, 0x26, 0x95, 75, 50, 99]);
}

#[test]
fn car_battery_short_frame_is_rejected() {
    assert!(ChargerDevice::unpack_car_battery(&[0u8; 7]).is_none());
}

#[test]
fn car_battery_uncarried_fields_come_back_empty() {
    let mut b = sample_car_battery();
    b.id = String::from("veh-7");
    b.max_cell_voltage = 415;
    b.min_cell_voltage = 397;
    b.board_temperature = 31;
    b.max_discharge_power = 321;
    b.fault = true;
    b.fault_codes = vec![9];
    let data = ChargerDevice::pack_car_battery(&b);
    let back = ChargerDevice::unpack_car_battery(&data).unwrap();
    assert_eq!(back.id, "");
    assert_eq!(back.max_cell_voltage, 0);
    assert_eq!(back.min_cell_voltage, 0);
    assert_eq!(back.board_temperature, 0);
    assert_eq!(back.max_discharge_power, 0);
    assert!(!back.fault);
    assert!(back.fault_codes.is_empty());
}
