//! Battery pack and cell codec behavior: exact frame bytes, round trips,
//! clamping, and short-frame rejection, all within single 8-byte frames.

use ems_control::devices::bms::BatteryDevice;
use ems_control::errors::DeviceError;
use ems_control::types::{BatteryCellStatus, BatteryStatus};

fn sample_status() -> BatteryStatus {
    BatteryStatus {
        soc: 55,
        voltage: 40025,
        current: -1234,
        temperature: 27,
        sop_charge: 80,
        sop_discharge: 85,
    }
}

#[test]
fn battery_status_round_trip() {
    let s = sample_status();
    let data = BatteryDevice::pack_battery_status(&s);
    assert_eq!(data.len(), 8);
    let back = BatteryDevice::unpack_battery_status(&data).unwrap();
    assert_eq!(back, s);
}

#[test]
fn battery_status_exact_bytes() {
    let s = sample_status();
    let data = BatteryDevice::pack_battery_status(&s);
    // voltage 40025 = 0x9C59; current -1234 -> 0xFB2E; temperature 27
    // rides as 77 with its +50 offset.
    assert_eq!(data, vec![55, 0x9C, 0x59, 0xFB, 0x2E, 77, 80, 85]);
}

#[test]
fn battery_status_pack_clamps_out_of_range_fields() {
    let s = BatteryStatus {
        soc: 200,
        voltage: 60000,
        current: 32000,
        temperature: -90,
        sop_charge: 130,
        sop_discharge: 140,
    };
    let data = BatteryDevice::pack_battery_status(&s);
    let back = BatteryDevice::unpack_battery_status(&data).unwrap();
    assert_eq!(back.soc, 100);
    assert_eq!(back.voltage, 50000);
    assert_eq!(back.current, 30000);
    assert_eq!(back.temperature, -50);
    assert_eq!(back.sop_charge, 100);
    assert_eq!(back.sop_discharge, 100);
}

#[test]
fn battery_status_short_frame_is_rejected() {
    let data = vec![0u8; 7];
    assert!(BatteryDevice::unpack_battery_status(&data).is_none());
}

#[test]
fn battery_cell_status_round_trip_of_carried_fields() {
    let s = BatteryCellStatus {
        cell_count: 96,
        max_cell_voltage: 36500,
        min_cell_voltage: 36210,
        max_cell_temperature: 26,
        min_cell_temperature: -5,
        working_time: 0,
        cycle_count: 0,
        health_percentage: 98,
    };
    let data = BatteryDevice::pack_battery_cell_status(&s);
    assert_eq!(data.len(), 8);
    let back = BatteryDevice::unpack_battery_cell_status(&data).unwrap();
    assert_eq!(back, s);
}

#[test]
fn battery_cell_accumulators_are_not_carried() {
    let s = BatteryCellStatus {
        cell_count: 96,
        max_cell_voltage: 36500,
        min_cell_voltage: 36210,
        max_cell_temperature: 26,
        min_cell_temperature: -5,
        working_time: 123456789,
        cycle_count: 321,
        health_percentage: 98,
    };
    let data = BatteryDevice::pack_battery_cell_status(&s);
    let back = BatteryDevice::unpack_battery_cell_status(&data).unwrap();
    assert_eq!(back.working_time, 0);
    assert_eq!(back.cycle_count, 0);
    assert_eq!(back.cell_count, s.cell_count);
    assert_eq!(back.max_cell_voltage, s.max_cell_voltage);
    assert_eq!(back.health_percentage, s.health_percentage);
}

#[test]
fn battery_cell_temperature_rides_with_offset() {
    let s = BatteryCellStatus {
        cell_count: 1,
        max_cell_voltage: 0,
        min_cell_voltage: 0,
        max_cell_temperature: -5,
        min_cell_temperature: -50,
        working_time: 0,
        cycle_count: 0,
        health_percentage: 0,
    };
    let data = BatteryDevice::pack_battery_cell_status(&s);
    // -5 degC rides as 45; -50 degC as 0.
    assert_eq!(data[5], 45);
    assert_eq!(data[6], 0);
}

#[test]
fn battery_cell_status_short_frame_is_rejected() {
    let data = vec![0u8; 7];
    assert!(BatteryDevice::unpack_battery_cell_status(&data).is_none());
}

#[test]
fn battery_read_without_driver_is_not_connected() {
    let mut dev = BatteryDevice {
        id: String::from("bms-1"),
        can_driver: None,
        cache: BatteryStatus::zeroed(),
    };
    assert_eq!(dev.read_status(), Err(DeviceError::NotConnected));
    assert_eq!(dev.read_cell_status(), Err(DeviceError::NotConnected));
    assert_eq!(dev.write_status(sample_status()), Err(DeviceError::NotConnected));
}

#[test]
fn battery_write_fits_one_frame_and_needs_the_bus() {
    // The pack encoding always fits a single 8-byte frame, so only the
    // missing connection can refuse the write here.
    let driver = ems_control::drivers::can::CanDriver::new("vcan-test");
    let dev = BatteryDevice::with_driver(String::from("bms-1"), driver);
    assert_eq!(BatteryDevice::pack_battery_status(&sample_status()).len(), 8);
    assert_eq!(dev.write_status(sample_status()), Err(DeviceError::ConnectionFailed));
}

#[test]
fn battery_cache_starts_zeroed_and_reads_back() {
    let driver = ems_control::drivers::can::CanDriver::new("vcan-test");
    let dev = BatteryDevice::with_driver(String::from("bms-1"), driver);
    assert_eq!(dev.get_cached_status(), BatteryStatus::zeroed());
    assert!(!dev.is_connected());
}
