//! Cache discipline: a failed read never overwrites a device cache, the
//! controller's cycle records read failures as faults, and the startup
//! health check sees every registered device.

use ems_control::devices::bms::BatteryDevice;
use ems_control::devices::charger::ChargerDevice;
use ems_control::devices::genset::GensetDevice;
use ems_control::devices::pcs::PcsDevice;
use ems_control::devices::pv_dcdc::{PvDevice, PvMode};
use ems_control::drivers::can::CanDriver;
use ems_control::drivers::modbus::ModbusClient;
use ems_control::ems_core::EmsController;
use ems_control::errors::DeviceError;
use ems_control::types::{BatteryStatus, PvStatus};

fn offline_client() -> ModbusClient {
    ModbusClient::new("192.0.2.1", 502)
}

#[test]
fn failed_pv_read_leaves_the_cache_alone() {
    let mut dev = PvDevice {
        id: String::from("pv-1"),
        modbus_client: Some(offline_client()),
        cache: PvStatus {
            voltage: 3850,
            current: 125,
            power: 48125,
            temperature: -200,
            efficiency: 9650,
            fault: false,
        },
        mode: PvMode::MPPT,
    };
    let before = dev.cache;
    assert_eq!(dev.read_status(), Err(DeviceError::ConnectionFailed));
    assert_eq!(dev.cache, before);
    assert_eq!(dev.mode, PvMode::MPPT);
    assert_eq!(dev.get_cached_status(), before);
}

#[test]
fn failed_battery_read_leaves_the_cache_alone() {
    let mut dev = BatteryDevice {
        id: String::from("bms-1"),
        can_driver: Some(CanDriver::new("vcan-test")),
        cache: BatteryStatus {
            soc: 77,
            voltage: 40000,
            current: -500,
            temperature: 25,
            sop_charge: 90,
            sop_discharge: 90,
        },
    };
    let before = dev.cache;
    assert_eq!(dev.read_status(), Err(DeviceError::ConnectionFailed));
    assert_eq!(dev.cache, before);
}

#[test]
fn devices_behind_disconnected_transports_report_transport_errors() {
    let mut pcs = PcsDevice::with_client(String::from("pcs-1"), offline_client());
    assert_eq!(pcs.read_status(), Err(DeviceError::ConnectionFailed));
    let mut genset = GensetDevice::with_client(String::from("gen-1"), offline_client());
    assert_eq!(genset.read_status(), Err(DeviceError::ConnectionFailed));
    assert_eq!(genset.start_engine(), Err(DeviceError::ConnectionFailed));
    assert!(!genset.cache.running);
    let mut charger =
        ChargerDevice::with_driver(String::from("chg-1"), CanDriver::new("vcan-test"));
    assert_eq!(charger.read_status(), Err(DeviceError::ConnectionFailed));
}

#[test]
fn cycle_records_read_failures_as_faults() {
    let mut c = EmsController::new().unwrap();
    c.add_pv_device(PvDevice::with_client(String::from("pv-1"), offline_client())).unwrap();
    c.add_battery_device(BatteryDevice {
        id: String::from("bms-1"),
        can_driver: Some(CanDriver::new("vcan-test")),
        cache: BatteryStatus::zeroed(),
    });
    c.add_genset_device(GensetDevice::with_client(String::from("gen-1"), offline_client()));
    c.start().unwrap();
    let _ = c.run_control_cycle();
    let s = c.get_status();
    assert!(!s.system_healthy);
    assert!(s.faults.iter().any(|f| f == "PV read failed"));
    assert!(s.faults.iter().any(|f| f == "battery read failed"));
    assert!(s.faults.iter().any(|f| f == "generator read failed"));
    assert_eq!(s.power_balance, s.total_generation - s.total_consumption);
}

#[test]
fn health_check_sees_every_registered_device() {
    let mut c = EmsController::new().unwrap();
    // Nothing registered: nothing can be disconnected.
    assert!(c.all_devices_connected());
    c.add_pcs_device(PcsDevice::with_client(String::from("pcs-1"), offline_client()));
    assert!(!c.all_devices_connected());
}
