//! Transport driver behavior that needs no bus: configuration validation,
//! the disconnected-client error discipline, the Modbus device decoders,
//! and the wire arithmetic.

use ems_control::devices::genset::{decode_genset_registers, genset_power_setpoint_word};
use ems_control::devices::pcs::{decode_pcs_registers, pcs_mode_value, pcs_power_setpoint_word};
use ems_control::devices::pv_dcdc::{
    decode_pv_registers, pv_power_setpoint_word, pv_voltage_setpoint_word, PvMode,
};
use ems_control::drivers::can::{CanConfig, CanDriver};
use ems_control::drivers::modbus::{ModbusClient, ModbusDriver};
use ems_control::errors::{CanError, DeviceError, ModbusError};
use ems_control::types::PcsMode;
use ems_control::wire;

#[test]
fn can_config_validation() {
    let mut cfg = CanConfig::default();
    assert!(cfg.validate().is_ok());
    cfg.interface = String::new();
    assert!(matches!(cfg.validate(), Err(CanError::ConfigError(_))));
    let mut cfg = CanConfig::new("can1", 0);
    assert!(matches!(cfg.validate(), Err(CanError::ConfigError(_))));
    cfg.bitrate = 250_000;
    cfg.sample_point_permille = 1001;
    assert!(matches!(cfg.validate(), Err(CanError::ConfigError(_))));
    cfg.sample_point_permille = 1000;
    assert!(cfg.validate().is_ok());
}

#[test]
fn can_driver_starts_disconnected() {
    let d = CanDriver::new("vcan-test");
    assert!(!d.is_connected());
    assert_eq!(d.config().bitrate, 500_000);
    assert!(matches!(d.send_frame(0x100, &[1, 2]), Err(CanError::ConnectionFailed(_))));
    assert!(matches!(d.recv_frame(), Err(CanError::ConnectionFailed(_))));
    assert!(matches!(d.try_recv_frame(), Err(CanError::ConnectionFailed(_))));
}

#[test]
fn can_driver_rejects_invalid_config_on_connect() {
    let mut d = CanDriver::with_config(CanConfig::new("", 500_000));
    assert!(matches!(d.connect(), Err(CanError::ConfigError(_))));
    assert!(!d.is_connected());
}

#[test]
fn modbus_client_starts_disconnected() {
    let mut c = ModbusClient::new("192.0.2.1", 502);
    assert!(!c.is_connected());
    assert!(matches!(c.read_holding_registers(1, 7), Err(ModbusError::ConnectionFailed(_))));
    assert!(matches!(c.read_input_registers(1, 7), Err(ModbusError::ConnectionFailed(_))));
    assert!(matches!(c.write_single_register(1, 0), Err(ModbusError::ConnectionFailed(_))));
    assert!(matches!(c.write_multiple_registers(1, &[0]), Err(ModbusError::ConnectionFailed(_))));
    assert!(matches!(c.read_coils(0, 1), Err(ModbusError::ConnectionFailed(_))));
    assert!(matches!(c.read_discrete_inputs(0, 1), Err(ModbusError::ConnectionFailed(_))));
    assert!(matches!(c.write_single_coil(1, true), Err(ModbusError::ConnectionFailed(_))));
    assert!(matches!(c.write_multiple_coils(1, &[true]), Err(ModbusError::ConnectionFailed(_))));
    c.disconnect();
    assert!(!c.is_connected());
    let c2 = ModbusClient::with_config("192.0.2.1", 502, 1000, 3);
    assert!(!c2.is_connected());
}

#[test]
fn modbus_driver_facade_reports_no_connection() {
    assert!(!ModbusDriver::new().is_connected());
}

#[test]
fn error_kinds_collapse_to_the_device_taxonomy() {
    assert_eq!(ModbusError::Timeout.kind(), DeviceError::Timeout);
    assert_eq!(
        ModbusError::ConnectionFailed(String::new()).kind(),
        DeviceError::ConnectionFailed
    );
    assert_eq!(ModbusError::ProtocolError(String::new()).kind(), DeviceError::ProtocolError);
    assert_eq!(ModbusError::InvalidData(String::new()).kind(), DeviceError::InvalidData);
    assert_eq!(CanError::Timeout.kind(), DeviceError::Timeout);
    assert_eq!(CanError::ConfigError(String::new()).kind(), DeviceError::ConfigError);
}

#[test]
fn pv_registers_decode_with_temperature_offset() {
    // voltage 385.0 V, current 12.5 A, power 4812.5 W, raw temperature
    // 300 -> -20.0 degC, efficiency 96.5 %, MPPT, no fault.
    let regs = [3850u16, 125, 48125, 300, 9650, 1, 0];
    let (s, mode) = decode_pv_registers(&regs).unwrap();
    assert_eq!(s.voltage, 3850);
    assert_eq!(s.current, 125);
    assert_eq!(s.power, 48125);
    assert_eq!(s.temperature, -200);
    assert_eq!(s.efficiency, 9650);
    assert!(!s.fault);
    assert_eq!(mode, PvMode::MPPT);
}

#[test]
fn pv_decode_flags_fault_and_defaults_odd_modes() {
    let regs = [0u16, 0, 0, 500, 0, 9, 7];
    let (s, mode) = decode_pv_registers(&regs).unwrap();
    assert!(s.fault);
    assert_eq!(s.temperature, 0);
    assert_eq!(mode, PvMode::Standby);
    assert!(decode_pv_registers(&regs[..6]).is_none());
}

#[test]
fn pv_setpoint_words_clamp() {
    assert_eq!(pv_voltage_setpoint_word(9000), 9000);
    assert_eq!(pv_voltage_setpoint_word(12000), 10000);
    assert_eq!(pv_power_setpoint_word(50000), 50000);
    assert_eq!(pv_power_setpoint_word(100000), 0xFFFF);
}

#[test]
fn genset_registers_decode_with_engine_hour_pair() {
    let regs = [1234u16, 7550, 4005, 321, 500, 0x0001, 0x86A0, 880];
    let s = decode_genset_registers(true, &regs).unwrap();
    assert!(s.running);
    assert_eq!(s.power_output, 1234);
    assert_eq!(s.fuel_level, 7550);
    assert_eq!(s.voltage, 4005);
    assert_eq!(s.current, 321);
    assert_eq!(s.frequency, 500);
    // High word 1, low word 0x86A0: 65536 + 34464 = 100000 hours.
    assert_eq!(s.engine_hours, 100_000);
    assert_eq!(s.temperature, 880);
    assert!(decode_genset_registers(true, &regs[..7]).is_none());
}

#[test]
fn genset_setpoint_word_clamps() {
    assert_eq!(genset_power_setpoint_word(9999), 9999);
    assert_eq!(genset_power_setpoint_word(10001), 10000);
}

#[test]
fn pcs_registers_decode_signed_power() {
    let s = decode_pcs_registers(&[2u16, 200]).unwrap();
    assert_eq!(s.mode, PcsMode::Discharging);
    assert_eq!(s.power, 200);
    // 0xFF38 reinterprets as -200: charging at 20 kW.
    let s = decode_pcs_registers(&[1u16, 0xFF38]).unwrap();
    assert_eq!(s.mode, PcsMode::Charging);
    assert_eq!(s.power, -200);
    assert!(decode_pcs_registers(&[6u16, 0]).is_none());
    assert!(decode_pcs_registers(&[1u16]).is_none());
}

#[test]
fn pcs_mode_register_values() {
    assert_eq!(pcs_mode_value(PcsMode::Standby), 0);
    assert_eq!(pcs_mode_value(PcsMode::Charging), 1);
    assert_eq!(pcs_mode_value(PcsMode::Discharging), 2);
    assert_eq!(pcs_mode_value(PcsMode::GridTie), 3);
    assert_eq!(pcs_mode_value(PcsMode::OffGrid), 4);
    assert_eq!(pcs_mode_value(PcsMode::Fault), 5);
}

#[test]
fn pcs_setpoint_word_bit_casts_negative_values() {
    assert_eq!(pcs_power_setpoint_word(200), 200);
    assert_eq!(pcs_power_setpoint_word(-200), 0xFF38);
    assert_eq!(pcs_power_setpoint_word(2000), 1000);
    assert_eq!(pcs_power_setpoint_word(-2000), 0xFC18);
}

#[test]
fn wire_arithmetic_round_trips() {
    assert_eq!(wire::be_split(0x1234), (0x12, 0x34));
    assert_eq!(wire::be_join(0x12, 0x34), 0x1234);
    assert_eq!(wire::u16_of_i16(-1), 0xFFFF);
    assert_eq!(wire::u16_of_i16(-32768), 0x8000);
    assert_eq!(wire::i16_of_u16(0x8000), -32768);
    assert_eq!(wire::i16_of_u16(0x7FFF), 32767);
    assert_eq!(wire::u32_of_word_pair(0x0001, 0x86A0), 100_000);
    assert_eq!(wire::u32_of_be_bytes(0x01, 0x02, 0x03, 0x04), 0x01020304);
    assert_eq!(wire::be_split_u32(0x01020304), (0x01, 0x02, 0x03, 0x04));
    assert_eq!(wire::clamp_u16(7, 0, 5), 5);
    assert_eq!(wire::clamp_i32(-7, -5, 5), -5);
}
