//! Operator command parsing and dispatch: every action string, the mode
//! tables, the parameter errors, and the controller-side effects.

use ems_control::commands::{
    parse_command, parse_pcs_mode, parse_pv_mode, CommandParseError, CommandReply, OperatorCommand,
};
use ems_control::devices::pv_dcdc::PvMode;
use ems_control::ems_core::{EmsController, EmsMode};
use ems_control::types::PcsMode;

#[test]
fn parse_system_and_genset_actions() {
    assert_eq!(parse_command("start_system", None, None), Ok(OperatorCommand::StartSystem));
    assert_eq!(parse_command("stop_system", None, None), Ok(OperatorCommand::StopSystem));
    assert_eq!(parse_command("start_genset", None, None), Ok(OperatorCommand::StartGenset));
    assert_eq!(parse_command("stop_genset", None, None), Ok(OperatorCommand::StopGenset));
}

#[test]
fn parse_unknown_action() {
    let e = parse_command("reboot", None, None).unwrap_err();
    assert_eq!(e, CommandParseError::UnknownAction);
    assert_eq!(e.message(), "Unknown action");
}

#[test]
fn parse_pcs_mode_names() {
    assert_eq!(parse_pcs_mode("standby"), Some(PcsMode::Standby));
    assert_eq!(parse_pcs_mode("charging"), Some(PcsMode::Charging));
    assert_eq!(parse_pcs_mode("discharging"), Some(PcsMode::Discharging));
    assert_eq!(parse_pcs_mode("gridtie"), Some(PcsMode::GridTie));
    assert_eq!(parse_pcs_mode("offgrid"), Some(PcsMode::OffGrid));
    assert_eq!(parse_pcs_mode("fault"), Some(PcsMode::Fault));
    assert_eq!(parse_pcs_mode("sideways"), None);
}

#[test]
fn parse_pv_mode_names() {
    assert_eq!(parse_pv_mode("standby"), Some(PvMode::Standby));
    assert_eq!(parse_pv_mode("mppt"), Some(PvMode::MPPT));
    assert_eq!(parse_pv_mode("constant_voltage"), Some(PvMode::ConstantVoltage));
    assert_eq!(parse_pv_mode("constant_current"), Some(PvMode::ConstantCurrent));
    assert_eq!(parse_pv_mode("fault"), Some(PvMode::Fault));
    assert_eq!(parse_pv_mode("sideways"), None);
}

#[test]
fn parse_mode_actions_demand_a_mode() {
    assert_eq!(
        parse_command("set_pcs_mode", Some("charging"), None),
        Ok(OperatorCommand::SetPcsMode(PcsMode::Charging))
    );
    assert_eq!(
        parse_command("set_pcs_mode", None, None),
        Err(CommandParseError::MissingMode)
    );
    assert_eq!(
        parse_command("set_pcs_mode", Some("sideways"), None),
        Err(CommandParseError::InvalidMode)
    );
    assert_eq!(
        parse_command("set_pv_mode", Some("mppt"), None),
        Ok(OperatorCommand::SetPvMode(PvMode::MPPT))
    );
    assert_eq!(parse_command("set_pv_mode", None, None), Err(CommandParseError::MissingMode));
    assert_eq!(CommandParseError::MissingMode.message(), "Missing mode parameter");
    assert_eq!(CommandParseError::InvalidMode.message(), "Invalid mode");
}

#[test]
fn parse_value_actions_demand_a_value() {
    assert_eq!(
        parse_command("set_charger_power", None, Some(150)),
        Ok(OperatorCommand::SetChargerPower(150))
    );
    assert_eq!(
        parse_command("set_charger_power", None, None),
        Err(CommandParseError::MissingPower)
    );
    assert_eq!(
        parse_command("set_charger_power", None, Some(-1)),
        Err(CommandParseError::InvalidValue)
    );
    assert_eq!(
        parse_command("set_threshold", None, Some(35)),
        Ok(OperatorCommand::SetThreshold(35))
    );
    assert_eq!(
        parse_command("set_threshold", None, None),
        Err(CommandParseError::MissingThreshold)
    );
    assert_eq!(
        parse_command("set_threshold", None, Some(101)),
        Err(CommandParseError::InvalidValue)
    );
    assert_eq!(CommandParseError::MissingPower.message(), "Missing power parameter");
    assert_eq!(CommandParseError::MissingThreshold.message(), "Missing threshold parameter");
}

#[test]
fn apply_start_and_stop_commands() {
    let mut c = EmsController::new().unwrap();
    assert_eq!(c.apply_command(&OperatorCommand::StartSystem), CommandReply::Started);
    assert!(c.is_running());
    assert_eq!(c.apply_command(&OperatorCommand::StartSystem), CommandReply::AlreadyRunning);
    assert_eq!(c.apply_command(&OperatorCommand::StopSystem), CommandReply::Stopped);
    assert!(!c.is_running());
    assert_eq!(*c.get_mode(), EmsMode::Fault);
}

#[test]
fn apply_threshold_command_updates_config() {
    let mut c = EmsController::new().unwrap();
    assert_eq!(
        c.apply_command(&OperatorCommand::SetThreshold(42)),
        CommandReply::ThresholdSet(42)
    );
    assert_eq!(c.config.battery_soc_threshold, 42);
    assert_eq!(c.config.max_charger_power, 220);
}

#[test]
fn apply_device_commands_report_missing_devices() {
    let mut c = EmsController::new().unwrap();
    assert_eq!(
        c.apply_command(&OperatorCommand::SetPcsMode(PcsMode::Charging)),
        CommandReply::DeviceMissing
    );
    assert_eq!(
        c.apply_command(&OperatorCommand::SetPvMode(PvMode::MPPT)),
        CommandReply::DeviceMissing
    );
    assert_eq!(c.apply_command(&OperatorCommand::StartGenset), CommandReply::DeviceMissing);
    assert_eq!(c.apply_command(&OperatorCommand::StopGenset), CommandReply::DeviceMissing);
    assert_eq!(
        c.apply_command(&OperatorCommand::SetChargerPower(100)),
        CommandReply::DeviceMissing
    );
}

#[test]
fn reply_messages_render() {
    assert_eq!(CommandReply::Started.message(), "System started");
    assert_eq!(CommandReply::Stopped.message(), "System stopped");
    assert_eq!(CommandReply::GensetStarted.message(), "Genset started");
    assert_eq!(CommandReply::GensetStopped.message(), "Genset stopped");
    assert_eq!(CommandReply::DeviceMissing.message(), "Device not configured");
}
