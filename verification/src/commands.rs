//! Operator command surface: the named actions a shell may invoke on the
//! running controller, parsed from plain values and dispatched through
//! the controller so that every path to the devices is the same.

use vstd::prelude::*;

use crate::devices::pv_dcdc::PvMode;
use crate::ems_core::{EmsController, EmsMode};
use crate::types::PcsMode;

verus! {

/// A parsed operator command.
#[derive(Debug, Clone, Copy, PartialEq, Eq, Structural)]
pub enum OperatorCommand {
    StartSystem,
    StopSystem,
    SetPcsMode(PcsMode),
    SetPvMode(PvMode),
    StartGenset,
    StopGenset,
    /// Charger power setpoint in 0.1 kW units.
    SetChargerPower(u16),
    /// Battery state-of-charge threshold in whole percent.
    SetThreshold(u8),
}

/// Why a command did not parse.
#[derive(Debug, Clone, Copy, PartialEq, Eq, Structural)]
pub enum CommandParseError {
    UnknownAction,
    MissingMode,
    InvalidMode,
    MissingPower,
    MissingThreshold,
    InvalidValue,
}

/// The reply a dispatched command produces.
#[derive(Debug, Clone, Copy, PartialEq, Eq, Structural)]
pub enum CommandReply {
    Started,
    AlreadyRunning,
    Stopped,
    PcsModeSet(PcsMode),
    PvModeSet(PvMode),
    GensetStarted,
    GensetStopped,
    ChargerPowerSet(u16),
    ThresholdSet(u8),
    DeviceMissing,
    DeviceFailed,
}

/// The PCS mode an operator's mode string names.
pub open spec fn spec_pcs_mode_of_name(s: Seq<char>) -> Option<PcsMode> {
    if s == "standby"@ {
        Some(PcsMode::Standby)
    } else if s == "charging"@ {
        Some(PcsMode::Charging)
    } else if s == "discharging"@ {
        Some(PcsMode::Discharging)
    } else if s == "gridtie"@ {
        Some(PcsMode::GridTie)
    } else if s == "offgrid"@ {
        Some(PcsMode::OffGrid)
    } else if s == "fault"@ {
        Some(PcsMode::Fault)
    } else {
        Option::None
    }
}

/// The PV mode an operator's mode string names.
pub open spec fn spec_pv_mode_of_name(s: Seq<char>) -> Option<PvMode> {
    if s == "standby"@ {
        Some(PvMode::Standby)
    } else if s == "mppt"@ {
        Some(PvMode::MPPT)
    } else if s == "constant_voltage"@ {
        Some(PvMode::ConstantVoltage)
    } else if s == "constant_current"@ {
        Some(PvMode::ConstantCurrent)
    } else if s == "fault"@ {
        Some(PvMode::Fault)
    } else {
        Option::None
    }
}

/// What an action string with its optional mode string and optional
/// numeric value parses to. The value carries a power in 0.1 kW units
/// for `set_charger_power` and a percentage for `set_threshold`; a
/// negative or oversized value is invalid, an absent one missing.
pub open spec fn spec_parse_command(
    action: Seq<char>,
    mode: Option<Seq<char>>,
    value: Option<i64>,
) -> Result<OperatorCommand, CommandParseError> {
    if action == "start_system"@ {
        Ok(OperatorCommand::StartSystem)
    } else if action == "stop_system"@ {
        Ok(OperatorCommand::StopSystem)
    } else if action == "set_pcs_mode"@ {
        match mode {
            Some(m) => match spec_pcs_mode_of_name(m) {
                Some(pm) => Ok(OperatorCommand::SetPcsMode(pm)),
                Option::None => Err(CommandParseError::InvalidMode),
            },
            Option::None => Err(CommandParseError::MissingMode),
        }
    } else if action == "set_pv_mode"@ {
        match mode {
            Some(m) => match spec_pv_mode_of_name(m) {
                Some(pm) => Ok(OperatorCommand::SetPvMode(pm)),
                Option::None => Err(CommandParseError::InvalidMode),
            },
            Option::None => Err(CommandParseError::MissingMode),
        }
    } else if action == "start_genset"@ {
        Ok(OperatorCommand::StartGenset)
    } else if action == "stop_genset"@ {
        Ok(OperatorCommand::StopGenset)
    } else if action == "set_charger_power"@ {
        match value {
            Some(v) => if 0 <= v <= 0xFFFF {
                Ok(OperatorCommand::SetChargerPower(v as u16))
            } else {
                Err(CommandParseError::InvalidValue)
            },
            Option::None => Err(CommandParseError::MissingPower),
        }
    } else if action == "set_threshold"@ {
        match value {
            Some(v) => if 0 <= v <= 100 {
                Ok(OperatorCommand::SetThreshold(v as u8))
            } else {
                Err(CommandParseError::InvalidValue)
            },
            Option::None => Err(CommandParseError::MissingThreshold),
        }
    } else {
        Err(CommandParseError::UnknownAction)
    }
}

/// The view of an optional borrowed string.
pub open spec fn spec_opt_str_view(s: Option<&str>) -> Option<Seq<char>> {
    match s {
        Some(m) => Some(m@),
        Option::None => Option::None,
    }
}

/// Compares two strings by content.
fn str_eq(a: &str, b: &str) -> (r: bool)
    ensures
        r == (a@ == b@),
{
    let sa = String::from_str(a);
    let sb = String::from_str(b);
    sa.eq(&sb)
}

/// Parses the PCS mode an operator's mode string names.
pub fn parse_pcs_mode(s: &str) -> (r: Option<PcsMode>)
    ensures
        r == spec_pcs_mode_of_name(s@),
{
    if str_eq(s, "standby") {
        Some(PcsMode::Standby)
    } else if str_eq(s, "charging") {
        Some(PcsMode::Charging)
    } else if str_eq(s, "discharging") {
        Some(PcsMode::Discharging)
    } else if str_eq(s, "gridtie") {
        Some(PcsMode::GridTie)
    } else if str_eq(s, "offgrid") {
        Some(PcsMode::OffGrid)
    } else if str_eq(s, "fault") {
        Some(PcsMode::Fault)
    } else {
        None
    }
}

/// Parses the PV mode an operator's mode string names.
pub fn parse_pv_mode(s: &str) -> (r: Option<PvMode>)
    ensures
        r == spec_pv_mode_of_name(s@),
{
    if str_eq(s, "standby") {
        Some(PvMode::Standby)
    } else if str_eq(s, "mppt") {
        Some(PvMode::MPPT)
    } else if str_eq(s, "constant_voltage") {
        Some(PvMode::ConstantVoltage)
    } else if str_eq(s, "constant_current") {
        Some(PvMode::ConstantCurrent)
    } else if str_eq(s, "fault") {
        Some(PvMode::Fault)
    } else {
        None
    }
}

/// Parses an operator action with its optional mode string and optional
/// numeric value; the result is exactly `spec_parse_command`.
pub fn parse_command(action: &str, mode: Option<&str>, value: Option<i64>) -> (r: Result<
    OperatorCommand,
    CommandParseError,
>)
    ensures
        r == spec_parse_command(action@, spec_opt_str_view(mode), value),
{
    if str_eq(action, "start_system") {
        Ok(OperatorCommand::StartSystem)
    } else if str_eq(action, "stop_system") {
        Ok(OperatorCommand::StopSystem)
    } else if str_eq(action, "set_pcs_mode") {
        match mode {
            Some(m) => match parse_pcs_mode(m) {
                Some(pm) => Ok(OperatorCommand::SetPcsMode(pm)),
                None => Err(CommandParseError::InvalidMode),
            },
            None => Err(CommandParseError::MissingMode),
        }
    } else if str_eq(action, "set_pv_mode") {
        match mode {
            Some(m) => match parse_pv_mode(m) {
                Some(pm) => Ok(OperatorCommand::SetPvMode(pm)),
                None => Err(CommandParseError::InvalidMode),
            },
            None => Err(CommandParseError::MissingMode),
        }
    } else if str_eq(action, "start_genset") {
        Ok(OperatorCommand::StartGenset)
    } else if str_eq(action, "stop_genset") {
        Ok(OperatorCommand::StopGenset)
    } else if str_eq(action, "set_charger_power") {
        match value {
            Some(v) => if 0 <= v && v <= 0xFFFF {
                Ok(OperatorCommand::SetChargerPower(v as u16))
            } else {
                Err(CommandParseError::InvalidValue)
            },
            None => Err(CommandParseError::MissingPower),
        }
    } else if str_eq(action, "set_threshold") {
        match value {
            Some(v) => if 0 <= v && v <= 100 {
                Ok(OperatorCommand::SetThreshold(v as u8))
            } else {
                Err(CommandParseError::InvalidValue)
            },
            None => Err(CommandParseError::MissingThreshold),
        }
    } else {
        Err(CommandParseError::UnknownAction)
    }
}

impl CommandParseError {
    /// The status string the shell shows for this parse error.
    pub fn message(&self) -> (r: String)
        ensures
            self is UnknownAction ==> r@ == "Unknown action"@,
            self is MissingMode ==> r@ == "Missing mode parameter"@,
            self is InvalidMode ==> r@ == "Invalid mode"@,
            self is MissingPower ==> r@ == "Missing power parameter"@,
            self is MissingThreshold ==> r@ == "Missing threshold parameter"@,
            self is InvalidValue ==> r@ == "Invalid value"@,
    {
        match self {
            CommandParseError::UnknownAction => String::from_str("Unknown action"),
            CommandParseError::MissingMode => String::from_str("Missing mode parameter"),
            CommandParseError::InvalidMode => String::from_str("Invalid mode"),
            CommandParseError::MissingPower => String::from_str("Missing power parameter"),
            CommandParseError::MissingThreshold => String::from_str("Missing threshold parameter"),
            CommandParseError::InvalidValue => String::from_str("Invalid value"),
        }
    }
}

impl CommandReply {
    /// The status string the shell shows for this reply.
    pub fn message(&self) -> (r: String)
        ensures
            self is Started ==> r@ == "System started"@,
            self is AlreadyRunning ==> r@ == "EMS is already running"@,
            self is Stopped ==> r@ == "System stopped"@,
            self is PcsModeSet ==> r@ == "PCS mode set"@,
            self is PvModeSet ==> r@ == "PV mode set"@,
            self is GensetStarted ==> r@ == "Genset started"@,
            self is GensetStopped ==> r@ == "Genset stopped"@,
            self is ChargerPowerSet ==> r@ == "Charger power set"@,
            self is ThresholdSet ==> r@ == "SOC threshold set"@,
            self is DeviceMissing ==> r@ == "Device not configured"@,
            self is DeviceFailed ==> r@ == "Device command failed"@,
    {
        match self {
            CommandReply::Started => String::from_str("System started"),
            CommandReply::AlreadyRunning => String::from_str("EMS is already running"),
            CommandReply::Stopped => String::from_str("System stopped"),
            CommandReply::PcsModeSet(_) => String::from_str("PCS mode set"),
            CommandReply::PvModeSet(_) => String::from_str("PV mode set"),
            CommandReply::GensetStarted => String::from_str("Genset started"),
            CommandReply::GensetStopped => String::from_str("Genset stopped"),
            CommandReply::ChargerPowerSet(_) => String::from_str("Charger power set"),
            CommandReply::ThresholdSet(_) => String::from_str("SOC threshold set"),
            CommandReply::DeviceMissing => String::from_str("Device not configured"),
            CommandReply::DeviceFailed => String::from_str("Device command failed"),
        }
    }
}

impl EmsController {
    /// Dispatches one operator command through the controller, so that
    /// the operator path and the control loop share one view of the
    /// devices. Mode and threshold changes land exactly as commanded;
    /// device commands go to the registered device and report a missing
    /// one. The charger caches and the snapshot are never written.
    pub fn apply_command(&mut self, cmd: &OperatorCommand) -> (r: CommandReply)
        ensures
            final(self).charger_devices == old(self).charger_devices,
            final(self).cached_status == old(self).cached_status,
            cmd is StartSystem && !old(self).running ==> r == CommandReply::Started && final(
                self
            ).running && final(self).current_mode == EmsMode::Normal,
            cmd is StartSystem && old(self).running ==> r == CommandReply::AlreadyRunning
                && *final(self) == *old(self),
            cmd is StopSystem ==> r == CommandReply::Stopped && !final(self).running && final(
                self
            ).current_mode == EmsMode::Fault,
            cmd matches OperatorCommand::SetThreshold(t) ==> r == CommandReply::ThresholdSet(
                if *t <= 100 {
                    *t
                } else {
                    100u8
                },
            ) && final(self).config.battery_soc_threshold == (if *t <= 100 {
                *t
            } else {
                100u8
            }) && final(self).config.valid() && final(self).config.max_charger_power == old(
                self,
            ).config.max_charger_power,
            !(cmd is SetThreshold) ==> final(self).config == old(self).config,
            !(cmd is StartSystem) && !(cmd is StopSystem) ==> final(self).running == old(
                self,
            ).running && final(self).current_mode == old(self).current_mode,
            cmd matches OperatorCommand::SetPcsMode(_) && old(self).pcs_device is None ==> r
                == CommandReply::DeviceMissing,
            cmd matches OperatorCommand::SetPcsMode(m) ==> (old(self).pcs_device is Some ==> (r
                == CommandReply::PcsModeSet(*m) || r == CommandReply::DeviceFailed)),
            cmd matches OperatorCommand::SetPvMode(m) ==> (old(self).pv_devices@.len() > 0 ==> (r
                == CommandReply::PvModeSet(*m) || r == CommandReply::DeviceFailed)),
            cmd is StartGenset && old(self).genset_device is None ==> r
                == CommandReply::DeviceMissing,
            cmd is StartGenset && old(self).genset_device is Some ==> (r
                == CommandReply::GensetStarted || r == CommandReply::DeviceFailed),
            cmd is StopGenset && old(self).genset_device is None ==> r
                == CommandReply::DeviceMissing,
            cmd is StopGenset && old(self).genset_device is Some ==> (r
                == CommandReply::GensetStopped || r == CommandReply::DeviceFailed),
            cmd matches OperatorCommand::SetChargerPower(p) ==> (old(
                self,
            ).charger_devices@.len() > 0 ==> (r == CommandReply::ChargerPowerSet(*p) || r
                == CommandReply::DeviceFailed)),
    {
        match cmd {
            OperatorCommand::StartSystem => {
                match self.start() {
                    Ok(()) => CommandReply::Started,
                    Err(_) => CommandReply::AlreadyRunning,
                }
            }
            OperatorCommand::StopSystem => {
                self.stop();
                CommandReply::Stopped
            }
            OperatorCommand::SetPcsMode(m) => {
                match &mut self.pcs_device {
                    Some(pcs) => match pcs.set_mode(*m) {
                        Ok(()) => CommandReply::PcsModeSet(*m),
                        Err(_) => CommandReply::DeviceFailed,
                    },
                    None => CommandReply::DeviceMissing,
                }
            }
            OperatorCommand::SetPvMode(m) => {
                if self.pv_devices.len() == 0 {
                    return CommandReply::DeviceMissing;
                }
                let mut i: usize = 0;
                let mut failed = false;
                while i < self.pv_devices.len()
                    invariant
                        i <= self.pv_devices.len(),
                        self.charger_devices == old(self).charger_devices,
                        self.cached_status == old(self).cached_status,
                        self.config == old(self).config,
                        self.running == old(self).running,
                        self.current_mode == old(self).current_mode,
                        self.battery_device == old(self).battery_device,
                        self.genset_device == old(self).genset_device,
                        self.pcs_device == old(self).pcs_device,
                    decreases self.pv_devices.len() - i,
                {
                    match self.pv_devices[i].set_mode(*m) {
                        Ok(()) => {}
                        Err(_) => {
                            failed = true;
                        }
                    }
                    i += 1;
                }
                if failed {
                    CommandReply::DeviceFailed
                } else {
                    CommandReply::PvModeSet(*m)
                }
            }
            OperatorCommand::StartGenset => {
                match &mut self.genset_device {
                    Some(genset) => match genset.start_engine() {
                        Ok(()) => CommandReply::GensetStarted,
                        Err(_) => CommandReply::DeviceFailed,
                    },
                    None => CommandReply::DeviceMissing,
                }
            }
            OperatorCommand::StopGenset => {
                match &mut self.genset_device {
                    Some(genset) => match genset.stop_engine() {
                        Ok(()) => CommandReply::GensetStopped,
                        Err(_) => CommandReply::DeviceFailed,
                    },
                    None => CommandReply::DeviceMissing,
                }
            }
            OperatorCommand::SetChargerPower(p) => {
                if self.charger_devices.len() == 0 {
                    return CommandReply::DeviceMissing;
                }
                let mut i: usize = 0;
                let mut failed = false;
                while i < self.charger_devices.len()
                    invariant
                        i <= self.charger_devices.len(),
                    decreases self.charger_devices.len() - i,
                {
                    match self.charger_devices[i].set_power_setpoint(*p) {
                        Ok(()) => {}
                        Err(_) => {
                            failed = true;
                        }
                    }
                    i += 1;
                }
                if failed {
                    CommandReply::DeviceFailed
                } else {
                    CommandReply::ChargerPowerSet(*p)
                }
            }
            OperatorCommand::SetThreshold(t) => {
                let clamped: u8 = if *t <= 100 {
                    *t
                } else {
                    100
                };
                self.config.battery_soc_threshold = clamped;
                CommandReply::ThresholdSet(clamped)
            }
        }
    }
}

} // verus!
