//! Status records for every device and for the system snapshot.
//!
//! All physical quantities are carried as the scaled integers the wire
//! protocols use: deci- (x10) or centi- (x100) units, named in each field's
//! doc comment. This keeps every value exact from the fieldbus registers
//! through the balancing arithmetic.

use vstd::prelude::*;

use crate::ems_core::EmsMode;

verus! {

/// System-wide snapshot the controller publishes once per cycle. Power
/// quantities are in 0.1 kW units.
#[derive(Debug, Clone, PartialEq, Eq)]
pub struct EmsStatus {
    /// Total generation (PV plus generator).
    pub total_generation: i64,
    /// Total consumption (charging stations).
    pub total_consumption: i64,
    /// Net balance: generation minus consumption.
    pub power_balance: i64,
    /// Grid exchange; positive imports. Grid metering is not wired up, so
    /// every snapshot carries zero.
    pub grid_power: i64,
    /// Battery flow; positive discharges.
    pub battery_power: i64,
    /// Generator output.
    pub generator_power: i64,
    /// PV generation.
    pub pv_power: i64,
    /// Charging station consumption.
    pub charger_power: i64,
    /// Number of actively charging stations.
    pub active_chargers: usize,
    /// The controller's mode when the snapshot was taken.
    pub system_mode: EmsMode,
    /// Whether the cycle recorded no fault.
    pub system_healthy: bool,
    /// Fault entries the cycle recorded.
    pub faults: Vec<String>,
}

/// The mathematical image of a snapshot: the same fields, with the fault
/// entries as character sequences.
pub ghost struct EmsStatusView {
    pub total_generation: i64,
    pub total_consumption: i64,
    pub power_balance: i64,
    pub grid_power: i64,
    pub battery_power: i64,
    pub generator_power: i64,
    pub pv_power: i64,
    pub charger_power: i64,
    pub active_chargers: usize,
    pub system_mode: EmsMode,
    pub system_healthy: bool,
    pub faults: Seq<Seq<char>>,
}

impl View for EmsStatus {
    type V = EmsStatusView;

    open spec fn view(&self) -> EmsStatusView {
        EmsStatusView {
            total_generation: self.total_generation,
            total_consumption: self.total_consumption,
            power_balance: self.power_balance,
            grid_power: self.grid_power,
            battery_power: self.battery_power,
            generator_power: self.generator_power,
            pv_power: self.pv_power,
            charger_power: self.charger_power,
            active_chargers: self.active_chargers,
            system_mode: self.system_mode,
            system_healthy: self.system_healthy,
            faults: self.faults.deep_view(),
        }
    }
}

impl EmsStatus {
    /// The image of the snapshot a fresh controller holds: everything at
    /// zero, normal mode, healthy, no faults.
    pub open spec fn spec_initial_view() -> EmsStatusView {
        EmsStatusView {
            total_generation: 0i64,
            total_consumption: 0i64,
            power_balance: 0i64,
            grid_power: 0i64,
            battery_power: 0i64,
            generator_power: 0i64,
            pv_power: 0i64,
            charger_power: 0i64,
            active_chargers: 0usize,
            system_mode: EmsMode::Normal,
            system_healthy: true,
            faults: Seq::empty(),
        }
    }

    /// The snapshot a fresh controller holds.
    pub fn initial() -> (r: EmsStatus)
        ensures
            r@ == EmsStatus::spec_initial_view(),
    {
        let r = EmsStatus {
            total_generation: 0,
            total_consumption: 0,
            power_balance: 0,
            grid_power: 0,
            battery_power: 0,
            generator_power: 0,
            pv_power: 0,
            charger_power: 0,
            active_chargers: 0,
            system_mode: EmsMode::Normal,
            system_healthy: true,
            faults: Vec::new(),
        };
        proof {
            assert(r@.faults =~= EmsStatus::spec_initial_view().faults);
        }
        r
    }
}

/// PV DC-DC converter status.
#[derive(Debug, Clone, Copy, PartialEq, Eq, Structural)]
pub struct PvStatus {
    /// DC output voltage in 0.1 V units.
    pub voltage: u16,
    /// DC output current in 0.1 A units.
    pub current: u16,
    /// DC output power in 0.1 W units.
    pub power: u16,
    /// Operating temperature in 0.1 degC units (register value offset by 500).
    pub temperature: i32,
    /// Efficiency in 0.01 percent units.
    pub efficiency: u16,
    /// Fault flag.
    pub fault: bool,
}

/// Battery pack status.
#[derive(Debug, Clone, Copy, PartialEq, Eq, Structural)]
pub struct BatteryStatus {
    /// State of charge in whole percent (0-100).
    pub soc: u8,
    /// Pack voltage in 0.01 V units.
    pub voltage: u16,
    /// Pack current in 0.01 A units, signed.
    pub current: i16,
    /// Pack temperature in whole degC, signed (rides the wire with a
    /// +50 degC offset).
    pub temperature: i16,
    /// State-of-power limit for charging, whole percent (0-100).
    pub sop_charge: u8,
    /// State-of-power limit for discharging, whole percent (0-100).
    pub sop_discharge: u8,
}

/// Battery cell-level status.
#[derive(Debug, Clone, Copy, PartialEq, Eq, Structural)]
pub struct BatteryCellStatus {
    /// Number of cells; the single-frame layout carries up to 255.
    pub cell_count: u16,
    /// Maximum cell voltage in 0.1 mV units.
    pub max_cell_voltage: u16,
    /// Minimum cell voltage in 0.1 mV units.
    pub min_cell_voltage: u16,
    /// Maximum cell temperature in whole degC (wire value offset by +50 degC).
    pub max_cell_temperature: i16,
    /// Minimum cell temperature in whole degC (wire value offset by +50 degC).
    pub min_cell_temperature: i16,
    /// Accumulated working time in seconds; not carried by the
    /// single-frame layout, so it reads back zero.
    pub working_time: u32,
    /// Charge cycles; not carried by the single-frame layout, so it
    /// reads back zero.
    pub cycle_count: u16,
    /// Pack health in whole percent (0-100).
    pub health_percentage: u8,
}

/// Generator set status.
#[derive(Debug, Clone, Copy, PartialEq, Eq, Structural)]
pub struct GensetStatus {
    pub running: bool,
    /// Output power in 0.1 kW units.
    pub power_output: u16,
    /// Fuel level in 0.01 percent units.
    pub fuel_level: u16,
    /// Output voltage in 0.1 V units.
    pub voltage: u16,
    /// Output current in 0.1 A units.
    pub current: u16,
    /// Frequency in 0.1 Hz units.
    pub frequency: u16,
    /// Total engine hours.
    pub engine_hours: u32,
    /// Engine temperature in 0.1 degC units.
    pub temperature: u16,
}

/// Charging station status.
#[derive(Debug, Clone, PartialEq, Eq)]
pub struct ChargerStatus {
    pub charging: bool,
    /// Charging power in whole kW (0-100).
    pub power: u8,
    /// Output voltage in whole V (0-1000).
    pub voltage: u16,
    /// Output current in whole A (0-200).
    pub current: u8,
    /// Operating temperature in whole degC, signed (rides the wire with
    /// a +50 degC offset).
    pub temperature: i16,
    /// Efficiency in whole percent (0-100).
    pub efficiency: u8,
    pub fault: bool,
    /// Active fault codes; the frame carries the first two, one byte
    /// each (codes up to 255 ride losslessly).
    pub fault_codes: Vec<u16>,
}

/// Vehicle battery pack information read through a charging station.
#[derive(Debug, Clone, PartialEq, Eq)]
pub struct CarBattery {
    pub id: String,
    /// State of charge in whole percent (0-100).
    pub soc: u8,
    /// Pack voltage in 0.1 V units.
    pub voltage: u16,
    /// Pack current in 0.1 A units, signed (wire value offset by +1000 A).
    pub current: i32,
    /// Maximum cell voltage in 0.01 V units; not carried by the
    /// single-frame layout, so it reads back zero.
    pub max_cell_voltage: u16,
    /// Minimum cell voltage in 0.01 V units; not carried by the
    /// single-frame layout, so it reads back zero.
    pub min_cell_voltage: u16,
    /// Cell temperature in whole degC (wire value offset by +50 degC).
    pub cell_temperature: i32,
    /// Protection board temperature in whole degC; not carried by the
    /// single-frame layout, so it reads back zero.
    pub board_temperature: i32,
    /// Maximum charge power in whole kW (0-100).
    pub max_charge_power: u8,
    /// Maximum discharge power in 0.1 kW units; not carried on the wire.
    pub max_discharge_power: u16,
    /// Health in whole percent (0-100).
    pub health: u8,
    pub fault: bool,
    pub fault_codes: Vec<u16>,
}

/// The mathematical image of a charger status: the same fields, with the
/// fault codes as a sequence.
pub ghost struct ChargerStatusView {
    pub charging: bool,
    pub power: u8,
    pub voltage: u16,
    pub current: u8,
    pub temperature: i16,
    pub efficiency: u8,
    pub fault: bool,
    pub fault_codes: Seq<u16>,
}

impl View for ChargerStatus {
    type V = ChargerStatusView;

    open spec fn view(&self) -> ChargerStatusView {
        ChargerStatusView {
            charging: self.charging,
            power: self.power,
            voltage: self.voltage,
            current: self.current,
            temperature: self.temperature,
            efficiency: self.efficiency,
            fault: self.fault,
            fault_codes: self.fault_codes@,
        }
    }
}

/// The mathematical image of a vehicle battery record: the same fields,
/// with the identifier as a character sequence and the fault codes as a
/// sequence.
pub ghost struct CarBatteryView {
    pub id: Seq<char>,
    pub soc: u8,
    pub voltage: u16,
    pub current: i32,
    pub max_cell_voltage: u16,
    pub min_cell_voltage: u16,
    pub cell_temperature: i32,
    pub board_temperature: i32,
    pub max_charge_power: u8,
    pub max_discharge_power: u16,
    pub health: u8,
    pub fault: bool,
    pub fault_codes: Seq<u16>,
}

impl View for CarBattery {
    type V = CarBatteryView;

    open spec fn view(&self) -> CarBatteryView {
        CarBatteryView {
            id: self.id@,
            soc: self.soc,
            voltage: self.voltage,
            current: self.current,
            max_cell_voltage: self.max_cell_voltage,
            min_cell_voltage: self.min_cell_voltage,
            cell_temperature: self.cell_temperature,
            board_temperature: self.board_temperature,
            max_charge_power: self.max_charge_power,
            max_discharge_power: self.max_discharge_power,
            health: self.health,
            fault: self.fault,
            fault_codes: self.fault_codes@,
        }
    }
}

/// Power conversion system operating modes.
#[derive(Debug, Clone, Copy, PartialEq, Eq, Structural)]
pub enum PcsMode {
    Standby,
    Charging,
    Discharging,
    GridTie,
    OffGrid,
    Fault,
}

/// Power conversion system status.
#[derive(Debug, Clone, Copy, PartialEq, Eq, Structural)]
pub struct PcsStatus {
    pub mode: PcsMode,
    /// Active power in 0.1 kW units; positive means discharging/exporting.
    pub power: i32,
}

impl PvStatus {
    /// The PV status with every reading at zero.
    pub open spec fn spec_zeroed() -> PvStatus {
        PvStatus {
            voltage: 0u16,
            current: 0u16,
            power: 0u16,
            temperature: 0i32,
            efficiency: 0u16,
            fault: false,
        }
    }

    /// A PV status with every reading at zero, as a fresh cache holds.
    pub fn zeroed() -> (r: PvStatus)
        ensures
            r == PvStatus::spec_zeroed(),
    {
        PvStatus { voltage: 0, current: 0, power: 0, temperature: 0, efficiency: 0, fault: false }
    }
}

impl BatteryStatus {
    /// The battery status with every reading at zero.
    pub open spec fn spec_zeroed() -> BatteryStatus {
        BatteryStatus {
            soc: 0u8,
            voltage: 0u16,
            current: 0i16,
            temperature: 0i16,
            sop_charge: 0u8,
            sop_discharge: 0u8,
        }
    }

    /// A battery status with every reading at zero, as a fresh cache holds.
    pub fn zeroed() -> (r: BatteryStatus)
        ensures
            r == BatteryStatus::spec_zeroed(),
    {
        BatteryStatus { soc: 0, voltage: 0, current: 0, temperature: 0, sop_charge: 0, sop_discharge: 0 }
    }
}

impl GensetStatus {
    /// The generator status with the engine stopped and every reading at zero.
    pub open spec fn spec_zeroed() -> GensetStatus {
        GensetStatus {
            running: false,
            power_output: 0u16,
            fuel_level: 0u16,
            voltage: 0u16,
            current: 0u16,
            frequency: 0u16,
            engine_hours: 0u32,
            temperature: 0u16,
        }
    }

    /// A generator status with the engine stopped and every reading at zero.
    pub fn zeroed() -> (r: GensetStatus)
        ensures
            r == GensetStatus::spec_zeroed(),
    {
        GensetStatus {
            running: false,
            power_output: 0,
            fuel_level: 0,
            voltage: 0,
            current: 0,
            frequency: 0,
            engine_hours: 0,
            temperature: 0,
        }
    }
}

impl ChargerStatus {
    /// The image of a charger status with charging off and every reading
    /// at zero.
    pub open spec fn spec_zeroed_view() -> ChargerStatusView {
        ChargerStatusView {
            charging: false,
            power: 0u8,
            voltage: 0u16,
            current: 0u8,
            temperature: 0i16,
            efficiency: 0u8,
            fault: false,
            fault_codes: Seq::empty(),
        }
    }

    /// A charger status with charging off and every reading at zero.
    pub fn zeroed() -> (r: ChargerStatus)
        ensures
            r@ == ChargerStatus::spec_zeroed_view(),
    {
        ChargerStatus {
            charging: false,
            power: 0,
            voltage: 0,
            current: 0,
            temperature: 0,
            efficiency: 0,
            fault: false,
            fault_codes: Vec::new(),
        }
    }
}

impl PcsStatus {
    /// The PCS status in standby with zero active power.
    pub open spec fn spec_zeroed() -> PcsStatus {
        PcsStatus { mode: PcsMode::Standby, power: 0i32 }
    }

    /// A PCS status in standby with zero active power.
    pub fn zeroed() -> (r: PcsStatus)
        ensures
            r == PcsStatus::spec_zeroed(),
    {
        PcsStatus { mode: PcsMode::Standby, power: 0 }
    }
}

} // verus!
