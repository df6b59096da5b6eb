//! Controller behavior: the balancing arbitration on the specified
//! scenarios, the registry, the lifecycle, and the published snapshot's
//! invariants.

use ems_control::devices::charger::ChargerDevice;
use ems_control::ems_core::{
    plan_balance, CycleInputs, EmsConfig, EmsController, EmsMode, PcsCommand,
};
use ems_control::types::ChargerStatus;

fn inputs(
    pv: i64,
    gen: i64,
    soc: u8,
    battery_present: bool,
    demand: i64,
    active: usize,
) -> CycleInputs {
    CycleInputs {
        pv_power: pv,
        generator_power: gen,
        battery_soc: soc,
        battery_power: 0,
        battery_present,
        demand,
        demand_overflow: false,
        active_chargers: active,
    }
}

fn default_config() -> EmsConfig {
    EmsConfig {
        battery_soc_threshold: 20,
        max_charger_power: 220,
        num_charging_stations: 15,
        control_interval: 5,
    }
}

#[test]
fn plan_pure_surplus_charges_battery() {
    // PV 30 kW, demand 10 kW, charge 50 %: charge the battery at 20 kW.
    let plan = plan_balance(
        &default_config(),
        &EmsMode::Normal,
        &inputs(300, 0, 50, true, 100, 1),
    );
    assert_eq!(plan.pcs_command, PcsCommand::Charge(200));
    assert!(!plan.start_generator);
    assert_eq!(plan.charger_limit, None);
}

#[test]
fn plan_surplus_charge_is_capped_at_fifty_kilowatts() {
    let plan = plan_balance(
        &default_config(),
        &EmsMode::Normal,
        &inputs(1000, 0, 50, true, 100, 1),
    );
    assert_eq!(plan.pcs_command, PcsCommand::Charge(500));
}

#[test]
fn plan_surplus_skips_full_battery() {
    let plan = plan_balance(
        &default_config(),
        &EmsMode::Normal,
        &inputs(300, 0, 90, true, 100, 1),
    );
    assert_eq!(plan.pcs_command, PcsCommand::Idle);
}

#[test]
fn plan_surplus_skips_absent_battery() {
    let plan = plan_balance(
        &default_config(),
        &EmsMode::Normal,
        &inputs(300, 0, 100, false, 100, 1),
    );
    assert_eq!(plan.pcs_command, PcsCommand::Idle);
}

#[test]
fn plan_exact_balance_issues_no_command() {
    let plan = plan_balance(
        &default_config(),
        &EmsMode::Normal,
        &inputs(100, 0, 50, true, 100, 1),
    );
    assert_eq!(plan.pcs_command, PcsCommand::Idle);
    assert!(!plan.start_generator);
    assert_eq!(plan.charger_limit, None);
}

#[test]
fn plan_off_normal_mode_suppresses_charging_path() {
    let plan = plan_balance(
        &default_config(),
        &EmsMode::PeakShaving,
        &inputs(300, 0, 50, true, 100, 1),
    );
    assert_eq!(plan.pcs_command, PcsCommand::Idle);
}

#[test]
fn plan_battery_covers_deficit() {
    // PV 5 kW, demand 25 kW, charge 80 %: discharge 20 kW, no generator,
    // no curtailment.
    let plan = plan_balance(
        &default_config(),
        &EmsMode::Normal,
        &inputs(50, 0, 80, true, 250, 1),
    );
    assert_eq!(plan.pcs_command, PcsCommand::Discharge(200));
    assert!(!plan.start_generator);
    assert_eq!(plan.charger_limit, None);
}

#[test]
fn plan_discharge_needs_headroom_over_threshold() {
    // At threshold plus five the battery stays out of the deficit path.
    let plan = plan_balance(
        &default_config(),
        &EmsMode::Normal,
        &inputs(50, 0, 25, true, 250, 1),
    );
    assert_eq!(plan.pcs_command, PcsCommand::Idle);
    let plan = plan_balance(
        &default_config(),
        &EmsMode::Normal,
        &inputs(50, 0, 26, true, 250, 1),
    );
    assert_eq!(plan.pcs_command, PcsCommand::Discharge(200));
}

#[test]
fn plan_deep_deficit_starts_generator_and_curtails() {
    // PV 2 kW, demand 30 kW, charge 15 %: no discharge, generator start,
    // and the two active chargers split the affordable 2 kW.
    let plan = plan_balance(
        &default_config(),
        &EmsMode::Normal,
        &inputs(20, 0, 15, true, 300, 2),
    );
    assert_eq!(plan.pcs_command, PcsCommand::Idle);
    assert!(plan.start_generator);
    assert_eq!(plan.charger_limit, Some(10));
}

#[test]
fn plan_curtailment_caps_at_max_charger_power() {
    // Huge supply shortfall but a large affordable total per charger:
    // the per-charger cap applies.
    let plan = plan_balance(
        &default_config(),
        &EmsMode::Normal,
        &inputs(4000, 0, 10, true, 5000, 2),
    );
    assert!(plan.start_generator);
    assert_eq!(plan.charger_limit, Some(220));
}

#[test]
fn plan_no_curtailment_without_active_chargers() {
    let plan = plan_balance(
        &default_config(),
        &EmsMode::Normal,
        &inputs(0, 0, 10, true, 300, 0),
    );
    assert!(plan.start_generator);
    assert_eq!(plan.charger_limit, None);
}

fn offline_charger(id: &str, charging: bool, power_kw: u8) -> ChargerDevice {
    ChargerDevice {
        id: String::from(id),
        can_driver: None,
        cache: ChargerStatus {
            charging,
            power: power_kw,
            voltage: 0,
            current: 0,
            temperature: 0,
            efficiency: 0,
            fault: false,
            fault_codes: Vec::new(),
        },
    }
}

#[test]
fn controller_defaults() {
    let c = EmsController::new().unwrap();
    assert!(!c.is_running());
    assert_eq!(*c.get_mode(), EmsMode::Normal);
    let s = c.get_status();
    assert_eq!(s.power_balance, 0);
    assert_eq!(s.active_chargers, 0);
    assert!(s.system_healthy);
    assert!(s.faults.is_empty());
}

#[test]
fn controller_start_and_stop_drive_the_mode() {
    let mut c = EmsController::new().unwrap();
    assert!(c.start().is_ok());
    assert!(c.is_running());
    assert_eq!(*c.get_mode(), EmsMode::Normal);
    assert!(c.start().is_err());
    c.stop();
    assert!(!c.is_running());
    assert_eq!(*c.get_mode(), EmsMode::Fault);
    assert!(c.start().is_ok());
    assert_eq!(*c.get_mode(), EmsMode::Normal);
}

#[test]
fn controller_rejects_duplicate_charger_ids() {
    let mut c = EmsController::new().unwrap();
    assert!(c.add_charger_device(offline_charger("chg-1", false, 0)).is_ok());
    assert!(c.add_charger_device(offline_charger("chg-2", false, 0)).is_ok());
    assert!(c.add_charger_device(offline_charger("chg-1", false, 0)).is_err());
}

#[test]
fn controller_removes_chargers_by_id() {
    let mut c = EmsController::new().unwrap();
    c.add_charger_device(offline_charger("chg-1", false, 0)).unwrap();
    assert!(c.remove_charger_device("chg-2").is_err());
    assert!(c.remove_charger_device("chg-1").is_ok());
    assert!(c.remove_charger_device("chg-1").is_err());
    // The identifier is free again.
    assert!(c.add_charger_device(offline_charger("chg-1", false, 0)).is_ok());
}

#[test]
fn cycle_on_stopped_controller_is_a_no_op() {
    let mut c = EmsController::new().unwrap();
    let before = c.get_status();
    assert!(c.run_control_cycle().is_ok());
    assert_eq!(c.get_status(), before);
}

#[test]
fn cycle_with_no_devices_publishes_consistent_snapshot() {
    let mut c = EmsController::new().unwrap();
    c.start().unwrap();
    assert!(c.run_control_cycle().is_ok());
    let s = c.get_status();
    assert_eq!(s.power_balance, s.total_generation - s.total_consumption);
    assert_eq!(s.total_generation, 0);
    assert_eq!(s.total_consumption, 0);
    assert_eq!(s.active_chargers, 0);
    assert_eq!(s.system_mode, EmsMode::Normal);
    assert!(s.system_healthy);
}

#[test]
fn cycle_counts_active_chargers_from_caches() {
    let mut c = EmsController::new().unwrap();
    c.add_charger_device(offline_charger("chg-1", true, 5)).unwrap();
    c.add_charger_device(offline_charger("chg-2", false, 7)).unwrap();
    c.add_charger_device(offline_charger("chg-3", true, 3)).unwrap();
    c.start().unwrap();
    let _ = c.run_control_cycle();
    let s = c.get_status();
    assert_eq!(s.active_chargers, 2);
    // Demand is the cached power of the two charging stations, 5 kW
    // and 3 kW, in 0.1 kW units.
    assert_eq!(s.total_consumption, 80);
    assert_eq!(s.power_balance, s.total_generation - s.total_consumption);
}

#[test]
fn active_chargers_stable_across_cycles_without_cache_writes() {
    let mut c = EmsController::new().unwrap();
    c.add_charger_device(offline_charger("chg-1", true, 5)).unwrap();
    c.add_charger_device(offline_charger("chg-2", true, 6)).unwrap();
    c.start().unwrap();
    let _ = c.run_control_cycle();
    let first = c.get_status().active_chargers;
    let _ = c.run_control_cycle();
    let second = c.get_status().active_chargers;
    assert_eq!(first, 2);
    assert_eq!(first, second);
}

#[test]
fn cycle_records_fault_when_charger_setpoint_fails() {
    // One disconnected charger drawing 5 kW with nothing generating: the
    // curtailment write fails, the cycle reports it, and the snapshot
    // carries the fault.
    let mut c = EmsController::new().unwrap();
    c.add_charger_device(offline_charger("chg-1", true, 5)).unwrap();
    c.start().unwrap();
    assert!(c.run_control_cycle().is_err());
    let s = c.get_status();
    assert!(!s.system_healthy);
    assert!(s.faults.iter().any(|f| f == "charger setpoint failed"));
    assert_eq!(s.power_balance, s.total_generation - s.total_consumption);
}

#[test]
fn power_balance_holds_in_every_emitted_snapshot() {
    let mut c = EmsController::new().unwrap();
    c.add_charger_device(offline_charger("chg-1", true, 12)).unwrap();
    c.add_charger_device(offline_charger("chg-2", true, 9)).unwrap();
    c.start().unwrap();
    for _ in 0..3 {
        let _ = c.run_control_cycle();
        let s = c.get_status();
        assert_eq!(s.power_balance, s.total_generation - s.total_consumption);
        assert_eq!(s.total_consumption, s.charger_power);
    }
}

#[test]
fn missing_pcs_is_reported_once_per_dispatch() {
    // A deficit plan that wants the battery discharged, on a controller
    // without a power conversion system: the command is skipped and the
    // fault recorded exactly once.
    let mut c = EmsController::new().unwrap();
    let plan = plan_balance(
        &default_config(),
        &EmsMode::Normal,
        &inputs(50, 0, 80, true, 250, 1),
    );
    assert_eq!(plan.pcs_command, PcsCommand::Discharge(200));
    let mut faults: Vec<String> = Vec::new();
    let ok = c.balance_power(&plan, &mut faults);
    assert!(ok);
    let skipped: Vec<&String> = faults
        .iter()
        .filter(|f| f.as_str() == "PCS absent - battery command skipped")
        .collect();
    assert_eq!(skipped.len(), 1);
}

#[test]
fn mode_labels_render_for_snapshots() {
    assert_eq!(EmsMode::Normal.label(), "Normal");
    assert_eq!(EmsMode::PeakShaving.label(), "PeakShaving");
    assert_eq!(EmsMode::Emergency.label(), "Emergency");
    assert_eq!(EmsMode::Fault.label(), "Fault");
}
