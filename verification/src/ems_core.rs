//! EMS controller: device registry, the per-tick balancing algorithm, and
//! the published system snapshot.
//!
//! The balancing decision is a pure function, `plan_balance`, from the
//! cycle's inputs to the commands of the tick; `run_control_cycle` reads
//! the devices, plans, dispatches, and publishes a snapshot whose power
//! balance always equals generation minus consumption.

use vstd::prelude::*;

use crate::devices::bms::BatteryDevice;
use crate::devices::charger::ChargerDevice;
use crate::devices::genset::GensetDevice;
use crate::devices::pcs::PcsDevice;
use crate::devices::pv_dcdc::PvDevice;
use crate::types::{BatteryStatus, EmsStatus, GensetStatus, PcsMode};

verus! {

/// The largest power the balancer represents, in 0.1 kW units; sums beyond
/// it are clamped and reported as a fault.
pub const MAX_POWER_DECI_KW: i64 = 0x2000000000000000;

/// Operational modes of the controller.
#[derive(Debug, Clone, Copy, PartialEq, Eq, Structural)]
pub enum EmsMode {
    Normal,
    PeakShaving,
    Emergency,
    Fault,
}

/// The label each mode is rendered as in a snapshot.
pub open spec fn spec_ems_mode_label(m: EmsMode) -> Seq<char> {
    match m {
        EmsMode::Normal => "Normal"@,
        EmsMode::PeakShaving => "PeakShaving"@,
        EmsMode::Emergency => "Emergency"@,
        EmsMode::Fault => "Fault"@,
    }
}

impl EmsMode {
    /// The label this mode is rendered as in a snapshot.
    pub fn label(&self) -> (r: String)
        ensures
            r@ == spec_ems_mode_label(*self),
    {
        match self {
            EmsMode::Normal => String::from_str("Normal"),
            EmsMode::PeakShaving => String::from_str("PeakShaving"),
            EmsMode::Emergency => String::from_str("Emergency"),
            EmsMode::Fault => String::from_str("Fault"),
        }
    }
}

/// Configuration of the controller.
#[derive(Debug, Clone, Copy, PartialEq, Eq, Structural)]
pub struct EmsConfig {
    /// Battery state of charge under which the generator is started, in
    /// whole percent (0-100).
    pub battery_soc_threshold: u8,
    /// Cap on a single charging station's setpoint, in 0.1 kW units.
    pub max_charger_power: u16,
    /// Number of charging stations the site is laid out for.
    pub num_charging_stations: usize,
    /// Control loop interval in seconds.
    pub control_interval: u64,
}

impl EmsConfig {
    /// A configuration is valid when the threshold is a percentage.
    pub open spec fn valid(&self) -> bool {
        self.battery_soc_threshold <= 100
    }
}

impl Default for EmsConfig {
    /// The default configuration: generator below 20 % state of charge,
    /// 22 kW per charger, 15 stations, a 5 s control interval.
    fn default() -> (r: EmsConfig)
        ensures
            r == (EmsConfig {
                battery_soc_threshold: 20u8,
                max_charger_power: 220u16,
                num_charging_stations: 15usize,
                control_interval: 5u64,
            }),
            r.valid(),
    {
        EmsConfig {
            battery_soc_threshold: 20,
            max_charger_power: 220,
            num_charging_stations: 15,
            control_interval: 5,
        }
    }
}

/// What one balancing cycle read from the site.
#[derive(Debug, Clone, Copy, PartialEq, Eq, Structural)]
pub struct CycleInputs {
    /// Summed PV generation in 0.1 kW units, capped at `MAX_POWER_DECI_KW`.
    pub pv_power: i64,
    /// Generator output in 0.1 kW units; zero when the engine is off.
    pub generator_power: i64,
    /// Battery state of charge in percent; 100 when no battery is
    /// configured, so that the generator is never started for its sake.
    pub battery_soc: u8,
    /// Battery power flow in 0.1 kW units; positive discharges.
    pub battery_power: i64,
    /// Whether a battery is configured.
    pub battery_present: bool,
    /// Cached charging demand in 0.1 kW units, capped at
    /// `MAX_POWER_DECI_KW`.
    pub demand: i64,
    /// Whether the demand sum exceeded the cap and was clamped.
    pub demand_overflow: bool,
    /// How many chargers are actively charging.
    pub active_chargers: usize,
}

/// Whether cycle inputs lie in the ranges a read produces.
pub open spec fn spec_inputs_valid(i: CycleInputs) -> bool {
    &&& 0 <= i.pv_power <= MAX_POWER_DECI_KW
    &&& 0 <= i.generator_power <= 0xFFFF
    &&& 0 <= i.demand <= MAX_POWER_DECI_KW
}

/// The command a cycle gives the power conversion system, with the
/// magnitude in 0.1 kW units.
#[derive(Debug, Clone, Copy, PartialEq, Eq, Structural)]
pub enum PcsCommand {
    Idle,
    Charge(u16),
    Discharge(u16),
}

/// The commands of one balancing cycle.
#[derive(Debug, Clone, Copy, PartialEq, Eq, Structural)]
pub struct CyclePlan {
    pub pcs_command: PcsCommand,
    pub start_generator: bool,
    /// Per-charger setpoint in 0.1 kW units, for every actively charging
    /// station, when curtailment is needed.
    pub charger_limit: Option<u16>,
}

/// The arbitration of one tick. With a surplus, the battery is charged at
/// up to 50 kW while its charge is under 90 %, unless no battery is
/// configured, or the mode is not normal, which suppresses the
/// charging path. With a deficit, the battery covers up to 50 kW while
/// its charge is above threshold plus five; the generator is started when
/// the charge is at or under the threshold and a deficit remains; any
/// remaining deficit curtails the active chargers to an equal share of
/// the affordable total, capped per charger by the configuration.
pub open spec fn spec_plan_balance(config: EmsConfig, mode: EmsMode, inputs: CycleInputs) -> CyclePlan
    recommends
        spec_inputs_valid(inputs),
        config.valid(),
{
    let deficit = inputs.demand - (inputs.pv_power + inputs.generator_power);
    if deficit <= 0 {
        let surplus = -deficit;
        let charge = inputs.battery_present && inputs.battery_soc < 90 && surplus > 0 && mode
            == EmsMode::Normal;
        CyclePlan {
            pcs_command: if charge {
                PcsCommand::Charge(vstd::math::min(surplus, 500) as u16)
            } else {
                PcsCommand::Idle
            },
            start_generator: false,
            charger_limit: Option::None,
        }
    } else {
        let discharge = inputs.battery_present && inputs.battery_soc > config.battery_soc_threshold
            + 5;
        let battery_share = if discharge {
            vstd::math::min(deficit, 500)
        } else {
            0
        };
        let remaining = deficit - battery_share;
        CyclePlan {
            pcs_command: if discharge {
                PcsCommand::Discharge(battery_share as u16)
            } else {
                PcsCommand::Idle
            },
            start_generator: inputs.battery_soc <= config.battery_soc_threshold && remaining > 0,
            charger_limit: if remaining > 0 && inputs.active_chargers > 0 {
                Option::Some(
                    vstd::math::min(
                        (inputs.demand - remaining) / (inputs.active_chargers as int),
                        config.max_charger_power as int,
                    ) as u16,
                )
            } else {
                Option::None
            },
        }
    }
}

/// Computes the arbitration of one tick; the result is exactly
/// `spec_plan_balance` on the same arguments.
pub fn plan_balance(config: &EmsConfig, mode: &EmsMode, inputs: &CycleInputs) -> (r: CyclePlan)
    requires
        spec_inputs_valid(*inputs),
    ensures
        r == spec_plan_balance(*config, *mode, *inputs),
{
    let deficit: i64 = inputs.demand - (inputs.pv_power + inputs.generator_power);
    if deficit <= 0 {
        let surplus: i64 = -deficit;
        let charge = inputs.battery_present && inputs.battery_soc < 90 && surplus > 0
            && matches!(mode, EmsMode::Normal);
        CyclePlan {
            pcs_command: if charge {
                PcsCommand::Charge(if surplus > 500 { 500 } else { surplus as u16 })
            } else {
                PcsCommand::Idle
            },
            start_generator: false,
            charger_limit: None,
        }
    } else {
        let discharge = inputs.battery_present && (inputs.battery_soc as u16) > (
        config.battery_soc_threshold as u16) + 5;
        let battery_share: i64 = if discharge {
            if deficit > 500 {
                500
            } else {
                deficit
            }
        } else {
            0
        };
        let remaining: i64 = deficit - battery_share;
        CyclePlan {
            pcs_command: if discharge {
                PcsCommand::Discharge(battery_share as u16)
            } else {
                PcsCommand::Idle
            },
            start_generator: inputs.battery_soc <= config.battery_soc_threshold && remaining > 0,
            charger_limit: if remaining > 0 && inputs.active_chargers > 0 {
                let max_total: u64 = (inputs.demand - remaining) as u64;
                let per: u64 = max_total / (inputs.active_chargers as u64);
                Some(
                    if per > config.max_charger_power as u64 {
                        config.max_charger_power
                    } else {
                        per as u16
                    },
                )
            } else {
                None
            },
        }
    }
}

/// The count of actively charging stations among the given chargers.
pub open spec fn spec_active_chargers(chargers: Seq<ChargerDevice>) -> int
    decreases chargers.len(),
{
    if chargers.len() == 0 {
        0
    } else {
        spec_active_chargers(chargers.drop_last()) + if chargers.last().cache.charging {
            1int
        } else {
            0int
        }
    }
}

/// The summed cached power of the actively charging stations, in
/// 0.1 kW units (each cache carries whole kW, a factor of ten).
pub open spec fn spec_charger_demand(chargers: Seq<ChargerDevice>) -> int
    decreases chargers.len(),
{
    if chargers.len() == 0 {
        0
    } else {
        spec_charger_demand(chargers.drop_last()) + if chargers.last().cache.charging {
            10 * (chargers.last().cache.power as int)
        } else {
            0int
        }
    }
}

/// The summed cached PV generation, in 0.1 kW units (each cache carries
/// 0.1 W units, a factor of one thousand).
pub open spec fn spec_pv_sum(pvs: Seq<PvDevice>) -> int
    decreases pvs.len(),
{
    if pvs.len() == 0 {
        0
    } else {
        spec_pv_sum(pvs.drop_last()) + (pvs.last().cache.power as int) / 1000
    }
}

/// The active-charger count is nonnegative and at most the number of
/// chargers.
pub proof fn lemma_active_chargers_bounds(chargers: Seq<ChargerDevice>)
    ensures
        0 <= spec_active_chargers(chargers) <= chargers.len(),
    decreases chargers.len(),
{
    if chargers.len() > 0 {
        lemma_active_chargers_bounds(chargers.drop_last());
    }
}

/// The cached demand sum is nonnegative.
pub proof fn lemma_charger_demand_nonneg(chargers: Seq<ChargerDevice>)
    ensures
        0 <= spec_charger_demand(chargers),
    decreases chargers.len(),
{
    if chargers.len() > 0 {
        lemma_charger_demand_nonneg(chargers.drop_last());
    }
}

/// The PV sum is nonnegative.
pub proof fn lemma_pv_sum_nonneg(pvs: Seq<PvDevice>)
    ensures
        0 <= spec_pv_sum(pvs),
    decreases pvs.len(),
{
    if pvs.len() > 0 {
        lemma_pv_sum_nonneg(pvs.drop_last());
    }
}

/// Two charger lists whose caches agree on the charging flag have the
/// same active-charger count: a cycle that does not write the charger
/// caches cannot change the count the next snapshot reports.
pub proof fn lemma_active_chargers_stable(c1: Seq<ChargerDevice>, c2: Seq<ChargerDevice>)
    requires
        c1.len() == c2.len(),
        forall|i: int| 0 <= i < c1.len() ==> c1[i].cache.charging == c2[i].cache.charging,
    ensures
        spec_active_chargers(c1) == spec_active_chargers(c2),
    decreases c1.len(),
{
    if c1.len() > 0 {
        lemma_active_chargers_stable(c1.drop_last(), c2.drop_last());
    }
}

/// Whether some fault entry reads as the given message.
pub open spec fn spec_faults_contain(faults: Seq<String>, msg: Seq<char>) -> bool {
    exists|k: int| 0 <= k < faults.len() && faults[k]@ == msg
}

/// The fault entry recorded when a battery command is skipped for want of
/// a power conversion system.
pub open spec fn fault_pcs_absent() -> Seq<char> {
    "PCS absent - battery command skipped"@
}

/// The fault entry recorded when the demand sum exceeded the cap.
pub open spec fn fault_demand_clamped() -> Seq<char> {
    "charger demand clamped"@
}

/// The battery power flow in 0.1 kW units that a pack status stands for:
/// current times voltage, scaled from centi-unit products down by one
/// million, rounded toward zero.
pub open spec fn spec_battery_power_deci_kw(s: BatteryStatus) -> int {
    let p = s.current * s.voltage;
    if p >= 0 {
        p / 1000000
    } else {
        -((-p) / 1000000)
    }
}

/// Computes the battery power flow of a pack status, in 0.1 kW units.
pub fn battery_power_deci_kw(s: &BatteryStatus) -> (r: i64)
    ensures
        r == spec_battery_power_deci_kw(*s),
{
    proof {
        assert(-32768 * 65535 <= s.current * s.voltage <= 32767 * 65535) by (nonlinear_arith)
            requires
                -32768 <= s.current <= 32767,
                0 <= s.voltage <= 65535,
        ;
    }
    let prod: i64 = (s.current as i64) * (s.voltage as i64);
    if prod >= 0 {
        ((prod as u64) / 1000000u64) as i64
    } else {
        -((((-prod) as u64) / 1000000u64) as i64)
    }
}

/// Caps a nonnegative sum at the largest power the balancer represents.
fn cap_power(x: u64) -> (r: i64)
    ensures
        r == vstd::math::min(x as int, MAX_POWER_DECI_KW as int),
        0 <= r <= MAX_POWER_DECI_KW,
{
    if x > (MAX_POWER_DECI_KW as u64) {
        MAX_POWER_DECI_KW
    } else {
        x as i64
    }
}

/// Copies a fault list.
fn clone_faults(v: &Vec<String>) -> (r: Vec<String>)
    ensures
        r@ == v@,
{
    let mut r: Vec<String> = Vec::new();
    let mut i: usize = 0;
    while i < v.len()
        invariant
            i <= v.len(),
            r@ == v@.take(i as int),
        decreases v.len() - i,
    {
        r.push(v[i].clone());
        proof {
            assert(v@.take(i as int).push(v@[i as int]) =~= v@.take(i + 1));
        }
        i += 1;
    }
    proof {
        assert(v@.take(v@.len() as int) =~= v@);
    }
    r
}

/// Energy management system controller: the device registry, the
/// configuration, the operational mode, and the last published snapshot.
pub struct EmsController {
    pub pv_devices: Vec<PvDevice>,
    pub battery_device: Option<BatteryDevice>,
    pub genset_device: Option<GensetDevice>,
    pub pcs_device: Option<PcsDevice>,
    pub charger_devices: Vec<ChargerDevice>,
    pub config: EmsConfig,
    pub current_mode: EmsMode,
    pub cached_status: EmsStatus,
    pub running: bool,
}

impl EmsController {
    /// Whether an identifier is already taken by a registered charger.
    pub open spec fn spec_has_charger_id(chargers: Seq<ChargerDevice>, id: Seq<char>) -> bool {
        exists|i: int| 0 <= i < chargers.len() && chargers[i].id@ == id
    }

    /// Builds a controller with the default configuration and no devices.
    pub fn new() -> (r: Result<EmsController, String>)
        ensures
            r matches Ok(c) ==> c.config == (EmsConfig {
                battery_soc_threshold: 20u8,
                max_charger_power: 220u16,
                num_charging_stations: 15usize,
                control_interval: 5u64,
            }) && !c.running && c.current_mode == EmsMode::Normal && c.pv_devices@.len() == 0
                && c.battery_device is None && c.genset_device is None && c.pcs_device is None
                && c.charger_devices@.len() == 0,
            r is Ok,
    {
        EmsController::with_config(EmsConfig::default())
    }

    /// Builds a controller with the given configuration and no devices.
    pub fn with_config(config: EmsConfig) -> (r: Result<EmsController, String>)
        requires
            config.valid(),
        ensures
            r matches Ok(c) ==> c.config == config && !c.running && c.current_mode
                == EmsMode::Normal && c.pv_devices@.len() == 0 && c.battery_device is None
                && c.genset_device is None && c.pcs_device is None && c.charger_devices@.len()
                == 0,
            r is Ok,
    {
        Ok(
            EmsController {
                pv_devices: Vec::new(),
                battery_device: None,
                genset_device: None,
                pcs_device: None,
                charger_devices: Vec::new(),
                config,
                current_mode: EmsMode::Normal,
                cached_status: EmsStatus::initial(),
                running: false,
            },
        )
    }

    /// Registers a PV device.
    pub fn add_pv_device(&mut self, device: PvDevice) -> (r: Result<(), String>)
        ensures
            r is Ok,
            final(self).pv_devices@ == old(self).pv_devices@.push(device),
            final(self).battery_device == old(self).battery_device,
            final(self).genset_device == old(self).genset_device,
            final(self).pcs_device == old(self).pcs_device,
            final(self).charger_devices == old(self).charger_devices,
            final(self).config == old(self).config,
            final(self).current_mode == old(self).current_mode,
            final(self).cached_status == old(self).cached_status,
            final(self).running == old(self).running,
    {
        self.pv_devices.push(device);
        Ok(())
    }

    /// Registers the battery device.
    pub fn add_battery_device(&mut self, device: BatteryDevice)
        ensures
            final(self).battery_device == Some(device),
            final(self).pv_devices == old(self).pv_devices,
            final(self).genset_device == old(self).genset_device,
            final(self).pcs_device == old(self).pcs_device,
            final(self).charger_devices == old(self).charger_devices,
            final(self).config == old(self).config,
            final(self).current_mode == old(self).current_mode,
            final(self).cached_status == old(self).cached_status,
            final(self).running == old(self).running,
    {
        self.battery_device = Some(device);
    }

    /// Registers the generator device.
    pub fn add_genset_device(&mut self, device: GensetDevice)
        ensures
            final(self).genset_device == Some(device),
            final(self).pv_devices == old(self).pv_devices,
            final(self).battery_device == old(self).battery_device,
            final(self).pcs_device == old(self).pcs_device,
            final(self).charger_devices == old(self).charger_devices,
            final(self).config == old(self).config,
            final(self).current_mode == old(self).current_mode,
            final(self).cached_status == old(self).cached_status,
            final(self).running == old(self).running,
    {
        self.genset_device = Some(device);
    }

    /// Registers the power conversion system.
    pub fn add_pcs_device(&mut self, device: PcsDevice)
        ensures
            final(self).pcs_device == Some(device),
            final(self).pv_devices == old(self).pv_devices,
            final(self).battery_device == old(self).battery_device,
            final(self).genset_device == old(self).genset_device,
            final(self).charger_devices == old(self).charger_devices,
            final(self).config == old(self).config,
            final(self).current_mode == old(self).current_mode,
            final(self).cached_status == old(self).cached_status,
            final(self).running == old(self).running,
    {
        self.pcs_device = Some(device);
    }

    /// Registers a charging station; an identifier already registered is
    /// rejected and the registry left unchanged.
    pub fn add_charger_device(&mut self, device: ChargerDevice) -> (r: Result<(), String>)
        ensures
            r is Ok <==> !Self::spec_has_charger_id(old(self).charger_devices@, device.id@),
            r is Ok ==> final(self).charger_devices@ == old(self).charger_devices@.push(device),
            r is Err ==> *final(self) == *old(self),
            final(self).pv_devices == old(self).pv_devices,
            final(self).battery_device == old(self).battery_device,
            final(self).genset_device == old(self).genset_device,
            final(self).pcs_device == old(self).pcs_device,
            final(self).config == old(self).config,
            final(self).current_mode == old(self).current_mode,
            final(self).cached_status == old(self).cached_status,
            final(self).running == old(self).running,
    {
        let mut i: usize = 0;
        while i < self.charger_devices.len()
            invariant
                i <= self.charger_devices.len(),
                forall|j: int| 0 <= j < i ==> self.charger_devices@[j].id@ != device.id@,
            decreases self.charger_devices.len() - i,
        {
            if self.charger_devices[i].id.eq(&device.id) {
                return Err(String::from_str("charger id already registered"));
            }
            i += 1;
        }
        self.charger_devices.push(device);
        Ok(())
    }

    /// Removes the charging station with the given identifier; an unknown
    /// identifier is an error and the registry is left unchanged.
    pub fn remove_charger_device(&mut self, id: &str) -> (r: Result<(), String>)
        ensures
            r is Ok <==> Self::spec_has_charger_id(old(self).charger_devices@, id@),
            r is Ok ==> exists|i: int|
                0 <= i < old(self).charger_devices@.len() && old(self).charger_devices@[i].id@
                    == id@ && final(self).charger_devices@ == old(self).charger_devices@.remove(i),
            r is Err ==> *final(self) == *old(self),
            final(self).pv_devices == old(self).pv_devices,
            final(self).battery_device == old(self).battery_device,
            final(self).genset_device == old(self).genset_device,
            final(self).pcs_device == old(self).pcs_device,
            final(self).config == old(self).config,
            final(self).current_mode == old(self).current_mode,
            final(self).cached_status == old(self).cached_status,
            final(self).running == old(self).running,
    {
        let needle = String::from_str(id);
        let mut i: usize = 0;
        while i < self.charger_devices.len()
            invariant
                i <= self.charger_devices.len(),
                needle@ == id@,
                *self == *old(self),
                forall|j: int| 0 <= j < i ==> self.charger_devices@[j].id@ != id@,
            decreases self.charger_devices.len() - i,
        {
            if self.charger_devices[i].id.eq(&needle) {
                proof {
                    assert(old(self).charger_devices@[i as int].id@ == id@);
                }
                self.charger_devices.remove(i);
                return Ok(());
            }
            i += 1;
        }
        Err(String::from_str("charger id not registered"))
    }

    /// Starts the control loop: an already running controller is refused;
    /// otherwise the mode returns to normal.
    pub fn start(&mut self) -> (r: Result<(), String>)
        ensures
            old(self).running ==> r is Err && *final(self) == *old(self),
            !old(self).running ==> r is Ok && final(self).running && final(self).current_mode
                == EmsMode::Normal,
            final(self).pv_devices == old(self).pv_devices,
            final(self).battery_device == old(self).battery_device,
            final(self).genset_device == old(self).genset_device,
            final(self).pcs_device == old(self).pcs_device,
            final(self).charger_devices == old(self).charger_devices,
            final(self).config == old(self).config,
            final(self).cached_status == old(self).cached_status,
    {
        if self.running {
            return Err(String::from_str("EMS is already running"));
        }
        self.running = true;
        self.current_mode = EmsMode::Normal;
        Ok(())
    }

    /// Stops the control loop and parks the controller in the fault mode;
    /// only `start` leaves it again.
    pub fn stop(&mut self)
        ensures
            !final(self).running,
            final(self).current_mode == EmsMode::Fault,
            final(self).pv_devices == old(self).pv_devices,
            final(self).battery_device == old(self).battery_device,
            final(self).genset_device == old(self).genset_device,
            final(self).pcs_device == old(self).pcs_device,
            final(self).charger_devices == old(self).charger_devices,
            final(self).config == old(self).config,
            final(self).cached_status == old(self).cached_status,
    {
        self.running = false;
        self.current_mode = EmsMode::Fault;
    }

    /// Sums the cached demand of the actively charging stations and
    /// counts them; a sum beyond the cap is clamped and flagged.
    fn calculate_charger_demand(&self) -> (r: (i64, bool, usize))
        ensures
            r.0 == vstd::math::min(
                spec_charger_demand(self.charger_devices@),
                MAX_POWER_DECI_KW as int,
            ),
            0 <= r.0 <= MAX_POWER_DECI_KW,
            r.1 <==> spec_charger_demand(self.charger_devices@) > MAX_POWER_DECI_KW,
            r.2 == spec_active_chargers(self.charger_devices@),
    {
        let mut demand: u64 = 0;
        let mut active: usize = 0;
        let mut i: usize = 0;
        proof {
            lemma_charger_demand_nonneg(self.charger_devices@.take(0));
        }
        while i < self.charger_devices.len()
            invariant
                i <= self.charger_devices.len(),
                active <= i,
                demand as int == vstd::math::min(
                    spec_charger_demand(self.charger_devices@.take(i as int)),
                    u64::MAX as int,
                ),
                active as int == spec_active_chargers(self.charger_devices@.take(i as int)),
            decreases self.charger_devices.len() - i,
        {
            let c = &self.charger_devices[i];
            proof {
                assert(self.charger_devices@.take(i + 1).drop_last() =~= self.charger_devices@.take(
                    i as int,
                ));
                assert(self.charger_devices@.take(i + 1).last() == self.charger_devices@[i as int]);
                lemma_charger_demand_nonneg(self.charger_devices@.take(i as int));
            }
            if c.cache.charging {
                demand = demand.saturating_add((c.cache.power as u64) * 10);
                active = active + 1;
            }
            i += 1;
        }
        proof {
            assert(self.charger_devices@.take(self.charger_devices@.len() as int)
                =~= self.charger_devices@);
            lemma_charger_demand_nonneg(self.charger_devices@);
            lemma_active_chargers_bounds(self.charger_devices@);
        }
        let overflow = demand > (MAX_POWER_DECI_KW as u64);
        (cap_power(demand), overflow, active)
    }

    /// Reads every configured device once and assembles the cycle inputs:
    /// PV generation summed over the devices, the battery's charge and
    /// power flow (charge 100 and flow zero when no battery is
    /// configured), the generator's output when it runs, and the cached
    /// charger demand. A failed read contributes zero, or the 100 %
    /// default for the battery charge, and adds a fault entry; the
    /// returned flag is false as soon as any read failed. When every read
    /// succeeded, each quantity equals what the devices' refreshed caches
    /// hold: what the cycle computes with is exactly what was read.
    pub fn read_device_statuses(&mut self) -> (r: (CycleInputs, bool, Vec<String>))
        ensures
            final(self).charger_devices == old(self).charger_devices,
            final(self).config == old(self).config,
            final(self).current_mode == old(self).current_mode,
            final(self).cached_status == old(self).cached_status,
            final(self).running == old(self).running,
            final(self).pv_devices@.len() == old(self).pv_devices@.len(),
            final(self).battery_device is Some <==> old(self).battery_device is Some,
            final(self).genset_device is Some <==> old(self).genset_device is Some,
            final(self).pcs_device == old(self).pcs_device,
            spec_inputs_valid(r.0),
            r.0.battery_present <==> old(self).battery_device is Some,
            r.0.demand == vstd::math::min(
                spec_charger_demand(old(self).charger_devices@),
                MAX_POWER_DECI_KW as int,
            ),
            r.0.demand_overflow <==> spec_charger_demand(old(self).charger_devices@)
                > MAX_POWER_DECI_KW,
            r.0.active_chargers == spec_active_chargers(old(self).charger_devices@),
            r.1 ==> r.0.pv_power == vstd::math::min(
                spec_pv_sum(final(self).pv_devices@),
                MAX_POWER_DECI_KW as int,
            ),
            r.0.pv_power <= vstd::math::min(
                spec_pv_sum(final(self).pv_devices@),
                MAX_POWER_DECI_KW as int,
            ),
            r.1 && old(self).battery_device is Some ==> (final(self).battery_device matches Some(b)
                && r.0.battery_soc == b.cache.soc && r.0.battery_power
                == spec_battery_power_deci_kw(b.cache)),
            old(self).battery_device is Some ==> (final(self).battery_device matches Some(b) && ((
            r.0.battery_soc == b.cache.soc && r.0.battery_power == spec_battery_power_deci_kw(
                b.cache,
            )) || (r.0.battery_soc == 100 && r.0.battery_power == 0))),
            !(old(self).battery_device is Some) ==> r.0.battery_soc == 100 && r.0.battery_power
                == 0,
            r.1 && old(self).genset_device is Some ==> (final(self).genset_device matches Some(g)
                && r.0.generator_power == (if g.cache.running {
                g.cache.power_output as int
            } else {
                0int
            })),
            old(self).genset_device is Some ==> (final(self).genset_device matches Some(g) && (
            r.0.generator_power == (if g.cache.running {
                g.cache.power_output as int
            } else {
                0int
            }) || r.0.generator_power == 0)),
            !(old(self).genset_device is Some) ==> r.0.generator_power == 0,
            r.2@.len() == 0 ==> r.1,
            r.0.demand_overflow ==> spec_faults_contain(r.2@, fault_demand_clamped()),
    {
        let mut faults: Vec<String> = Vec::new();
        let mut all_ok: bool = true;
        let mut pv_acc: u64 = 0;
        let mut i: usize = 0;
        proof {
            lemma_pv_sum_nonneg(self.pv_devices@.take(0));
        }
        while i < self.pv_devices.len()
            invariant
                i <= self.pv_devices.len(),
                self.pv_devices@.len() == old(self).pv_devices@.len(),
                self.charger_devices == old(self).charger_devices,
                self.battery_device == old(self).battery_device,
                self.genset_device == old(self).genset_device,
                self.pcs_device == old(self).pcs_device,
                self.config == old(self).config,
                self.current_mode == old(self).current_mode,
                self.cached_status == old(self).cached_status,
                self.running == old(self).running,
                all_ok ==> pv_acc as int == vstd::math::min(
                    spec_pv_sum(self.pv_devices@.take(i as int)),
                    u64::MAX as int,
                ),
                pv_acc as int <= spec_pv_sum(self.pv_devices@.take(i as int)),
                !all_ok ==> faults@.len() > 0,
            decreases self.pv_devices.len() - i,
        {
            let ghost pvs_before = self.pv_devices@;
            let read = self.pv_devices[i].read_status();
            proof {
                assert(self.pv_devices@.take(i as int) =~= pvs_before.take(i as int));
                assert(self.pv_devices@.take(i + 1).drop_last() =~= self.pv_devices@.take(
                    i as int,
                ));
                assert(self.pv_devices@.take(i + 1).last() == self.pv_devices@[i as int]);
                lemma_pv_sum_nonneg(self.pv_devices@.take(i as int));
            }
            match read {
                Ok(s) => {
                    pv_acc = pv_acc.saturating_add((s.power / 1000) as u64);
                }
                Err(_) => {
                    all_ok = false;
                    faults.push(String::from_str("PV read failed"));
                }
            }
            i += 1;
        }
        proof {
            assert(self.pv_devices@.take(self.pv_devices@.len() as int) =~= self.pv_devices@);
            lemma_pv_sum_nonneg(self.pv_devices@);
        }
        let pv_power: i64 = cap_power(pv_acc);

        let mut battery_soc: u8 = 100;
        let mut battery_power: i64 = 0;
        let battery_present: bool;
        match &mut self.battery_device {
            Some(dev) => {
                battery_present = true;
                match dev.read_status() {
                    Ok(s) => {
                        battery_soc = s.soc;
                        battery_power = battery_power_deci_kw(&s);
                    }
                    Err(_) => {
                        all_ok = false;
                        faults.push(String::from_str("battery read failed"));
                        battery_soc = 100;
                        battery_power = 0;
                    }
                }
            }
            None => {
                battery_present = false;
            }
        }

        let mut generator_power: i64 = 0;
        match &mut self.genset_device {
            Some(dev) => {
                match dev.read_status() {
                    Ok(s) => {
                        generator_power = if s.running {
                            s.power_output as i64
                        } else {
                            0
                        };
                    }
                    Err(_) => {
                        all_ok = false;
                        faults.push(String::from_str("generator read failed"));
                        generator_power = 0;
                    }
                }
            }
            None => {}
        }

        let (demand, demand_overflow, active_chargers) = self.calculate_charger_demand();
        if demand_overflow {
            faults.push(String::from_str("charger demand clamped"));
            proof {
                assert(faults@[faults@.len() - 1]@ == fault_demand_clamped());
            }
        }
        let inputs = CycleInputs {
            pv_power,
            generator_power,
            battery_soc,
            battery_power,
            battery_present,
            demand,
            demand_overflow,
            active_chargers,
        };
        (inputs, all_ok, faults)
    }

    /// Dispatches the commands of a plan to the devices: the battery
    /// command through the power conversion system (skipped with a fault
    /// entry when none is configured), the generator start, and the
    /// per-charger curtailment setpoint to every actively charging
    /// station. A failed command adds a fault entry and fails the
    /// dispatch; the charger caches are never written.
    pub fn balance_power(&mut self, plan: &CyclePlan, faults: &mut Vec<String>) -> (ok: bool)
        ensures
            final(self).pv_devices == old(self).pv_devices,
            final(self).battery_device == old(self).battery_device,
            final(self).charger_devices == old(self).charger_devices,
            final(self).config == old(self).config,
            final(self).current_mode == old(self).current_mode,
            final(self).cached_status == old(self).cached_status,
            final(self).running == old(self).running,
            final(self).genset_device is Some <==> old(self).genset_device is Some,
            old(self).genset_device matches Some(g0) ==> (final(self).genset_device matches Some(
                g1,
            ) && g1.id == g0.id && (g1.cache == g0.cache || g1.cache == (GensetStatus {
                running: true,
                ..g0.cache
            }))),
            final(self).pcs_device is Some <==> old(self).pcs_device is Some,
            old(self).pcs_device is None && !(plan.pcs_command is Idle) ==> spec_faults_contain(
                final(faults)@,
                fault_pcs_absent(),
            ),
            old(faults)@.len() <= final(faults)@.len(),
            !ok ==> final(faults)@.len() > old(faults)@.len(),
            ok && !(old(self).pcs_device is None && !(plan.pcs_command is Idle)) ==> final(
                faults
            )@ == old(faults)@,
            ok && old(self).pcs_device is None && !(plan.pcs_command is Idle) ==> final(
                faults
            )@.len() == old(faults)@.len() + 1 && final(faults)@.last()@ == fault_pcs_absent(),
    {
        let mut ok = true;
        match plan.pcs_command {
            PcsCommand::Idle => {}
            PcsCommand::Charge(power) => {
                match &mut self.pcs_device {
                    Some(pcs) => {
                        match pcs.set_mode(PcsMode::Charging) {
                            Ok(()) => {
                                match pcs.set_power_setpoint(-(power as i32)) {
                                    Ok(()) => {}
                                    Err(_) => {
                                        ok = false;
                                        faults.push(String::from_str("PCS command failed"));
                                    }
                                }
                            }
                            Err(_) => {
                                ok = false;
                                faults.push(String::from_str("PCS command failed"));
                            }
                        }
                    }
                    None => {
                        faults.push(String::from_str("PCS absent - battery command skipped"));
                        proof {
                            assert(faults@[faults@.len() - 1]@ == fault_pcs_absent());
                        }
                    }
                }
            }
            PcsCommand::Discharge(power) => {
                match &mut self.pcs_device {
                    Some(pcs) => {
                        match pcs.set_mode(PcsMode::Discharging) {
                            Ok(()) => {
                                match pcs.set_power_setpoint(power as i32) {
                                    Ok(()) => {}
                                    Err(_) => {
                                        ok = false;
                                        faults.push(String::from_str("PCS command failed"));
                                    }
                                }
                            }
                            Err(_) => {
                                ok = false;
                                faults.push(String::from_str("PCS command failed"));
                            }
                        }
                    }
                    None => {
                        faults.push(String::from_str("PCS absent - battery command skipped"));
                        proof {
                            assert(faults@[faults@.len() - 1]@ == fault_pcs_absent());
                        }
                    }
                }
            }
        }
        if plan.start_generator {
            match &mut self.genset_device {
                Some(genset) => {
                    match genset.start_engine() {
                        Ok(()) => {}
                        Err(_) => {
                            ok = false;
                            let ghost before = faults@;
                            faults.push(String::from_str("generator start failed"));
                            proof {
                                if spec_faults_contain(before, fault_pcs_absent()) {
                                    let k = choose|k: int|
                                        0 <= k < before.len() && before[k]@ == fault_pcs_absent();
                                    assert(faults@[k]@ == fault_pcs_absent());
                                }
                            }
                        }
                    }
                }
                None => {}
            }
        }
        match plan.charger_limit {
            Some(limit) => {
                let ghost fl_mid = faults@;
                let ghost ok_mid = ok;
                let mut i: usize = 0;
                while i < self.charger_devices.len()
                    invariant
                        i <= self.charger_devices.len(),
                        old(self).pcs_device is None && !(plan.pcs_command is Idle)
                            ==> spec_faults_contain(faults@, fault_pcs_absent()),
                        old(faults)@.len() <= faults@.len(),
                        fl_mid.len() <= faults@.len(),
                        ok ==> ok_mid && faults@ == fl_mid,
                        !ok && ok_mid ==> faults@.len() > fl_mid.len(),
                    decreases self.charger_devices.len() - i,
                {
                    let c = &self.charger_devices[i];
                    if c.get_cached_status().charging {
                        match c.set_power_setpoint(limit) {
                            Ok(()) => {}
                            Err(_) => {
                                ok = false;
                                let ghost before = faults@;
                                faults.push(String::from_str("charger setpoint failed"));
                                proof {
                                    if spec_faults_contain(before, fault_pcs_absent()) {
                                        let k = choose|k: int|
                                            0 <= k < before.len() && before[k]@
                                                == fault_pcs_absent();
                                        assert(faults@[k]@ == fault_pcs_absent());
                                    }
                                }
                            }
                        }
                    }
                    i += 1;
                }
            }
            None => {}
        }
        ok
    }

    /// Executes one control cycle: reads the devices, arbitrates, issues
    /// the commands, and publishes a fresh snapshot. On a controller that
    /// is not running this is a no-op. The published snapshot always
    /// carries a power balance equal to generation minus consumption, an
    /// active-charger count recomputed from the caches, the current mode,
    /// and a health flag that is set exactly when the cycle recorded no
    /// fault; the charger caches are never written, and the mode never
    /// changes. A failed device command is returned as the cycle's error
    /// after the snapshot is published.
    pub fn run_control_cycle(&mut self) -> (r: Result<(), String>)
        ensures
            !old(self).running ==> r is Ok && *final(self) == *old(self),
            final(self).running == old(self).running,
            final(self).current_mode == old(self).current_mode,
            final(self).config == old(self).config,
            final(self).charger_devices == old(self).charger_devices,
            final(self).pcs_device is Some <==> old(self).pcs_device is Some,
            old(self).running ==> {
                let s = final(self).cached_status@;
                &&& s.power_balance == s.total_generation - s.total_consumption
                &&& s.total_generation == s.pv_power + s.generator_power
                &&& s.total_consumption == s.charger_power
                &&& s.charger_power == vstd::math::min(
                    spec_charger_demand(old(self).charger_devices@),
                    MAX_POWER_DECI_KW as int,
                )
                &&& s.active_chargers == spec_active_chargers(final(self).charger_devices@)
                &&& s.system_mode == old(self).current_mode
                &&& s.grid_power == 0
                &&& (s.system_healthy <==> s.faults.len() == 0)
                &&& (s.system_healthy ==> s.pv_power == vstd::math::min(
                    spec_pv_sum(final(self).pv_devices@),
                    MAX_POWER_DECI_KW as int,
                ))
                &&& (s.system_healthy && old(self).battery_device is Some ==> (final(
                    self
                ).battery_device matches Some(b) && s.battery_power == spec_battery_power_deci_kw(
                    b.cache,
                )))
                &&& (!(old(self).battery_device is Some) ==> s.battery_power == 0)
                &&& (s.system_healthy && old(self).genset_device is Some ==> (final(
                    self
                ).genset_device matches Some(g) && (s.generator_power == (if g.cache.running {
                    g.cache.power_output as int
                } else {
                    0int
                }) || (g.cache.running && s.generator_power == 0))))
                &&& (!(old(self).genset_device is Some) ==> s.generator_power == 0)
                &&& (r is Err ==> !s.system_healthy)
            },
    {
        if !self.running {
            return Ok(());
        }
        let (inputs, _all_ok, mut faults) = self.read_device_statuses();
        let plan = plan_balance(&self.config, &self.current_mode, &inputs);
        let ok = self.balance_power(&plan, &mut faults);
        let total_generation: i64 = inputs.pv_power + inputs.generator_power;
        let total_consumption: i64 = inputs.demand;
        let power_balance: i64 = total_generation - total_consumption;
        let (_, _, active_now) = self.calculate_charger_demand();
        let healthy = faults.len() == 0;
        self.cached_status = EmsStatus {
            total_generation,
            total_consumption,
            power_balance,
            grid_power: 0,
            battery_power: inputs.battery_power,
            generator_power: inputs.generator_power,
            pv_power: inputs.pv_power,
            charger_power: total_consumption,
            active_chargers: active_now,
            system_mode: self.current_mode,
            system_healthy: healthy,
            faults,
        };
        if ok {
            Ok(())
        } else {
            Err(String::from_str("device command failed"))
        }
    }

    /// The last published snapshot; never touches a device.
    pub fn get_status(&self) -> (r: EmsStatus)
        ensures
            r@ == self.cached_status@,
    {
        EmsStatus {
            total_generation: self.cached_status.total_generation,
            total_consumption: self.cached_status.total_consumption,
            power_balance: self.cached_status.power_balance,
            grid_power: self.cached_status.grid_power,
            battery_power: self.cached_status.battery_power,
            generator_power: self.cached_status.generator_power,
            pv_power: self.cached_status.pv_power,
            charger_power: self.cached_status.charger_power,
            active_chargers: self.cached_status.active_chargers,
            system_mode: self.cached_status.system_mode,
            system_healthy: self.cached_status.system_healthy,
            faults: clone_faults(&self.cached_status.faults),
        }
    }

    /// Whether the control loop runs.
    pub fn is_running(&self) -> (r: bool)
        ensures
            r == self.running,
    {
        self.running
    }

    /// The current operational mode.
    pub fn get_mode(&self) -> (r: &EmsMode)
        ensures
            *r == self.current_mode,
    {
        &self.current_mode
    }

    /// Whether every registered device reports a live connection, as the
    /// startup health check requires.
    pub fn all_devices_connected(&self) -> (r: bool)
        ensures
            r <==> {
                &&& forall|i: int|
                    0 <= i < self.pv_devices@.len() ==> (#[trigger] self.pv_devices@[i]).connected()
                &&& (self.battery_device matches Some(b) ==> b.connected())
                &&& (self.genset_device matches Some(g) ==> g.connected())
                &&& (self.pcs_device matches Some(p) ==> p.connected())
                &&& forall|i: int|
                    0 <= i < self.charger_devices@.len() ==> (#[trigger] self.charger_devices@[i]).connected()
            },
    {
        let mut i: usize = 0;
        while i < self.pv_devices.len()
            invariant
                i <= self.pv_devices.len(),
                forall|j: int| 0 <= j < i ==> (#[trigger] self.pv_devices@[j]).connected(),
            decreases self.pv_devices.len() - i,
        {
            if !self.pv_devices[i].is_connected() {
                return false;
            }
            i += 1;
        }
        match &self.battery_device {
            Some(b) => {
                if !b.is_connected() {
                    return false;
                }
            }
            None => {}
        }
        match &self.genset_device {
            Some(g) => {
                if !g.is_connected() {
                    return false;
                }
            }
            None => {}
        }
        match &self.pcs_device {
            Some(p) => {
                if !p.is_connected() {
                    return false;
                }
            }
            None => {}
        }
        let mut k: usize = 0;
        while k < self.charger_devices.len()
            invariant
                k <= self.charger_devices.len(),
                forall|j: int| 0 <= j < k ==> (#[trigger] self.charger_devices@[j]).connected(),
            decreases self.charger_devices.len() - k,
        {
            if !self.charger_devices[k].is_connected() {
                return false;
            }
            k += 1;
        }
        true
    }
}

} // verus!
