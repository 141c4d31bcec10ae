//! The records of the battery test hub: test modes, test configurations,
//! tests and battery intake measurements.
use vstd::prelude::*;

verus! {

/// A test mode: the acronym under which a test configuration is stored
/// (such as `DSC-CC`) and a human readable description.
#[derive(Debug, Clone)]
pub struct TestMode {
    pub acronym: String,
    pub description: String,
}

impl From<String> for TestMode {
    /// A mode known only by its acronym: the description is empty.
    fn from(value: String) -> (mode: TestMode)
        ensures
            mode.acronym == value,
            mode.description@ == Seq::<char>::empty(),
    {
        TestMode { acronym: value, description: String::new() }
    }
}

impl vstd::std_specs::convert::FromSpecImpl<String> for TestMode {
    /// Two empty strings are not known to be one value in specifications, so the
    /// result of `from` is described by the `ensures` of the impl above instead.
    open spec fn obeys_from_spec() -> bool {
        false
    }

    open spec fn from_spec(v: String) -> TestMode {
        choose|m: TestMode| m.acronym == v && m.description@ == Seq::<char>::empty()
    }
}

/// The kinds of program a battery tester runs: constant current discharge,
/// constant power discharge, and constant current / constant voltage charge.
#[derive(Debug, Clone, Copy, PartialEq, Eq, Structural)]
pub enum CliMode {
    DscCc,
    DscCp,
    ChgCv,
}

/// The three parameters of a test, by kind of program.
#[derive(Debug, Clone, Copy, PartialEq, Eq, Structural)]
pub enum TestConfig {
    DischargeConstantCurrent { target_current_ma: i64, cutoff_voltage_mv: i64, cutoff_time_min: i64 },
    DischargeConstantPower { target_power_w: i64, cutoff_voltage_mv: i64, cutoff_time_min: i64 },
    ChargeConstantVoltage {
        target_current_ma: i64,
        charge_voltage_mv: i64,
        charge_cutoff_current_ma: i64,
    },
}

/// A battery test: which battery, on which device, in which mode, with which
/// parameters, and what it measured.
#[derive(Debug, Clone)]
pub struct Test {
    pub id: i64,
    pub battery_id: String,
    pub approved: bool,
    pub device_id: String,
    pub mode: TestMode,
    pub voltage_before_test_mv: i64,
    pub config: TestConfig,
    pub measured_capacity_mah: Option<i64>,
    pub measured_energy_mwh: Option<i64>,
    pub end_voltage_mv: Option<i64>,
    pub notes: Option<String>,
}

/// What was measured of a battery when it was delivered.
#[derive(Debug, Clone)]
pub struct BatteryIntake {
    pub battery_id: String,
    pub serial_number: Option<String>,
    pub purchase_date: Option<String>,
    pub delivery_date: Option<String>,
    pub voltage_at_delivery_mv: Option<i64>,
    pub internal_resistance_at_delivery_uohm: Option<i64>,
    pub visual_inspection: Option<String>,
    pub notes: Option<String>,
}

impl CliMode {
    /// The acronym under which tests of this kind are stored.
    pub open spec fn acronym_spec(self) -> Seq<char> {
        match self {
            CliMode::DscCc => "DSC-CC"@,
            CliMode::DscCp => "DSC-CP"@,
            CliMode::ChgCv => "CHG-CV"@,
        }
    }

    /// The kind whose stored acronym is exactly `s`.
    pub open spec fn from_acronym_spec(s: Seq<char>) -> Option<CliMode> {
        if s == "DSC-CC"@ {
            Some(CliMode::DscCc)
        } else if s == "DSC-CP"@ {
            Some(CliMode::DscCp)
        } else if s == "CHG-CV"@ {
            Some(CliMode::ChgCv)
        } else {
            None
        }
    }

    /// The kind that a command line names, in upper or in lower case.
    pub open spec fn named_spec(s: Seq<char>) -> Option<CliMode> {
        if s == "DSC-CC"@ || s == "dsc-cc"@ {
            Some(CliMode::DscCc)
        } else if s == "DSC-CP"@ || s == "dsc-cp"@ {
            Some(CliMode::DscCp)
        } else if s == "CHG-CV"@ || s == "chg-cv"@ {
            Some(CliMode::ChgCv)
        } else {
            None
        }
    }

    pub fn acronym(&self) -> (s: &'static str)
        ensures
            s@ == self.acronym_spec(),
    {
        match self {
            CliMode::DscCc => "DSC-CC",
            CliMode::DscCp => "DSC-CP",
            CliMode::ChgCv => "CHG-CV",
        }
    }

    /// The kind stored under the acronym `s`, which is compared exactly.
    pub fn from_acronym(s: &str) -> (m: Option<CliMode>)
        ensures
            m == CliMode::from_acronym_spec(s@),
    {
        if crate::words::same_text(s, "DSC-CC") {
            Some(CliMode::DscCc)
        } else if crate::words::same_text(s, "DSC-CP") {
            Some(CliMode::DscCp)
        } else if crate::words::same_text(s, "CHG-CV") {
            Some(CliMode::ChgCv)
        } else {
            None
        }
    }

    /// The kind that the command line word `s` names.
    pub fn parse(s: &str) -> (m: Option<CliMode>)
        ensures
            m == CliMode::named_spec(s@),
    {
        if crate::words::same_text(s, "DSC-CC") || crate::words::same_text(s, "dsc-cc") {
            Some(CliMode::DscCc)
        } else if crate::words::same_text(s, "DSC-CP") || crate::words::same_text(s, "dsc-cp") {
            Some(CliMode::DscCp)
        } else if crate::words::same_text(s, "CHG-CV") || crate::words::same_text(s, "chg-cv") {
            Some(CliMode::ChgCv)
        } else {
            None
        }
    }
}

/// A stored acronym names its kind again.
pub proof fn lemma_acronym_round_trip(m: CliMode)
    ensures
        CliMode::from_acronym_spec(m.acronym_spec()) == Some(m),
        CliMode::named_spec(m.acronym_spec()) == Some(m),
{
    reveal_strlit("DSC-CC");
    reveal_strlit("DSC-CP");
    reveal_strlit("CHG-CV");
    reveal_strlit("dsc-cc");
    reveal_strlit("dsc-cp");
    reveal_strlit("chg-cv");
    assert("DSC-CP"@[5] != "DSC-CC"@[5] && "DSC-CP"@[0] != "dsc-cc"@[0]);
    assert("CHG-CV"@[0] != "DSC-CC"@[0] && "CHG-CV"@[0] != "dsc-cc"@[0]);
    assert("CHG-CV"@[0] != "DSC-CP"@[0] && "CHG-CV"@[0] != "dsc-cp"@[0]);
}

impl TestConfig {
    /// The kind of program the configuration is for.
    pub open spec fn mode_spec(self) -> CliMode {
        match self {
            TestConfig::DischargeConstantCurrent { .. } => CliMode::DscCc,
            TestConfig::DischargeConstantPower { .. } => CliMode::DscCp,
            TestConfig::ChargeConstantVoltage { .. } => CliMode::ChgCv,
        }
    }

    /// The three parameters in the order in which they are stored and sent.
    pub open spec fn values_spec(self) -> (i64, i64, i64) {
        match self {
            TestConfig::DischargeConstantCurrent {
                target_current_ma,
                cutoff_voltage_mv,
                cutoff_time_min,
            } => (target_current_ma, cutoff_voltage_mv, cutoff_time_min),
            TestConfig::DischargeConstantPower {
                target_power_w,
                cutoff_voltage_mv,
                cutoff_time_min,
            } => (target_power_w, cutoff_voltage_mv, cutoff_time_min),
            TestConfig::ChargeConstantVoltage {
                target_current_ma,
                charge_voltage_mv,
                charge_cutoff_current_ma,
            } => (target_current_ma, charge_voltage_mv, charge_cutoff_current_ma),
        }
    }

    /// The configuration of kind `mode` with the parameters `a`, `b`, `c`.
    pub open spec fn from_values_spec(mode: CliMode, a: i64, b: i64, c: i64) -> TestConfig {
        match mode {
            CliMode::DscCc => TestConfig::DischargeConstantCurrent {
                target_current_ma: a,
                cutoff_voltage_mv: b,
                cutoff_time_min: c,
            },
            CliMode::DscCp => TestConfig::DischargeConstantPower {
                target_power_w: a,
                cutoff_voltage_mv: b,
                cutoff_time_min: c,
            },
            CliMode::ChgCv => TestConfig::ChargeConstantVoltage {
                target_current_ma: a,
                charge_voltage_mv: b,
                charge_cutoff_current_ma: c,
            },
        }
    }

    pub fn mode(&self) -> (m: CliMode)
        ensures
            m == self.mode_spec(),
    {
        match self {
            TestConfig::DischargeConstantCurrent { .. } => CliMode::DscCc,
            TestConfig::DischargeConstantPower { .. } => CliMode::DscCp,
            TestConfig::ChargeConstantVoltage { .. } => CliMode::ChgCv,
        }
    }

    pub fn values(&self) -> (v: (i64, i64, i64))
        ensures
            v == self.values_spec(),
    {
        match *self {
            TestConfig::DischargeConstantCurrent {
                target_current_ma,
                cutoff_voltage_mv,
                cutoff_time_min,
            } => (target_current_ma, cutoff_voltage_mv, cutoff_time_min),
            TestConfig::DischargeConstantPower {
                target_power_w,
                cutoff_voltage_mv,
                cutoff_time_min,
            } => (target_power_w, cutoff_voltage_mv, cutoff_time_min),
            TestConfig::ChargeConstantVoltage {
                target_current_ma,
                charge_voltage_mv,
                charge_cutoff_current_ma,
            } => (target_current_ma, charge_voltage_mv, charge_cutoff_current_ma),
        }
    }

    pub fn from_values(mode: CliMode, a: i64, b: i64, c: i64) -> (config: TestConfig)
        ensures
            config == TestConfig::from_values_spec(mode, a, b, c),
    {
        match mode {
            CliMode::DscCc => TestConfig::DischargeConstantCurrent {
                target_current_ma: a,
                cutoff_voltage_mv: b,
                cutoff_time_min: c,
            },
            CliMode::DscCp => TestConfig::DischargeConstantPower {
                target_power_w: a,
                cutoff_voltage_mv: b,
                cutoff_time_min: c,
            },
            CliMode::ChgCv => TestConfig::ChargeConstantVoltage {
                target_current_ma: a,
                charge_voltage_mv: b,
                charge_cutoff_current_ma: c,
            },
        }
    }
}

/// A configuration is given back by its kind and parameters, and a kind and
/// parameters are given back by the configuration they make.
pub proof fn lemma_config_round_trip(config: TestConfig, mode: CliMode, a: i64, b: i64, c: i64)
    ensures
        TestConfig::from_values_spec(config.mode_spec(), config.values_spec().0, config.values_spec().1, config.values_spec().2) == config,
        TestConfig::from_values_spec(mode, a, b, c).mode_spec() == mode,
        TestConfig::from_values_spec(mode, a, b, c).values_spec() == (a, b, c),
{
}

/// The kind and the three values of a configuration are its kind and its
/// fields in their declared order, and a configuration made from a kind and
/// three values has them in those fields: for a charge, the current, the
/// charge voltage and the cut-off current.
pub proof fn lemma_config_fields(config: TestConfig, mode: CliMode, a: i64, b: i64, c: i64)
    ensures
        match config {
            TestConfig::DischargeConstantCurrent { target_current_ma, cutoff_voltage_mv, cutoff_time_min } =>
                config.mode_spec() == CliMode::DscCc && config.values_spec() == (target_current_ma, cutoff_voltage_mv, cutoff_time_min),
            TestConfig::DischargeConstantPower { target_power_w, cutoff_voltage_mv, cutoff_time_min } =>
                config.mode_spec() == CliMode::DscCp && config.values_spec() == (target_power_w, cutoff_voltage_mv, cutoff_time_min),
            TestConfig::ChargeConstantVoltage { target_current_ma, charge_voltage_mv, charge_cutoff_current_ma } =>
                config.mode_spec() == CliMode::ChgCv && config.values_spec() == (target_current_ma, charge_voltage_mv, charge_cutoff_current_ma),
        },
        match TestConfig::from_values_spec(mode, a, b, c) {
            TestConfig::DischargeConstantCurrent { target_current_ma, cutoff_voltage_mv, cutoff_time_min } =>
                mode == CliMode::DscCc && target_current_ma == a && cutoff_voltage_mv == b && cutoff_time_min == c,
            TestConfig::DischargeConstantPower { target_power_w, cutoff_voltage_mv, cutoff_time_min } =>
                mode == CliMode::DscCp && target_power_w == a && cutoff_voltage_mv == b && cutoff_time_min == c,
            TestConfig::ChargeConstantVoltage { target_current_ma, charge_voltage_mv, charge_cutoff_current_ma } =>
                mode == CliMode::ChgCv && target_current_ma == a && charge_voltage_mv == b && charge_cutoff_current_ma == c,
        },
{
}

impl Test {
    /// A test as the command line creates it: not yet stored (id 0), not
    /// approved, with nothing measured and no notes.
    pub fn draft(
        battery_id: String,
        device_id: String,
        mode: String,
        voltage_before_test_mv: i64,
        config: TestConfig,
    ) -> (test: Test)
        ensures
            test.id == 0,
            test.battery_id == battery_id,
            !test.approved,
            test.device_id == device_id,
            test.mode.acronym == mode,
            test.mode.description@ == Seq::<char>::empty(),
            test.voltage_before_test_mv == voltage_before_test_mv,
            test.config == config,
            test.measured_capacity_mah is None,
            test.measured_energy_mwh is None,
            test.end_voltage_mv is None,
            test.notes is None,
    {
        Test {
            id: 0,
            battery_id,
            approved: false,
            device_id,
            mode: TestMode::from(mode),
            voltage_before_test_mv,
            config,
            measured_capacity_mah: None,
            measured_energy_mwh: None,
            end_voltage_mv: None,
            notes: None,
        }
    }
}

/// `existing` with the delivery voltage and internal resistance set.
pub open spec fn with_delivery_spec(existing: BatteryIntake, voltage_mv: i64, resistance_uohm: i64) -> BatteryIntake {
    BatteryIntake {
        voltage_at_delivery_mv: Some(voltage_mv),
        internal_resistance_at_delivery_uohm: Some(resistance_uohm),
        ..existing
    }
}

impl BatteryIntake {
    /// The intake record of `battery_id` after measuring its delivery voltage and
    /// internal resistance: the stored record with the two values replaced, or,
    /// where none is stored, a record holding only those two values.
    pub fn with_delivery_measurement(
        existing: Option<BatteryIntake>,
        battery_id: &str,
        voltage_mv: i64,
        resistance_uohm: i64,
    ) -> (intake: BatteryIntake)
        ensures
            existing matches Some(old) ==> intake == with_delivery_spec(old, voltage_mv, resistance_uohm),
            existing is None ==> {
                &&& intake.battery_id@ == battery_id@
                &&& intake.serial_number is None
                &&& intake.purchase_date is None
                &&& intake.delivery_date is None
                &&& intake.voltage_at_delivery_mv == Some(voltage_mv)
                &&& intake.internal_resistance_at_delivery_uohm == Some(resistance_uohm)
                &&& intake.visual_inspection is None
                &&& intake.notes is None
            },
    {
        let mut intake = match existing {
            Some(old) => old,
            None => BatteryIntake {
                battery_id: battery_id.to_owned(),
                serial_number: None,
                purchase_date: None,
                delivery_date: None,
                voltage_at_delivery_mv: None,
                internal_resistance_at_delivery_uohm: None,
                visual_inspection: None,
                notes: None,
            },
        };
        intake.voltage_at_delivery_mv = Some(voltage_mv);
        intake.internal_resistance_at_delivery_uohm = Some(resistance_uohm);
        intake
    }
}

/// A delivery measurement sets the voltage and the resistance to the measured
/// values, each in its own field, and keeps every other field.
pub proof fn lemma_measurement_fields(intake: BatteryIntake, voltage_mv: i64, resistance_uohm: i64)
    ensures
        ({
            let m = with_delivery_spec(intake, voltage_mv, resistance_uohm);
            &&& m.voltage_at_delivery_mv == Some(voltage_mv)
            &&& m.internal_resistance_at_delivery_uohm == Some(resistance_uohm)
            &&& m.battery_id == intake.battery_id
            &&& m.serial_number == intake.serial_number
            &&& m.purchase_date == intake.purchase_date
            &&& m.delivery_date == intake.delivery_date
            &&& m.visual_inspection == intake.visual_inspection
            &&& m.notes == intake.notes
        }),
{
}

/// Measuring again replaces the earlier measurement; the rest of the record stays.
pub proof fn lemma_latest_measurement_wins(
    intake: BatteryIntake,
    v1: i64,
    r1: i64,
    v2: i64,
    r2: i64,
)
    ensures
        with_delivery_spec(with_delivery_spec(intake, v1, r1), v2, r2) == with_delivery_spec(intake, v2, r2),
        with_delivery_spec(intake, v1, r1).battery_id == intake.battery_id,
        with_delivery_spec(intake, v1, r1).notes == intake.notes,
{
}

} // verus!
