//! The programs that are sent to a battery tester.
use vstd::prelude::*;
use crate::models::{CliMode, TestConfig};

verus! {

/// What a program request asks of the tester: start a program, adjust the
/// running one, or continue a stopped one.
#[derive(Debug, Clone, Copy, PartialEq, Eq, Structural)]
pub enum Program {
    Start,
    Adjust,
    Continue,
}

impl Program {
    /// The console word that asks for this program.
    pub open spec fn verb_spec(self) -> Seq<char> {
        match self {
            Program::Start => "start"@,
            Program::Adjust => "adjust"@,
            Program::Continue => "continue"@,
        }
    }

    pub fn verb(&self) -> (v: &'static str)
        ensures
            v@ == self.verb_spec(),
    {
        match self {
            Program::Start => "start",
            Program::Adjust => "adjust",
            Program::Continue => "continue",
        }
    }
}

/// A program request for a tester. The three values have the meaning that
/// the kind gives them: for `DscCc` current (mA), cut-off voltage (mV) and
/// time limit (min); for `DscCp` power (W), cut-off voltage (mV) and time
/// limit (min); for `ChgCv` current (mA), charge voltage (mV) and cut-off
/// current (mA).
#[derive(Debug, Clone, Copy, PartialEq, Eq, Structural)]
pub struct DeviceCommand {
    pub program: Program,
    pub mode: CliMode,
    pub value1: u16,
    pub value2: u16,
    pub value3: u16,
}

/// A test parameter does not fit the tester's 16-bit unsigned fields.
#[derive(Debug, Clone, Copy, PartialEq, Eq, Structural)]
pub struct ValueOutOfRange;

pub open spec fn fits_u16(v: i64) -> bool {
    0 <= v <= u16::MAX
}

/// The request that runs `config` with `program`, where all three
/// parameters fit.
pub open spec fn command_for_spec(program: Program, config: TestConfig) -> Result<
    DeviceCommand,
    ValueOutOfRange,
> {
    let (a, b, c) = config.values_spec();
    if fits_u16(a) && fits_u16(b) && fits_u16(c) {
        Ok(
            DeviceCommand {
                program,
                mode: config.mode_spec(),
                value1: a as u16,
                value2: b as u16,
                value3: c as u16,
            },
        )
    } else {
        Err(ValueOutOfRange)
    }
}

fn to_u16(v: i64) -> (r: Result<u16, ValueOutOfRange>)
    ensures
        fits_u16(v) ==> r == Ok::<u16, ValueOutOfRange>(v as u16),
        !fits_u16(v) ==> r is Err,
{
    match u16::try_from(v) {
        Ok(x) => Ok(x),
        Err(_) => Err(ValueOutOfRange),
    }
}

impl DeviceCommand {
    /// The request that runs the test configuration `config` with `program`;
    /// refused where a parameter is negative or above 65535.
    pub fn for_config(program: Program, config: &TestConfig) -> (r: Result<
        DeviceCommand,
        ValueOutOfRange,
    >)
        ensures
            r == command_for_spec(program, *config),
    {
        let (a, b, c) = config.values();
        let value1 = match to_u16(a) {
            Ok(x) => x,
            Err(e) => return Err(e),
        };
        let value2 = match to_u16(b) {
            Ok(x) => x,
            Err(e) => return Err(e),
        };
        let value3 = match to_u16(c) {
            Ok(x) => x,
            Err(e) => return Err(e),
        };
        Ok(DeviceCommand { program, mode: config.mode(), value1, value2, value3 })
    }
}

/// The request for a test runs the test's own kind of program with its
/// parameters in the order the tester takes them: current, cut-off voltage and
/// time limit for a constant current discharge; power, cut-off voltage and time
/// limit for a constant power discharge; current, charge voltage and cut-off
/// current for a constant current / constant voltage charge. It is refused
/// exactly where a parameter is outside `0..=65535`.
pub proof fn lemma_command_follows_config(program: Program, config: TestConfig)
    ensures
        command_for_spec(program, config) is Ok <==> match config {
            TestConfig::DischargeConstantCurrent { target_current_ma, cutoff_voltage_mv, cutoff_time_min } =>
                fits_u16(target_current_ma) && fits_u16(cutoff_voltage_mv) && fits_u16(cutoff_time_min),
            TestConfig::DischargeConstantPower { target_power_w, cutoff_voltage_mv, cutoff_time_min } =>
                fits_u16(target_power_w) && fits_u16(cutoff_voltage_mv) && fits_u16(cutoff_time_min),
            TestConfig::ChargeConstantVoltage { target_current_ma, charge_voltage_mv, charge_cutoff_current_ma } =>
                fits_u16(target_current_ma) && fits_u16(charge_voltage_mv) && fits_u16(charge_cutoff_current_ma),
        },
        command_for_spec(program, config) matches Ok(cmd) ==> cmd.program == program && match config {
            TestConfig::DischargeConstantCurrent { target_current_ma, cutoff_voltage_mv, cutoff_time_min } => {
                &&& cmd.mode == CliMode::DscCc
                &&& cmd.value1 == target_current_ma
                &&& cmd.value2 == cutoff_voltage_mv
                &&& cmd.value3 == cutoff_time_min
            },
            TestConfig::DischargeConstantPower { target_power_w, cutoff_voltage_mv, cutoff_time_min } => {
                &&& cmd.mode == CliMode::DscCp
                &&& cmd.value1 == target_power_w
                &&& cmd.value2 == cutoff_voltage_mv
                &&& cmd.value3 == cutoff_time_min
            },
            TestConfig::ChargeConstantVoltage { target_current_ma, charge_voltage_mv, charge_cutoff_current_ma } => {
                &&& cmd.mode == CliMode::ChgCv
                &&& cmd.value1 == target_current_ma
                &&& cmd.value2 == charge_voltage_mv
                &&& cmd.value3 == charge_cutoff_current_ma
            },
        },
{
}

/// The program of a test and the program the console sends for the same kind
/// and values are one request: a test made from a kind and three values is
/// sent to the tester as exactly that kind and those values.
pub proof fn lemma_config_command_round_trip(program: Program, mode: CliMode, a: u16, b: u16, c: u16)
    ensures
        command_for_spec(program, TestConfig::from_values_spec(mode, a as i64, b as i64, c as i64))
            == Ok::<DeviceCommand, ValueOutOfRange>(
            DeviceCommand { program, mode, value1: a, value2: b, value3: c },
        ),
{
}

} // verus!
