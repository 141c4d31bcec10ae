use ebc_hub::records::config_table;
use ebc_hub::device::{DeviceCommand, Program, ValueOutOfRange};
use ebc_hub::models::{CliMode, TestConfig};
use ebc_hub::records::{existing_tests, row_was_updated};
use ebc_hub::models::Test;

#[test]
fn command_for_config_in_range() {
    let c = TestConfig::DischargeConstantCurrent { target_current_ma: 20000, cutoff_voltage_mv: 2500, cutoff_time_min: 0 };
    assert_eq!(
        DeviceCommand::for_config(Program::Start, &c),
        Ok(DeviceCommand { program: Program::Start, mode: CliMode::DscCc, value1: 20000, value2: 2500, value3: 0 })
    );
    let c = TestConfig::ChargeConstantVoltage { target_current_ma: 65535, charge_voltage_mv: 3650, charge_cutoff_current_ma: 1 };
    assert_eq!(
        DeviceCommand::for_config(Program::Continue, &c),
        Ok(DeviceCommand { program: Program::Continue, mode: CliMode::ChgCv, value1: 65535, value2: 3650, value3: 1 })
    );
}

#[test]
fn command_for_config_out_of_range() {
    let c = TestConfig::DischargeConstantPower { target_power_w: 65536, cutoff_voltage_mv: 2500, cutoff_time_min: 0 };
    assert_eq!(DeviceCommand::for_config(Program::Start, &c), Err(ValueOutOfRange));
    let c = TestConfig::DischargeConstantPower { target_power_w: 1, cutoff_voltage_mv: -1, cutoff_time_min: 0 };
    assert_eq!(DeviceCommand::for_config(Program::Adjust, &c), Err(ValueOutOfRange));
    let c = TestConfig::DischargeConstantPower { target_power_w: 1, cutoff_voltage_mv: 1, cutoff_time_min: i64::MAX };
    assert_eq!(DeviceCommand::for_config(Program::Continue, &c), Err(ValueOutOfRange));
}

#[test]
fn updates_that_change_no_row_find_nothing() {
    assert!(!row_was_updated(0));
    assert!(row_was_updated(1));
    assert!(row_was_updated(7));
}

fn test_with_id(id: i64) -> Test {
    let mut t = Test::draft(
        format!("b{id}"),
        "1".to_string(),
        "DSC-CC".to_string(),
        3300,
        TestConfig::DischargeConstantCurrent { target_current_ma: 1, cutoff_voltage_mv: 2, cutoff_time_min: 3 },
    );
    t.id = id;
    t
}

#[test]
fn existing_tests_keep_order_and_drop_missing() {
    let found = vec![Some(test_with_id(5)), None, Some(test_with_id(3)), None, Some(test_with_id(1))];
    let ids: Vec<i64> = existing_tests(found).iter().map(|t| t.id).collect();
    assert_eq!(ids, vec![5, 3, 1]);
    assert!(existing_tests(vec![None, None]).is_empty());
    assert!(existing_tests(vec![]).is_empty());
}

#[test]
fn config_tables() {
    assert_eq!(
        config_table(CliMode::DscCc),
        ("discharge_cc_tests", "target_current_ma", "cutoff_voltage_mv", "cutoff_time_min")
    );
    assert_eq!(
        config_table(CliMode::DscCp),
        ("discharge_cp_tests", "target_power_w", "cutoff_voltage_mv", "cutoff_time_min")
    );
    assert_eq!(
        config_table(CliMode::ChgCv),
        ("charge_cv_tests", "target_current_ma", "charge_voltage_mv", "charge_cutoff_current_ma")
    );
}
