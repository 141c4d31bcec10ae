use ebc_hub::models::{BatteryIntake, CliMode, Test, TestConfig, TestMode};

#[test]
fn test_mode_from_acronym_has_empty_description() {
    let mode = TestMode::from("DSC-CC".to_string());
    assert_eq!(mode.acronym, "DSC-CC");
    assert_eq!(mode.description, "");
}

#[test]
fn cli_mode_names() {
    assert_eq!(CliMode::parse("DSC-CC"), Some(CliMode::DscCc));
    assert_eq!(CliMode::parse("dsc-cc"), Some(CliMode::DscCc));
    assert_eq!(CliMode::parse("DSC-CP"), Some(CliMode::DscCp));
    assert_eq!(CliMode::parse("dsc-cp"), Some(CliMode::DscCp));
    assert_eq!(CliMode::parse("CHG-CV"), Some(CliMode::ChgCv));
    assert_eq!(CliMode::parse("chg-cv"), Some(CliMode::ChgCv));
    assert_eq!(CliMode::parse("Dsc-Cc"), None);
    assert_eq!(CliMode::parse(""), None);
}

#[test]
fn acronyms_read_back() {
    for m in [CliMode::DscCc, CliMode::DscCp, CliMode::ChgCv] {
        assert_eq!(CliMode::from_acronym(m.acronym()), Some(m));
        assert_eq!(CliMode::parse(m.acronym()), Some(m));
    }
    assert_eq!(CliMode::DscCc.acronym(), "DSC-CC");
    assert_eq!(CliMode::DscCp.acronym(), "DSC-CP");
    assert_eq!(CliMode::ChgCv.acronym(), "CHG-CV");
    assert_eq!(CliMode::from_acronym("dsc-cc"), None);
}

#[test]
fn config_round_trip() {
    let configs = [
        TestConfig::DischargeConstantCurrent { target_current_ma: 20000, cutoff_voltage_mv: 2500, cutoff_time_min: 0 },
        TestConfig::DischargeConstantPower { target_power_w: 60, cutoff_voltage_mv: 2800, cutoff_time_min: 120 },
        TestConfig::ChargeConstantVoltage { target_current_ma: 10000, charge_voltage_mv: 3650, charge_cutoff_current_ma: 500 },
    ];
    for c in configs {
        let (a, b, d) = c.values();
        assert_eq!(TestConfig::from_values(c.mode(), a, b, d), c);
    }
    let c = TestConfig::from_values(CliMode::DscCp, 1, 2, 3);
    assert_eq!(c, TestConfig::DischargeConstantPower { target_power_w: 1, cutoff_voltage_mv: 2, cutoff_time_min: 3 });
    assert_eq!(c.mode(), CliMode::DscCp);
    assert_eq!(c.values(), (1, 2, 3));
}

#[test]
fn draft_test() {
    let config = TestConfig::DischargeConstantCurrent { target_current_ma: 20000, cutoff_voltage_mv: 2500, cutoff_time_min: 0 };
    let t = Test::draft("eve-314ah-001".to_string(), "1".to_string(), "DSC-CC".to_string(), 3291, config);
    assert_eq!(t.id, 0);
    assert!(!t.approved);
    assert_eq!(t.battery_id, "eve-314ah-001");
    assert_eq!(t.device_id, "1");
    assert_eq!(t.mode.acronym, "DSC-CC");
    assert_eq!(t.mode.description, "");
    assert_eq!(t.voltage_before_test_mv, 3291);
    assert_eq!(t.config, config);
    assert_eq!(t.measured_capacity_mah, None);
    assert_eq!(t.measured_energy_mwh, None);
    assert_eq!(t.end_voltage_mv, None);
    assert_eq!(t.notes, None);
}

#[test]
fn intake_without_record() {
    let i = BatteryIntake::with_delivery_measurement(None, "eve-314ah-001", 3291, 180);
    assert_eq!(i.battery_id, "eve-314ah-001");
    assert_eq!(i.voltage_at_delivery_mv, Some(3291));
    assert_eq!(i.internal_resistance_at_delivery_uohm, Some(180));
    assert_eq!(i.serial_number, None);
    assert_eq!(i.purchase_date, None);
    assert_eq!(i.delivery_date, None);
    assert_eq!(i.visual_inspection, None);
    assert_eq!(i.notes, None);
}

#[test]
fn intake_keeps_other_fields_and_latest_measurement_wins() {
    let stored = BatteryIntake {
        battery_id: "b1".to_string(),
        serial_number: Some("SN1".to_string()),
        purchase_date: Some("2024-01-02".to_string()),
        delivery_date: None,
        voltage_at_delivery_mv: Some(1),
        internal_resistance_at_delivery_uohm: Some(2),
        visual_inspection: Some("ok".to_string()),
        notes: Some("n".to_string()),
    };
    let once = BatteryIntake::with_delivery_measurement(Some(stored.clone()), "ignored", 3300, 150);
    let twice = BatteryIntake::with_delivery_measurement(Some(once.clone()), "ignored", 3310, 160);
    assert_eq!(once.battery_id, "b1");
    assert_eq!(once.serial_number.as_deref(), Some("SN1"));
    assert_eq!(once.purchase_date.as_deref(), Some("2024-01-02"));
    assert_eq!(once.visual_inspection.as_deref(), Some("ok"));
    assert_eq!(once.notes.as_deref(), Some("n"));
    assert_eq!(once.voltage_at_delivery_mv, Some(3300));
    assert_eq!(once.internal_resistance_at_delivery_uohm, Some(150));
    assert_eq!(twice.voltage_at_delivery_mv, Some(3310));
    assert_eq!(twice.internal_resistance_at_delivery_uohm, Some(160));
    assert_eq!(twice.serial_number.as_deref(), Some("SN1"));
}
