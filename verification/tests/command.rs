use ebc_hub::command::{parse_command, parse_line, Command, CommandError, CommandErrorKind};
use ebc_hub::device::Program;
use ebc_hub::models::{CliMode, TestConfig};
use ebc_hub::numbers::IntErrorKind;

fn bad(position: usize, kind: IntErrorKind) -> CommandError {
    CommandError { position, kind: CommandErrorKind::BadNumber { kind } }
}

#[test]
fn simple_commands() {
    assert!(matches!(parse_line("quit"), Ok(Command::Quit)));
    assert!(matches!(parse_line("exit"), Ok(Command::Quit)));
    assert!(matches!(parse_line("  help "), Ok(Command::Help)));
    assert!(matches!(parse_line(""), Ok(Command::Empty)));
    assert!(matches!(parse_line(" \t "), Ok(Command::Empty)));
    assert!(matches!(parse_line("quit now"), Ok(Command::Unknown)));
    assert!(matches!(parse_line("frobnicate"), Ok(Command::Unknown)));
    assert!(matches!(parse_line("connect"), Ok(Command::Unknown)));
}

#[test]
fn device_commands() {
    assert!(matches!(parse_line("connect 1"), Ok(Command::Connect { id: 1 })));
    assert!(matches!(parse_line("disconnect +02"), Ok(Command::Disconnect { id: 2 })));
    assert!(matches!(parse_line("status 3"), Ok(Command::Status { id: 3 })));
    assert!(matches!(parse_line("stop 4"), Ok(Command::Stop { id: 4 })));
    assert_eq!(parse_line("connect x").unwrap_err(), bad(1, IntErrorKind::InvalidDigit));
    assert_eq!(parse_line("connect -1").unwrap_err(), bad(1, IntErrorKind::InvalidDigit));
}

#[test]
fn program_commands() {
    match parse_line("start 1 DSC-CC 20000 2500 0") {
        Ok(Command::Program { program, id, mode, value1, value2, value3 }) => {
            assert_eq!((program, id, mode, value1, value2, value3), (Program::Start, 1, CliMode::DscCc, 20000, 2500, 0));
        }
        other => panic!("unexpected {:?}", other),
    }
    match parse_line("adjust 2 dsc-cp 60 2800 120") {
        Ok(Command::Program { program, mode, .. }) => {
            assert_eq!((program, mode), (Program::Adjust, CliMode::DscCp));
        }
        other => panic!("unexpected {:?}", other),
    }
    match parse_line("continue 2 CHG-CV 10000 3650 500") {
        Ok(Command::Program { program, mode, .. }) => {
            assert_eq!((program, mode), (Program::Continue, CliMode::ChgCv));
        }
        other => panic!("unexpected {:?}", other),
    }
    assert_eq!(
        parse_line("start 1 XYZ 1 2 3").unwrap_err(),
        CommandError { position: 2, kind: CommandErrorKind::UnknownMode }
    );
    assert_eq!(parse_line("start x XYZ 1 2 3").unwrap_err(), bad(1, IntErrorKind::InvalidDigit));
    assert_eq!(parse_line("start 1 DSC-CC 65536 2 3").unwrap_err(), bad(3, IntErrorKind::PosOverflow));
    assert_eq!(parse_line("start 1 DSC-CC 1 2 -3").unwrap_err(), bad(5, IntErrorKind::InvalidDigit));
}

#[test]
fn battery_commands() {
    match parse_line("battery-type add EVE LF314 LiFePO4 3200 314000 3650 2500") {
        Ok(Command::AddBatteryType {
            manufacturer,
            model,
            chemistry,
            nominal_voltage_mv,
            nominal_capacity_mah,
            charge_termination_voltage_mv,
            discharge_cutoff_voltage_mv,
        }) => {
            assert_eq!((manufacturer.as_str(), model.as_str(), chemistry.as_str()), ("EVE", "LF314", "LiFePO4"));
            assert_eq!(
                (nominal_voltage_mv, nominal_capacity_mah, charge_termination_voltage_mv, discharge_cutoff_voltage_mv),
                (3200, 314000, Some(3650), Some(2500))
            );
        }
        other => panic!("unexpected {:?}", other),
    }
    match parse_line("battery-type add EVE LF314 LiFePO4 3200 314000") {
        Ok(Command::AddBatteryType {
            manufacturer,
            nominal_voltage_mv,
            nominal_capacity_mah,
            charge_termination_voltage_mv,
            discharge_cutoff_voltage_mv,
            ..
        }) => {
            assert_eq!(manufacturer, "EVE");
            assert_eq!(
                (nominal_voltage_mv, nominal_capacity_mah, charge_termination_voltage_mv, discharge_cutoff_voltage_mv),
                (3200, 314000, None, None)
            );
        }
        other => panic!("unexpected {:?}", other),
    }
    assert!(matches!(parse_line("battery-type add EVE LF314 LiFePO4 3200 314000 3650"), Ok(Command::Unknown)));
    assert_eq!(
        parse_line("battery-type add EVE LF314 LiFePO4 3200 314000 3650 x").unwrap_err(),
        bad(8, IntErrorKind::InvalidDigit)
    );
    assert_eq!(
        parse_line("battery-type add EVE LF314 LiFePO4 3200 x y z").unwrap_err(),
        bad(6, IntErrorKind::InvalidDigit)
    );
    assert!(matches!(parse_line("battery-type list"), Ok(Command::ListBatteryTypes)));
    match parse_line("battery add eve-314ah-001 1") {
        Ok(Command::AddBattery { battery_id, battery_type_id }) => {
            assert_eq!(battery_id, "eve-314ah-001");
            assert_eq!(battery_type_id, 1);
        }
        other => panic!("unexpected {:?}", other),
    }
    assert!(matches!(parse_line("battery list"), Ok(Command::ListBatteries)));
    assert!(matches!(parse_line("battery show b1"), Ok(Command::ShowBattery { battery_id }) if battery_id == "b1"));
    assert!(matches!(parse_line("battery-intake show b1"), Ok(Command::ShowIntake { battery_id }) if battery_id == "b1"));
    match parse_line("battery-intake set eve-314ah-001 3291 180") {
        Ok(Command::SetIntake { battery_id, voltage_mv, resistance_uohm }) => {
            assert_eq!(battery_id, "eve-314ah-001");
            assert_eq!((voltage_mv, resistance_uohm), (3291, 180));
        }
        other => panic!("unexpected {:?}", other),
    }
    assert_eq!(parse_line("battery-intake set b1 3291 x").unwrap_err(), bad(4, IntErrorKind::InvalidDigit));
}

#[test]
fn test_commands() {
    match parse_line("test create b1 1 DSC-CP 3300 60 2800 120") {
        Ok(Command::CreateTest { battery_id, device_id, mode, voltage_before_test_mv, config }) => {
            assert_eq!((battery_id.as_str(), device_id.as_str(), mode.as_str()), ("b1", "1", "DSC-CP"));
            assert_eq!(voltage_before_test_mv, 3300);
            assert_eq!(config, TestConfig::DischargeConstantPower { target_power_w: 60, cutoff_voltage_mv: 2800, cutoff_time_min: 120 });
        }
        other => panic!("unexpected {:?}", other),
    }
    assert!(matches!(parse_line("test create b1 1 dsc-cp 3300 60 2800 120"), Ok(Command::UnknownTestMode { mode }) if mode == "dsc-cp"));
    assert_eq!(parse_line("test create b1 1 XX 3300 60 2800 q").unwrap_err(), bad(8, IntErrorKind::InvalidDigit));
    assert_eq!(parse_line("test create b1 1 XX v 60 2800 120").unwrap_err(), bad(5, IntErrorKind::InvalidDigit));
    assert!(matches!(parse_line("test list"), Ok(Command::ListTests)));
    assert!(matches!(parse_line("test show 5"), Ok(Command::ShowTest { id: 5 })));
    assert!(matches!(parse_line("test approve 5"), Ok(Command::ApproveTest { id: 5 })));
    assert!(matches!(parse_line("test delete -5"), Ok(Command::DeleteTest { id: -5 })));
    assert_eq!(parse_line("test show").ok().map(|c| matches!(c, Command::Unknown)), Some(true));
}

#[test]
fn session_and_sample_commands() {
    assert!(matches!(parse_line("session create 3"), Ok(Command::CreateSession { test_id: 3, reason: None })));
    assert!(matches!(parse_line("session create 3 retry"), Ok(Command::CreateSession { test_id: 3, reason: Some(r) }) if r == "retry"));
    assert!(matches!(parse_line("session end 9"), Ok(Command::EndSession { session_id: 9 })));
    assert!(matches!(parse_line("session list 3"), Ok(Command::ListSessions { test_id: 3 })));
    assert!(matches!(
        parse_line("sample append 9 1000 3300 -20000 5"),
        Ok(Command::AppendSample { session_id: 9, elapsed_ms: 1000, voltage_mv: 3300, current_ma: -20000, capacity_mah: 5, energy_mwh: None })
    ));
    assert!(matches!(
        parse_line("sample append 9 1000 3300 20000 5 17"),
        Ok(Command::AppendSample { energy_mwh: Some(17), .. })
    ));
    assert!(matches!(parse_line("sample list 9"), Ok(Command::ListSamples { session_id: 9 })));
    assert_eq!(parse_line("sample append 9 1000 3300 20000 5 e").unwrap_err(), bad(7, IntErrorKind::InvalidDigit));
}

#[test]
fn parse_command_takes_words() {
    let words = vec!["test".to_string(), "show".to_string(), "12".to_string()];
    assert!(matches!(parse_command(&words), Ok(Command::ShowTest { id: 12 })));
}

#[test]
fn error_messages() {
    let words: Vec<String> = ["start", "1", "XYZ", "1", "2", "3"].iter().map(|s| s.to_string()).collect();
    let e = parse_command(&words).unwrap_err();
    assert_eq!(e.message(&words), "Unknown mode: XYZ");
    for (input, std_input) in [("connect x", "x"), ("connect 99999999999999999999999", "99999999999999999999999"), ("test show -99999999999999999999", "-99999999999999999999")] {
        let words: Vec<String> = input.split_whitespace().map(|s| s.to_string()).collect();
        let e = parse_command(&words).unwrap_err();
        let expected = if input.starts_with("connect") {
            std_input.parse::<usize>().unwrap_err().to_string()
        } else {
            std_input.parse::<i64>().unwrap_err().to_string()
        };
        assert_eq!(e.message(&words), expected);
    }
    let e = CommandError { position: 1, kind: CommandErrorKind::BadNumber { kind: IntErrorKind::Empty } };
    assert_eq!(e.message(&words), "".parse::<i64>().unwrap_err().to_string());
}

#[test]
fn program_verbs() {
    assert_eq!(Program::Start.verb(), "start");
    assert_eq!(Program::Adjust.verb(), "adjust");
    assert_eq!(Program::Continue.verb(), "continue");
}
