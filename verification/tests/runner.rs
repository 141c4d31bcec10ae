use ebc_hub::device::{DeviceCommand, Program};
use ebc_hub::models::{CliMode, Test, TestConfig};
use ebc_hub::runner::{Pending, RunnerAction, RunnerError, RunnerEvent, State, TestRunnerCore};

fn sample_test(config: TestConfig) -> Test {
    let mut t = Test::draft("eve-314ah-001".to_string(), "1".to_string(), "DSC-CC".to_string(), 3291, config);
    t.id = 7;
    t
}

fn cc() -> TestConfig {
    TestConfig::DischargeConstantCurrent { target_current_ma: 20000, cutoff_voltage_mv: 2500, cutoff_time_min: 0 }
}

fn running(core: &TestRunnerCore) -> Option<(i64, i64)> {
    match &core.state {
        State::Running { test, session_id } => Some((test.id, *session_id)),
        _ => None,
    }
}

fn start(core: &mut TestRunnerCore, test: Test, session_id: i64) {
    assert!(matches!(core.step(RunnerEvent::StartTest { test_id: test.id }), RunnerAction::LoadTest { test_id: 7 }));
    match core.step(RunnerEvent::TestLoaded { test: Some(test) }) {
        RunnerAction::CreateSession { test_id, reason } => {
            assert_eq!(test_id, 7);
            assert_eq!(reason, "started");
        }
        other => panic!("unexpected {:?}", other),
    }
    match core.step(RunnerEvent::SessionCreated { session_id }) {
        RunnerAction::SendDevice { command } => assert_eq!(
            command,
            DeviceCommand { program: Program::Start, mode: CliMode::DscCc, value1: 20000, value2: 2500, value3: 0 }
        ),
        other => panic!("unexpected {:?}", other),
    }
    assert!(matches!(core.step(RunnerEvent::DeviceAccepted), RunnerAction::Reply { result: Ok(()) }));
}

#[test]
fn new_runner_is_idle() {
    let core = TestRunnerCore::new();
    assert!(matches!(core.state, State::Idle));
    assert!(matches!(core.pending, Pending::Nothing));
    assert!(!core.is_serving());
}

#[test]
fn start_runs_the_test() {
    let mut core = TestRunnerCore::new();
    start(&mut core, sample_test(cc()), 11);
    assert_eq!(running(&core), Some((7, 11)));
    assert!(!core.is_serving());
}

#[test]
fn state_is_kept_while_serving() {
    let mut core = TestRunnerCore::new();
    core.step(RunnerEvent::StartTest { test_id: 7 });
    assert!(core.is_serving());
    core.step(RunnerEvent::TestLoaded { test: Some(sample_test(cc())) });
    assert!(matches!(core.state, State::Idle));
    core.step(RunnerEvent::SessionCreated { session_id: 3 });
    assert!(matches!(core.state, State::Idle));
}

#[test]
fn missing_test_is_refused() {
    let mut core = TestRunnerCore::new();
    core.step(RunnerEvent::StartTest { test_id: 42 });
    assert!(matches!(
        core.step(RunnerEvent::TestLoaded { test: None }),
        RunnerAction::Reply { result: Err(RunnerError::TestNotFound { test_id: 42 }) }
    ));
    assert!(matches!(core.state, State::Idle));
    assert!(!core.is_serving());
}

#[test]
fn out_of_range_parameters_are_refused() {
    let mut core = TestRunnerCore::new();
    core.step(RunnerEvent::StartTest { test_id: 7 });
    let big = TestConfig::DischargeConstantCurrent { target_current_ma: 70000, cutoff_voltage_mv: 2500, cutoff_time_min: 0 };
    core.step(RunnerEvent::TestLoaded { test: Some(sample_test(big)) });
    assert!(matches!(
        core.step(RunnerEvent::SessionCreated { session_id: 1 }),
        RunnerAction::Reply { result: Err(RunnerError::ValueOutOfRange) }
    ));
    assert!(matches!(core.state, State::Idle));
}

#[test]
fn refused_requests_change_nothing() {
    let mut core = TestRunnerCore::new();
    assert!(matches!(core.step(RunnerEvent::StopTest), RunnerAction::Reply { result: Err(RunnerError::WrongState) }));
    assert!(matches!(core.step(RunnerEvent::ResumeTest), RunnerAction::Reply { result: Err(RunnerError::WrongState) }));
    assert!(matches!(core.state, State::Idle));
    start(&mut core, sample_test(cc()), 11);
    assert!(matches!(
        core.step(RunnerEvent::StartTest { test_id: 8 }),
        RunnerAction::Reply { result: Err(RunnerError::WrongState) }
    ));
    assert!(matches!(core.step(RunnerEvent::ResumeTest), RunnerAction::Reply { result: Err(RunnerError::WrongState) }));
    assert_eq!(running(&core), Some((7, 11)));
}

#[test]
fn stop_then_resume() {
    let mut core = TestRunnerCore::new();
    start(&mut core, sample_test(cc()), 11);
    assert!(matches!(core.step(RunnerEvent::StopTest), RunnerAction::Reply { result: Ok(()) }));
    match &core.state {
        State::Stopped { test, session_id } => {
            assert_eq!(test.id, 7);
            assert_eq!(*session_id, 11);
        }
        other => panic!("unexpected {:?}", other),
    }
    assert!(matches!(core.step(RunnerEvent::StopTest), RunnerAction::Reply { result: Err(RunnerError::WrongState) }));
    assert!(matches!(
        core.step(RunnerEvent::StartTest { test_id: 7 }),
        RunnerAction::Reply { result: Err(RunnerError::WrongState) }
    ));
    match core.step(RunnerEvent::ResumeTest) {
        RunnerAction::SendDevice { command } => assert_eq!(
            command,
            DeviceCommand { program: Program::Continue, mode: CliMode::DscCc, value1: 20000, value2: 2500, value3: 0 }
        ),
        other => panic!("unexpected {:?}", other),
    }
    assert!(matches!(core.step(RunnerEvent::DeviceAccepted), RunnerAction::Reply { result: Ok(()) }));
    assert_eq!(running(&core), Some((7, 11)));
}

#[test]
fn outside_failure_keeps_state() {
    let mut core = TestRunnerCore::new();
    core.step(RunnerEvent::StartTest { test_id: 7 });
    core.step(RunnerEvent::TestLoaded { test: Some(sample_test(cc())) });
    core.step(RunnerEvent::SessionCreated { session_id: 3 });
    assert!(matches!(core.step(RunnerEvent::OutsideFailed), RunnerAction::ReplyOutsideError));
    assert!(matches!(core.state, State::Idle));
    assert!(!core.is_serving());

    start(&mut core, sample_test(cc()), 4);
    core.step(RunnerEvent::StopTest);
    core.step(RunnerEvent::ResumeTest);
    assert!(matches!(core.step(RunnerEvent::OutsideFailed), RunnerAction::ReplyOutsideError));
    assert!(matches!(core.state, State::Stopped { session_id: 4, .. }));
}

#[test]
fn status_is_not_answered() {
    let mut core = TestRunnerCore::new();
    assert!(matches!(core.step(RunnerEvent::Status), RunnerAction::NoReply));
    assert!(matches!(core.state, State::Idle));
}

#[test]
fn runner_error_messages() {
    assert_eq!(RunnerError::WrongState.message(), "Couldn't resume test, since state is wrong: ");
    assert_eq!(RunnerError::TestNotFound { test_id: 42 }.message(), "Test not found: 42");
    assert_eq!(RunnerError::TestNotFound { test_id: -7 }.message(), "Test not found: -7");
    assert_eq!(
        RunnerError::ValueOutOfRange.message(),
        u16::try_from(70000i64).unwrap_err().to_string()
    );
}
