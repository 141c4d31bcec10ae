//! The decisions of the test runner.
//!
//! The runner takes requests to start, stop and resume a test. Serving a
//! request takes outside work (loading the test, opening a test session,
//! programming the tester); this module decides, from the runner's state and
//! each event, the next state and the next piece of outside work, and the
//! service loop performs that work and reports back how it went.
use vstd::prelude::*;
use crate::device::{command_for_spec, DeviceCommand, Program};
use crate::models::Test;
use crate::numbers::{render_i64, signed_decimal};

verus! {

/// Where the runner stands with its test.
#[derive(Debug)]
pub enum State {
    Idle,
    Running { test: Test, session_id: i64 },
    Stopped { test: Test, session_id: i64 },
    Finished,
}

/// The request that is being served, and how far.
#[derive(Debug)]
pub enum Pending {
    /// No request is being served.
    Nothing,
    /// Start: the test is being loaded.
    LoadingTest { test_id: i64 },
    /// Start: the test was found and a session is being opened for it.
    CreatingSession { test: Test },
    /// Start: the tester is being programmed.
    Starting { test: Test, session_id: i64 },
    /// Resume: the tester is being told to continue.
    Resuming,
}

/// Why the runner refused a request.
#[derive(Debug, Clone, Copy, PartialEq, Eq, Structural)]
pub enum RunnerError {
    /// The request does not fit the runner's state.
    WrongState,
    /// No test is stored under the id.
    TestNotFound { test_id: i64 },
    /// A parameter of the test does not fit the tester.
    ValueOutOfRange,
}

impl RunnerError {
    /// The text that answers a refused request. For `WrongState` the runner's
    /// state follows the text, in its debug form, which the service loop writes.
    pub open spec fn message_spec(self) -> Seq<char> {
        match self {
            RunnerError::WrongState => "Couldn't resume test, since state is wrong: "@,
            RunnerError::TestNotFound { test_id } => "Test not found: "@ + signed_decimal(
                test_id as int,
            ),
            RunnerError::ValueOutOfRange => "out of range integral type conversion attempted"@,
        }
    }

    pub fn message(&self) -> (m: String)
        ensures
            m@ == self.message_spec(),
    {
        match self {
            RunnerError::WrongState => "Couldn't resume test, since state is wrong: ".to_owned(),
            RunnerError::TestNotFound { test_id } => {
                let mut m = "Test not found: ".to_owned();
                let id = render_i64(*test_id);
                m.append(id.as_str());
                m
            },
            RunnerError::ValueOutOfRange => "out of range integral type conversion attempted".to_owned(),
        }
    }
}

/// What happens to the runner: a request, or how the outside work went.
#[derive(Debug)]
pub enum RunnerEvent {
    StartTest { test_id: i64 },
    ResumeTest,
    StopTest,
    Status,
    /// The test that was asked for, if it is stored.
    TestLoaded { test: Option<Test> },
    /// The session that was opened.
    SessionCreated { session_id: i64 },
    /// The tester took the program.
    DeviceAccepted,
    /// The outside work failed; its error is the answer to the request.
    OutsideFailed,
}

/// What the service loop does next.
#[derive(Debug)]
pub enum RunnerAction {
    LoadTest { test_id: i64 },
    CreateSession { test_id: i64, reason: &'static str },
    SendDevice { command: DeviceCommand },
    /// Answer the request.
    Reply { result: Result<(), RunnerError> },
    /// Answer the request with the error of the outside work that just failed.
    ReplyOutsideError,
    /// Leave the request unanswered.
    NoReply,
}

pub open spec fn is_command(event: RunnerEvent) -> bool {
    ||| event is StartTest
    ||| event is ResumeTest
    ||| event is StopTest
    ||| event is Status
}

/// The events that can come next: a request when none is being served, and
/// otherwise the report of the outside work that was asked for.
pub open spec fn accepts(pending: Pending, event: RunnerEvent) -> bool {
    match pending {
        Pending::Nothing => is_command(event),
        Pending::LoadingTest { .. } => event is TestLoaded || event is OutsideFailed,
        Pending::CreatingSession { .. } => event is SessionCreated || event is OutsideFailed,
        Pending::Starting { .. } => event is DeviceAccepted || event is OutsideFailed,
        Pending::Resuming => event is DeviceAccepted || event is OutsideFailed,
    }
}

/// A start is served while the runner is idle or finished, and a resume
/// while it is stopped.
pub open spec fn consistent(state: State, pending: Pending) -> bool {
    match pending {
        Pending::Nothing => true,
        Pending::Resuming => state is Stopped,
        _ => state is Idle || state is Finished,
    }
}

pub open spec fn can_start(state: State) -> bool {
    state is Idle || state is Finished
}

pub open spec fn refuse(state: State) -> (State, Pending, RunnerAction) {
    (state, Pending::Nothing, RunnerAction::Reply { result: Err(RunnerError::WrongState) })
}

/// The next state, request and action after `event`.
pub open spec fn next(state: State, pending: Pending, event: RunnerEvent) -> (
    State,
    Pending,
    RunnerAction,
) {
    match pending {
        Pending::Nothing => match event {
            RunnerEvent::StartTest { test_id } => if can_start(state) {
                (state, Pending::LoadingTest { test_id }, RunnerAction::LoadTest { test_id })
            } else {
                refuse(state)
            },
            RunnerEvent::ResumeTest => match state {
                State::Stopped { test, session_id } => match command_for_spec(
                    Program::Continue,
                    test.config,
                ) {
                    Ok(command) => (state, Pending::Resuming, RunnerAction::SendDevice { command }),
                    Err(_) => (
                        state,
                        Pending::Nothing,
                        RunnerAction::Reply { result: Err(RunnerError::ValueOutOfRange) },
                    ),
                },
                _ => refuse(state),
            },
            RunnerEvent::StopTest => match state {
                State::Running { test, session_id } => (
                    State::Stopped { test, session_id },
                    Pending::Nothing,
                    RunnerAction::Reply { result: Ok(()) },
                ),
                _ => refuse(state),
            },
            _ => (state, Pending::Nothing, RunnerAction::NoReply),
        },
        Pending::LoadingTest { test_id } => match event {
            RunnerEvent::TestLoaded { test } => match test {
                Some(test) => (
                    state,
                    Pending::CreatingSession { test },
                    RunnerAction::CreateSession { test_id, reason: "started" },
                ),
                None => (
                    state,
                    Pending::Nothing,
                    RunnerAction::Reply { result: Err(RunnerError::TestNotFound { test_id }) },
                ),
            },
            RunnerEvent::OutsideFailed => (state, Pending::Nothing, RunnerAction::ReplyOutsideError),
            _ => (state, pending, RunnerAction::NoReply),
        },
        Pending::CreatingSession { test } => match event {
            RunnerEvent::SessionCreated { session_id } => match command_for_spec(
                Program::Start,
                test.config,
            ) {
                Ok(command) => (
                    state,
                    Pending::Starting { test, session_id },
                    RunnerAction::SendDevice { command },
                ),
                Err(_) => (
                    state,
                    Pending::Nothing,
                    RunnerAction::Reply { result: Err(RunnerError::ValueOutOfRange) },
                ),
            },
            RunnerEvent::OutsideFailed => (state, Pending::Nothing, RunnerAction::ReplyOutsideError),
            _ => (state, Pending::CreatingSession { test }, RunnerAction::NoReply),
        },
        Pending::Starting { test, session_id } => match event {
            RunnerEvent::DeviceAccepted => (
                State::Running { test, session_id },
                Pending::Nothing,
                RunnerAction::Reply { result: Ok(()) },
            ),
            RunnerEvent::OutsideFailed => (state, Pending::Nothing, RunnerAction::ReplyOutsideError),
            _ => (state, Pending::Starting { test, session_id }, RunnerAction::NoReply),
        },
        Pending::Resuming => match event {
            RunnerEvent::DeviceAccepted => match state {
                State::Stopped { test, session_id } => (
                    State::Running { test, session_id },
                    Pending::Nothing,
                    RunnerAction::Reply { result: Ok(()) },
                ),
                _ => (state, Pending::Nothing, RunnerAction::NoReply),
            },
            RunnerEvent::OutsideFailed => (state, Pending::Nothing, RunnerAction::ReplyOutsideError),
            _ => (state, Pending::Resuming, RunnerAction::NoReply),
        },
    }
}

/// The runner's decisions: its state and the request it is serving.
pub struct TestRunnerCore {
    pub state: State,
    pub pending: Pending,
}

impl TestRunnerCore {
    pub open spec fn wf(&self) -> bool {
        consistent(self.state, self.pending)
    }

    /// A runner that is idle and serves no request.
    pub fn new() -> (core: TestRunnerCore)
        ensures
            core.state is Idle,
            core.pending is Nothing,
            core.wf(),
    {
        TestRunnerCore { state: State::Idle, pending: Pending::Nothing }
    }

    /// Whether the runner waits for a request (rather than for outside work).
    pub fn is_serving(&self) -> (b: bool)
        ensures
            b == !(self.pending is Nothing),
    {
        match self.pending {
            Pending::Nothing => false,
            _ => true,
        }
    }

    /// Takes `event` and gives the outside work to do, or the answer.
    pub fn step(&mut self, event: RunnerEvent) -> (action: RunnerAction)
        requires
            old(self).wf(),
            accepts(old(self).pending, event),
        ensures
            final(self).wf(),
            (final(self).state, final(self).pending, action) == next(
                old(self).state,
                old(self).pending,
                event,
            ),
    {
        let mut pending = Pending::Nothing;
        std::mem::swap(&mut pending, &mut self.pending);
        match pending {
            Pending::Nothing => match event {
                RunnerEvent::StartTest { test_id } => {
                    let startable = match self.state {
                        State::Idle => true,
                        State::Finished => true,
                        _ => false,
                    };
                    if startable {
                        self.pending = Pending::LoadingTest { test_id };
                        RunnerAction::LoadTest { test_id }
                    } else {
                        RunnerAction::Reply { result: Err(RunnerError::WrongState) }
                    }
                },
                RunnerEvent::ResumeTest => {
                    let found = match &self.state {
                        State::Stopped { test, .. } => Some(
                            DeviceCommand::for_config(Program::Continue, &test.config),
                        ),
                        _ => None,
                    };
                    match found {
                        Some(Ok(command)) => {
                            self.pending = Pending::Resuming;
                            RunnerAction::SendDevice { command }
                        },
                        Some(Err(_)) => RunnerAction::Reply {
                            result: Err(RunnerError::ValueOutOfRange),
                        },
                        None => RunnerAction::Reply { result: Err(RunnerError::WrongState) },
                    }
                },
                RunnerEvent::StopTest => {
                    let mut state = State::Idle;
                    std::mem::swap(&mut state, &mut self.state);
                    match state {
                        State::Running { test, session_id } => {
                            self.state = State::Stopped { test, session_id };
                            RunnerAction::Reply { result: Ok(()) }
                        },
                        other => {
                            self.state = other;
                            RunnerAction::Reply { result: Err(RunnerError::WrongState) }
                        },
                    }
                },
                _ => RunnerAction::NoReply,
            },
            Pending::LoadingTest { test_id } => match event {
                RunnerEvent::TestLoaded { test } => match test {
                    Some(test) => {
                        self.pending = Pending::CreatingSession { test };
                        RunnerAction::CreateSession { test_id, reason: "started" }
                    },
                    None => RunnerAction::Reply {
                        result: Err(RunnerError::TestNotFound { test_id }),
                    },
                },
                RunnerEvent::OutsideFailed => RunnerAction::ReplyOutsideError,
                _ => {
                    self.pending = Pending::LoadingTest { test_id };
                    RunnerAction::NoReply
                },
            },
            Pending::CreatingSession { test } => match event {
                RunnerEvent::SessionCreated { session_id } => {
                    match DeviceCommand::for_config(Program::Start, &test.config) {
                        Ok(command) => {
                            self.pending = Pending::Starting { test, session_id };
                            RunnerAction::SendDevice { command }
                        },
                        Err(_) => RunnerAction::Reply { result: Err(RunnerError::ValueOutOfRange) },
                    }
                },
                RunnerEvent::OutsideFailed => RunnerAction::ReplyOutsideError,
                _ => {
                    self.pending = Pending::CreatingSession { test };
                    RunnerAction::NoReply
                },
            },
            Pending::Starting { test, session_id } => match event {
                RunnerEvent::DeviceAccepted => {
                    self.state = State::Running { test, session_id };
                    RunnerAction::Reply { result: Ok(()) }
                },
                RunnerEvent::OutsideFailed => RunnerAction::ReplyOutsideError,
                _ => {
                    self.pending = Pending::Starting { test, session_id };
                    RunnerAction::NoReply
                },
            },
            Pending::Resuming => match event {
                RunnerEvent::DeviceAccepted => {
                    let mut state = State::Idle;
                    std::mem::swap(&mut state, &mut self.state);
                    match state {
                        State::Stopped { test, session_id } => {
                            self.state = State::Running { test, session_id };
                            RunnerAction::Reply { result: Ok(()) }
                        },
                        other => {
                            self.state = other;
                            RunnerAction::NoReply
                        },
                    }
                },
                RunnerEvent::OutsideFailed => RunnerAction::ReplyOutsideError,
                _ => {
                    self.pending = Pending::Resuming;
                    RunnerAction::NoReply
                },
            },
        }
    }
}

/// A request that does not fit the runner's state is answered with
/// `WrongState` and changes nothing: start needs an idle or finished runner,
/// resume a stopped one and stop a running one.
pub proof fn lemma_refused_request_changes_nothing(state: State, event: RunnerEvent)
    requires
        event is StartTest ==> !can_start(state),
        event is ResumeTest ==> !(state is Stopped),
        event is StopTest ==> !(state is Running),
        event is StartTest || event is ResumeTest || event is StopTest,
    ensures
        next(state, Pending::Nothing, event) == refuse(state),
{
}

/// Starting a test from an idle or finished runner loads the test, opens a
/// session for it, programs the tester and, once the tester takes the
/// program, runs that test in that session.
pub proof fn lemma_start_runs_the_test(state: State, test_id: i64, test: Test, session_id: i64)
    requires
        can_start(state),
        command_for_spec(Program::Start, test.config) is Ok,
    ensures
        ({
            let (s1, p1, a1) = next(state, Pending::Nothing, RunnerEvent::StartTest { test_id });
            let (s2, p2, a2) = next(s1, p1, RunnerEvent::TestLoaded { test: Some(test) });
            let (s3, p3, a3) = next(s2, p2, RunnerEvent::SessionCreated { session_id });
            let (s4, p4, a4) = next(s3, p3, RunnerEvent::DeviceAccepted);
            &&& a1 == RunnerAction::LoadTest { test_id }
            &&& a2 == RunnerAction::CreateSession { test_id, reason: "started" }
            &&& a3 == RunnerAction::SendDevice {
                command: command_for_spec(Program::Start, test.config)->Ok_0,
            }
            &&& a4 == RunnerAction::Reply { result: Ok(()) }
            &&& s1 == state && s2 == state && s3 == state
            &&& s4 == State::Running { test, session_id }
            &&& p4 is Nothing
        }),
{
}

/// A test that is not stored is answered with `TestNotFound`, and the runner
/// stays as it was.
pub proof fn lemma_missing_test_is_refused(state: State, test_id: i64)
    requires
        can_start(state),
    ensures
        ({
            let (s1, p1, a1) = next(state, Pending::Nothing, RunnerEvent::StartTest { test_id });
            next(s1, p1, RunnerEvent::TestLoaded { test: None }) == (
                state,
                Pending::Nothing,
                RunnerAction::Reply { result: Err(RunnerError::TestNotFound { test_id }) },
            )
        }),
{
}

/// Stopping keeps the test and its session, and resuming runs them again.
pub proof fn lemma_stop_then_resume(test: Test, session_id: i64)
    requires
        command_for_spec(Program::Continue, test.config) is Ok,
    ensures
        ({
            let running = State::Running { test, session_id };
            let (s1, p1, a1) = next(running, Pending::Nothing, RunnerEvent::StopTest);
            let (s2, p2, a2) = next(s1, p1, RunnerEvent::ResumeTest);
            let (s3, p3, a3) = next(s2, p2, RunnerEvent::DeviceAccepted);
            &&& s1 == State::Stopped { test, session_id }
            &&& a1 == RunnerAction::Reply { result: Ok(()) }
            &&& a2 == RunnerAction::SendDevice {
                command: command_for_spec(Program::Continue, test.config)->Ok_0,
            }
            &&& s3 == running
            &&& p3 is Nothing
            &&& a3 == RunnerAction::Reply { result: Ok(()) }
        }),
{
}

/// When outside work fails, its error answers the request and the runner is
/// left in the state it had before the request.
pub proof fn lemma_failure_keeps_state(state: State, pending: Pending)
    requires
        !(pending is Nothing),
    ensures
        next(state, pending, RunnerEvent::OutsideFailed) == (
            state,
            Pending::Nothing,
            RunnerAction::ReplyOutsideError,
        ),
{
}

/// The state changes only when the tester took a program (the runner then
/// runs) or when a running test is stopped; every step keeps the state and
/// the request consistent.
pub proof fn lemma_state_changes(state: State, pending: Pending, event: RunnerEvent)
    requires
        consistent(state, pending),
        accepts(pending, event),
    ensures
        ({
            let (s, p, a) = next(state, pending, event);
            &&& consistent(s, p)
            &&& s != state ==> (event is DeviceAccepted && s is Running) || (event is StopTest
                && state is Running && s is Stopped)
        }),
{
}

/// The status request is never answered and changes nothing.
pub proof fn lemma_status_is_silent(state: State)
    ensures
        next(state, Pending::Nothing, RunnerEvent::Status) == (
            state,
            Pending::Nothing,
            RunnerAction::NoReply,
        ),
{
}

} // verus!
