//! The command line grammar of the hub's interactive console.
//!
//! A line is split into words at white space; the words then make one of
//! the commands below. Numbers are read with the grammar of `numbers`; the
//! first word that does not read makes the line an error, reported with the
//! word's position.
use vstd::prelude::*;
use crate::device::Program;
use crate::models::{CliMode, TestConfig};
use crate::numbers::{IntErrorKind, parse_i64, parse_u16, parse_usize, spec_parse_i64, spec_parse_u16, spec_parse_usize};
use crate::words::{same_text, views_of};

verus! {

/// A console command. `S` is the type of the words it carries: `String`
/// when parsed, `Seq<char>` in specifications.
#[derive(Debug, Clone)]
pub enum Command<S> {
    /// `quit` or `exit`.
    Quit,
    /// `help`.
    Help,
    /// A line without words.
    Empty,
    /// A line that is no command.
    Unknown,
    /// `connect <id>`.
    Connect { id: usize },
    /// `disconnect <id>`.
    Disconnect { id: usize },
    /// `status <id>`.
    Status { id: usize },
    /// `stop <id>`.
    Stop { id: usize },
    /// `start|adjust|continue <id> <mode> <value1> <value2> <value3>`.
    Program { program: Program, id: usize, mode: CliMode, value1: u16, value2: u16, value3: u16 },
    /// `battery-type list`.
    ListBatteryTypes,
    /// `battery-type add <manufacturer> <model> <chemistry> <nominal_voltage_mv>
    /// <nominal_capacity_mah> [<charge_termination_voltage_mv> <discharge_cutoff_voltage_mv>]`:
    /// the two cut-off voltages are given together or not at all.
    AddBatteryType {
        manufacturer: S,
        model: S,
        chemistry: S,
        nominal_voltage_mv: i64,
        nominal_capacity_mah: i64,
        charge_termination_voltage_mv: Option<i64>,
        discharge_cutoff_voltage_mv: Option<i64>,
    },
    /// `battery add <battery_id> <battery_type_id>`.
    AddBattery { battery_id: S, battery_type_id: i64 },
    /// `battery list`.
    ListBatteries,
    /// `battery show <battery_id>`.
    ShowBattery { battery_id: S },
    /// `battery-intake show <battery_id>`.
    ShowIntake { battery_id: S },
    /// `battery-intake set <battery_id> <voltage_mv> <resistance_uohm>`.
    SetIntake { battery_id: S, voltage_mv: i64, resistance_uohm: i64 },
    /// `test create <battery_id> <device_id> <mode> <voltage_before_test_mv> <value1>
    /// <value2> <value3>` with a known mode.
    CreateTest {
        battery_id: S,
        device_id: S,
        mode: S,
        voltage_before_test_mv: i64,
        config: TestConfig,
    },
    /// `test create ...` naming a mode that is not stored.
    UnknownTestMode { mode: S },
    /// `test list`.
    ListTests,
    /// `test show <test_id>`.
    ShowTest { id: i64 },
    /// `test approve <test_id>`.
    ApproveTest { id: i64 },
    /// `test delete <test_id>`.
    DeleteTest { id: i64 },
    /// `session create <test_id> [reason]`.
    CreateSession { test_id: i64, reason: Option<S> },
    /// `session end <session_id>`.
    EndSession { session_id: i64 },
    /// `session list <test_id>`.
    ListSessions { test_id: i64 },
    /// `sample append <session_id> <elapsed_ms> <voltage_mv> <current_ma>
    /// <capacity_mah> [energy_mwh]`.
    AppendSample {
        session_id: i64,
        elapsed_ms: i64,
        voltage_mv: i64,
        current_ma: i64,
        capacity_mah: i64,
        energy_mwh: Option<i64>,
    },
    /// `sample list <session_id>`.
    ListSamples { session_id: i64 },
}

/// What is wrong with a word of a command line.
#[derive(Debug, Clone, Copy, PartialEq, Eq, Structural)]
pub enum CommandErrorKind {
    /// The word is not a number of the expected type.
    BadNumber { kind: IntErrorKind },
    /// The word names no program kind.
    UnknownMode,
}

/// The first word of a command line that could not be read.
#[derive(Debug, Clone, Copy, PartialEq, Eq, Structural)]
pub struct CommandError {
    pub position: usize,
    pub kind: CommandErrorKind,
}

pub open spec fn opt_view(o: Option<String>) -> Option<Seq<char>> {
    match o {
        Some(s) => Some(s@),
        None => None,
    }
}

impl View for Command<String> {
    type V = Command<Seq<char>>;

    open spec fn view(&self) -> Command<Seq<char>> {
        match *self {
            Command::Quit => Command::Quit,
            Command::Help => Command::Help,
            Command::Empty => Command::Empty,
            Command::Unknown => Command::Unknown,
            Command::Connect { id } => Command::Connect { id },
            Command::Disconnect { id } => Command::Disconnect { id },
            Command::Status { id } => Command::Status { id },
            Command::Stop { id } => Command::Stop { id },
            Command::Program { program, id, mode, value1, value2, value3 } => Command::Program {
                program,
                id,
                mode,
                value1,
                value2,
                value3,
            },
            Command::ListBatteryTypes => Command::ListBatteryTypes,
            Command::AddBatteryType {
                manufacturer,
                model,
                chemistry,
                nominal_voltage_mv,
                nominal_capacity_mah,
                charge_termination_voltage_mv,
                discharge_cutoff_voltage_mv,
            } => Command::AddBatteryType {
                manufacturer: manufacturer@,
                model: model@,
                chemistry: chemistry@,
                nominal_voltage_mv,
                nominal_capacity_mah,
                charge_termination_voltage_mv,
                discharge_cutoff_voltage_mv,
            },
            Command::AddBattery { battery_id, battery_type_id } => Command::AddBattery {
                battery_id: battery_id@,
                battery_type_id,
            },
            Command::ListBatteries => Command::ListBatteries,
            Command::ShowBattery { battery_id } => Command::ShowBattery { battery_id: battery_id@ },
            Command::ShowIntake { battery_id } => Command::ShowIntake { battery_id: battery_id@ },
            Command::SetIntake { battery_id, voltage_mv, resistance_uohm } => Command::SetIntake {
                battery_id: battery_id@,
                voltage_mv,
                resistance_uohm,
            },
            Command::CreateTest {
                battery_id,
                device_id,
                mode,
                voltage_before_test_mv,
                config,
            } => Command::CreateTest {
                battery_id: battery_id@,
                device_id: device_id@,
                mode: mode@,
                voltage_before_test_mv,
                config,
            },
            Command::UnknownTestMode { mode } => Command::UnknownTestMode { mode: mode@ },
            Command::ListTests => Command::ListTests,
            Command::ShowTest { id } => Command::ShowTest { id },
            Command::ApproveTest { id } => Command::ApproveTest { id },
            Command::DeleteTest { id } => Command::DeleteTest { id },
            Command::CreateSession { test_id, reason } => Command::CreateSession {
                test_id,
                reason: opt_view(reason),
            },
            Command::EndSession { session_id } => Command::EndSession { session_id },
            Command::ListSessions { test_id } => Command::ListSessions { test_id },
            Command::AppendSample {
                session_id,
                elapsed_ms,
                voltage_mv,
                current_ma,
                capacity_mah,
                energy_mwh,
            } => Command::AppendSample {
                session_id,
                elapsed_ms,
                voltage_mv,
                current_ma,
                capacity_mah,
                energy_mwh,
            },
            Command::ListSamples { session_id } => Command::ListSamples { session_id },
        }
    }
}

pub open spec fn parsed_view(r: Result<Command<String>, CommandError>) -> Result<
    Command<Seq<char>>,
    CommandError,
> {
    match r {
        Ok(c) => Ok(c@),
        Err(e) => Err(e),
    }
}

pub open spec fn bad_number(position: int, kind: IntErrorKind) -> CommandError {
    CommandError { position: position as usize, kind: CommandErrorKind::BadNumber { kind } }
}

/// Word `pos` read as an `i64`.
pub open spec fn i64_at(w: Seq<Seq<char>>, pos: int) -> Result<i64, CommandError> {
    match spec_parse_i64(w[pos]) {
        Ok(v) => Ok(v),
        Err(k) => Err(bad_number(pos, k)),
    }
}

/// Word `pos` read as a `u16`.
pub open spec fn u16_at(w: Seq<Seq<char>>, pos: int) -> Result<u16, CommandError> {
    match spec_parse_u16(w[pos]) {
        Ok(v) => Ok(v),
        Err(k) => Err(bad_number(pos, k)),
    }
}

/// Word `pos` read as a `usize`.
pub open spec fn usize_at(w: Seq<Seq<char>>, pos: int) -> Result<usize, CommandError> {
    match spec_parse_usize(w[pos]) {
        Ok(v) => Ok(v),
        Err(k) => Err(bad_number(pos, k)),
    }
}

/// The commands that address a tester by its number.
pub open spec fn device_spec(w: Seq<Seq<char>>) -> Result<Command<Seq<char>>, CommandError> {
    if w.len() == 2 && (w[0] == "connect"@ || w[0] == "disconnect"@ || w[0] == "status"@ || w[0]
        == "stop"@) {
        match usize_at(w, 1) {
            Err(e) => Err(e),
            Ok(id) => Ok(
                if w[0] == "connect"@ {
                    Command::Connect { id }
                } else if w[0] == "disconnect"@ {
                    Command::Disconnect { id }
                } else if w[0] == "status"@ {
                    Command::Status { id }
                } else {
                    Command::Stop { id }
                },
            ),
        }
    } else if w.len() == 6 && (w[0] == "start"@ || w[0] == "adjust"@ || w[0] == "continue"@) {
        let program = if w[0] == "start"@ {
            Program::Start
        } else if w[0] == "adjust"@ {
            Program::Adjust
        } else {
            Program::Continue
        };
        match usize_at(w, 1) {
            Err(e) => Err(e),
            Ok(id) => match CliMode::named_spec(w[2]) {
                None => Err(CommandError { position: 2, kind: CommandErrorKind::UnknownMode }),
                Some(mode) => match u16_at(w, 3) {
                    Err(e) => Err(e),
                    Ok(value1) => match u16_at(w, 4) {
                        Err(e) => Err(e),
                        Ok(value2) => match u16_at(w, 5) {
                            Err(e) => Err(e),
                            Ok(value3) => Ok(
                                Command::Program { program, id, mode, value1, value2, value3 },
                            ),
                        },
                    },
                },
            },
        }
    } else {
        Ok(Command::Unknown)
    }
}

/// The two cut-off voltages of `battery-type add`: words 7 and 8 where the
/// line has nine words, none where it has seven.
pub open spec fn cutoffs_at(w: Seq<Seq<char>>) -> Result<(Option<i64>, Option<i64>), CommandError> {
    if w.len() == 9 {
        match i64_at(w, 7) {
            Err(e) => Err(e),
            Ok(charge) => match i64_at(w, 8) {
                Err(e) => Err(e),
                Ok(discharge) => Ok((Some(charge), Some(discharge))),
            },
        }
    } else {
        Ok((None, None))
    }
}

/// `battery-type ...`, `battery ...` and `battery-intake ...`.
pub open spec fn battery_spec(w: Seq<Seq<char>>) -> Result<Command<Seq<char>>, CommandError> {
    if w.len() == 2 && w[0] == "battery-type"@ && w[1] == "list"@ {
        Ok(Command::ListBatteryTypes)
    } else if (w.len() == 7 || w.len() == 9) && w[0] == "battery-type"@ && w[1] == "add"@ {
        match i64_at(w, 5) {
            Err(e) => Err(e),
            Ok(nominal_voltage_mv) => match i64_at(w, 6) {
                Err(e) => Err(e),
                Ok(nominal_capacity_mah) => match cutoffs_at(w) {
                    Err(e) => Err(e),
                    Ok((charge_termination_voltage_mv, discharge_cutoff_voltage_mv)) => Ok(
                        Command::AddBatteryType {
                            manufacturer: w[2],
                            model: w[3],
                            chemistry: w[4],
                            nominal_voltage_mv,
                            nominal_capacity_mah,
                            charge_termination_voltage_mv,
                            discharge_cutoff_voltage_mv,
                        },
                    ),
                },
            },
        }
    } else if w.len() == 4 && w[0] == "battery"@ && w[1] == "add"@ {
        match i64_at(w, 3) {
            Err(e) => Err(e),
            Ok(battery_type_id) => Ok(Command::AddBattery { battery_id: w[2], battery_type_id }),
        }
    } else if w.len() == 2 && w[0] == "battery"@ && w[1] == "list"@ {
        Ok(Command::ListBatteries)
    } else if w.len() == 3 && w[0] == "battery"@ && w[1] == "show"@ {
        Ok(Command::ShowBattery { battery_id: w[2] })
    } else if w.len() == 3 && w[0] == "battery-intake"@ && w[1] == "show"@ {
        Ok(Command::ShowIntake { battery_id: w[2] })
    } else if w.len() == 5 && w[0] == "battery-intake"@ && w[1] == "set"@ {
        match i64_at(w, 3) {
            Err(e) => Err(e),
            Ok(voltage_mv) => match i64_at(w, 4) {
                Err(e) => Err(e),
                Ok(resistance_uohm) => Ok(
                    Command::SetIntake { battery_id: w[2], voltage_mv, resistance_uohm },
                ),
            },
        }
    } else {
        Ok(Command::Unknown)
    }
}

/// `test ...`. The three values and the voltage before the test are read
/// before the mode is looked at; a mode that is not stored makes no error but
/// a command of its own.
pub open spec fn test_spec(w: Seq<Seq<char>>) -> Result<Command<Seq<char>>, CommandError> {
    if w.len() == 9 && w[0] == "test"@ && w[1] == "create"@ {
        match i64_at(w, 6) {
            Err(e) => Err(e),
            Ok(value1) => match i64_at(w, 7) {
                Err(e) => Err(e),
                Ok(value2) => match i64_at(w, 8) {
                    Err(e) => Err(e),
                    Ok(value3) => match i64_at(w, 5) {
                        Err(e) => Err(e),
                        Ok(voltage_before_test_mv) => match CliMode::from_acronym_spec(w[4]) {
                            None => Ok(Command::UnknownTestMode { mode: w[4] }),
                            Some(mode) => Ok(
                                Command::CreateTest {
                                    battery_id: w[2],
                                    device_id: w[3],
                                    mode: w[4],
                                    voltage_before_test_mv,
                                    config: TestConfig::from_values_spec(mode, value1, value2, value3),
                                },
                            ),
                        },
                    },
                },
            },
        }
    } else if w.len() == 2 && w[0] == "test"@ && w[1] == "list"@ {
        Ok(Command::ListTests)
    } else if w.len() == 3 && w[0] == "test"@ && (w[1] == "show"@ || w[1] == "approve"@ || w[1]
        == "delete"@) {
        match i64_at(w, 2) {
            Err(e) => Err(e),
            Ok(id) => Ok(
                if w[1] == "show"@ {
                    Command::ShowTest { id }
                } else if w[1] == "approve"@ {
                    Command::ApproveTest { id }
                } else {
                    Command::DeleteTest { id }
                },
            ),
        }
    } else {
        Ok(Command::Unknown)
    }
}

/// `session ...`.
pub open spec fn session_spec(w: Seq<Seq<char>>) -> Result<Command<Seq<char>>, CommandError> {
    if (w.len() == 3 || w.len() == 4) && w[0] == "session"@ && w[1] == "create"@ {
        match i64_at(w, 2) {
            Err(e) => Err(e),
            Ok(test_id) => Ok(
                Command::CreateSession {
                    test_id,
                    reason: if w.len() == 4 {
                        Some(w[3])
                    } else {
                        None
                    },
                },
            ),
        }
    } else if w.len() == 3 && w[0] == "session"@ && (w[1] == "end"@ || w[1] == "list"@) {
        match i64_at(w, 2) {
            Err(e) => Err(e),
            Ok(id) => Ok(
                if w[1] == "end"@ {
                    Command::EndSession { session_id: id }
                } else {
                    Command::ListSessions { test_id: id }
                },
            ),
        }
    } else {
        Ok(Command::Unknown)
    }
}

/// `sample ...`.
pub open spec fn sample_spec(w: Seq<Seq<char>>) -> Result<Command<Seq<char>>, CommandError> {
    if (w.len() == 7 || w.len() == 8) && w[0] == "sample"@ && w[1] == "append"@ {
        match i64_at(w, 2) {
            Err(e) => Err(e),
            Ok(session_id) => match i64_at(w, 3) {
                Err(e) => Err(e),
                Ok(elapsed_ms) => match i64_at(w, 4) {
                    Err(e) => Err(e),
                    Ok(voltage_mv) => match i64_at(w, 5) {
                        Err(e) => Err(e),
                        Ok(current_ma) => match i64_at(w, 6) {
                            Err(e) => Err(e),
                            Ok(capacity_mah) => if w.len() == 8 {
                                match i64_at(w, 7) {
                                    Err(e) => Err(e),
                                    Ok(energy) => Ok(
                                        Command::AppendSample {
                                            session_id,
                                            elapsed_ms,
                                            voltage_mv,
                                            current_ma,
                                            capacity_mah,
                                            energy_mwh: Some(energy),
                                        },
                                    ),
                                }
                            } else {
                                Ok(
                                    Command::AppendSample {
                                        session_id,
                                        elapsed_ms,
                                        voltage_mv,
                                        current_ma,
                                        capacity_mah,
                                        energy_mwh: None,
                                    },
                                )
                            },
                        },
                    },
                },
            },
        }
    } else if w.len() == 3 && w[0] == "sample"@ && w[1] == "list"@ {
        match i64_at(w, 2) {
            Err(e) => Err(e),
            Ok(session_id) => Ok(Command::ListSamples { session_id }),
        }
    } else {
        Ok(Command::Unknown)
    }
}

/// The command that the words `w` of a line make.
pub open spec fn command_spec(w: Seq<Seq<char>>) -> Result<Command<Seq<char>>, CommandError> {
    if w.len() == 0 {
        Ok(Command::Empty)
    } else if w.len() == 1 && (w[0] == "quit"@ || w[0] == "exit"@) {
        Ok(Command::Quit)
    } else if w.len() == 1 && w[0] == "help"@ {
        Ok(Command::Help)
    } else if w[0] == "battery-type"@ || w[0] == "battery"@ || w[0] == "battery-intake"@ {
        battery_spec(w)
    } else if w[0] == "test"@ {
        test_spec(w)
    } else if w[0] == "session"@ {
        session_spec(w)
    } else if w[0] == "sample"@ {
        sample_spec(w)
    } else {
        device_spec(w)
    }
}

/// The text of the standard library's message for a number error.
pub open spec fn int_error_text(kind: IntErrorKind) -> Seq<char> {
    match kind {
        IntErrorKind::Empty => "cannot parse integer from empty string"@,
        IntErrorKind::InvalidDigit => "invalid digit found in string"@,
        IntErrorKind::PosOverflow => "number too large to fit in target type"@,
        IntErrorKind::NegOverflow => "number too small to fit in target type"@,
    }
}

/// The message that reports `e` for the words `w` of a line.
pub open spec fn error_message(e: CommandError, w: Seq<Seq<char>>) -> Seq<char> {
    match e.kind {
        CommandErrorKind::BadNumber { kind } => int_error_text(kind),
        CommandErrorKind::UnknownMode => "Unknown mode: "@ + if e.position < w.len() {
            w[e.position as int]
        } else {
            Seq::empty()
        },
    }
}

impl CommandError {
    /// The message for this error on the line with the words `words`: that of
    /// the number error, or `Unknown mode: ` and the word.
    pub fn message(&self, words: &Vec<String>) -> (m: String)
        ensures
            m@ == error_message(*self, views_of(words@)),
    {
        match self.kind {
            CommandErrorKind::BadNumber { kind } => match kind {
                IntErrorKind::Empty => "cannot parse integer from empty string".to_owned(),
                IntErrorKind::InvalidDigit => "invalid digit found in string".to_owned(),
                IntErrorKind::PosOverflow => "number too large to fit in target type".to_owned(),
                IntErrorKind::NegOverflow => "number too small to fit in target type".to_owned(),
            },
            CommandErrorKind::UnknownMode => {
                let mut m = "Unknown mode: ".to_owned();
                if self.position < words.len() {
                    m.append(words[self.position].as_str());
                } else {
                    assert(m@ + Seq::<char>::empty() =~= m@);
                }
                m
            },
        }
    }
}

/// A tester program read from the console is the one its words name: the
/// verb of word 0, the tester number of word 1, the kind of word 2, and the
/// three values of words 3, 4 and 5 in that order.
pub proof fn lemma_program_words(w: Seq<Seq<char>>)
    requires
        command_spec(w) matches Ok(Command::Program { .. }),
    ensures
        command_spec(w) matches Ok(Command::Program { program, id, mode, value1, value2, value3 }) && {
            &&& w.len() == 6
            &&& w[0] == program.verb_spec()
            &&& spec_parse_usize(w[1]) == Ok::<usize, IntErrorKind>(id)
            &&& CliMode::named_spec(w[2]) == Some(mode)
            &&& spec_parse_u16(w[3]) == Ok::<u16, IntErrorKind>(value1)
            &&& spec_parse_u16(w[4]) == Ok::<u16, IntErrorKind>(value2)
            &&& spec_parse_u16(w[5]) == Ok::<u16, IntErrorKind>(value3)
        },
{
    assert(!(battery_spec(w) matches Ok(Command::Program { .. })));
    assert(!(test_spec(w) matches Ok(Command::Program { .. })));
    assert(!(session_spec(w) matches Ok(Command::Program { .. })));
    assert(!(sample_spec(w) matches Ok(Command::Program { .. })));
}

/// A line of six words whose first is a program verb, whose second is a
/// tester number, whose third names a kind and whose last three are 16-bit
/// values is read as that program with those values in order.
pub proof fn lemma_program_line(program: Program, w: Seq<Seq<char>>)
    requires
        w.len() == 6,
        w[0] == program.verb_spec(),
        spec_parse_usize(w[1]) is Ok,
        CliMode::named_spec(w[2]) is Some,
        spec_parse_u16(w[3]) is Ok,
        spec_parse_u16(w[4]) is Ok,
        spec_parse_u16(w[5]) is Ok,
    ensures
        command_spec(w) == Ok::<Command<Seq<char>>, CommandError>(
            Command::Program {
                program,
                id: spec_parse_usize(w[1])->Ok_0,
                mode: CliMode::named_spec(w[2])->Some_0,
                value1: spec_parse_u16(w[3])->Ok_0,
                value2: spec_parse_u16(w[4])->Ok_0,
                value3: spec_parse_u16(w[5])->Ok_0,
            },
        ),
{
    reveal_strlit("start");
    reveal_strlit("adjust");
    reveal_strlit("continue");
    reveal_strlit("connect");
    reveal_strlit("disconnect");
    reveal_strlit("status");
    reveal_strlit("stop");
    reveal_strlit("battery-type");
    reveal_strlit("battery");
    reveal_strlit("battery-intake");
    reveal_strlit("test");
    reveal_strlit("session");
    reveal_strlit("sample");
    assert("adjust"@[0] != "sample"@[0]);
    assert("start"@[2] != "stop"@[2]);
    assert("start"@[1] != "adjust"@[1] && "start"@[0] != "continue"@[0]);
    assert("adjust"@[0] != "continue"@[0]);
}

/// A sample read from the console carries the session, time, voltage, current
/// and capacity of words 2 to 6, and an energy exactly where a seventh value
/// follows: the optional energy changes no other field.
pub proof fn lemma_sample_words(w: Seq<Seq<char>>)
    requires
        command_spec(w) matches Ok(Command::AppendSample { .. }),
    ensures
        command_spec(w) matches Ok(
            Command::AppendSample {
                session_id,
                elapsed_ms,
                voltage_mv,
                current_ma,
                capacity_mah,
                energy_mwh,
            },
        ) && {
            &&& w.len() == 7 || w.len() == 8
            &&& spec_parse_i64(w[2]) == Ok::<i64, IntErrorKind>(session_id)
            &&& spec_parse_i64(w[3]) == Ok::<i64, IntErrorKind>(elapsed_ms)
            &&& spec_parse_i64(w[4]) == Ok::<i64, IntErrorKind>(voltage_mv)
            &&& spec_parse_i64(w[5]) == Ok::<i64, IntErrorKind>(current_ma)
            &&& spec_parse_i64(w[6]) == Ok::<i64, IntErrorKind>(capacity_mah)
            &&& w.len() == 7 ==> energy_mwh is None
            &&& w.len() == 8 ==> (spec_parse_i64(w[7]) matches Ok(e) && energy_mwh == Some(e))
        },
{
    assert(!(battery_spec(w) matches Ok(Command::AppendSample { .. })));
    assert(!(test_spec(w) matches Ok(Command::AppendSample { .. })));
    assert(!(session_spec(w) matches Ok(Command::AppendSample { .. })));
    assert(!(device_spec(w) matches Ok(Command::AppendSample { .. })));
}

/// A test created on the console has the battery, device and mode of words 2,
/// 3 and 4, the voltage of word 5, and the parameters of words 6, 7 and 8 in
/// the fields of its kind, in their declared order.
pub proof fn lemma_create_test_words(w: Seq<Seq<char>>)
    requires
        command_spec(w) matches Ok(Command::CreateTest { .. }),
    ensures
        command_spec(w) matches Ok(
            Command::CreateTest { battery_id, device_id, mode, voltage_before_test_mv, config },
        ) && {
            &&& w.len() == 9
            &&& battery_id == w[2] && device_id == w[3] && mode == w[4]
            &&& spec_parse_i64(w[5]) == Ok::<i64, IntErrorKind>(voltage_before_test_mv)
            &&& match config {
                TestConfig::DischargeConstantCurrent { target_current_ma, cutoff_voltage_mv, cutoff_time_min } => {
                    &&& w[4] == "DSC-CC"@
                    &&& spec_parse_i64(w[6]) == Ok::<i64, IntErrorKind>(target_current_ma)
                    &&& spec_parse_i64(w[7]) == Ok::<i64, IntErrorKind>(cutoff_voltage_mv)
                    &&& spec_parse_i64(w[8]) == Ok::<i64, IntErrorKind>(cutoff_time_min)
                },
                TestConfig::DischargeConstantPower { target_power_w, cutoff_voltage_mv, cutoff_time_min } => {
                    &&& w[4] == "DSC-CP"@
                    &&& spec_parse_i64(w[6]) == Ok::<i64, IntErrorKind>(target_power_w)
                    &&& spec_parse_i64(w[7]) == Ok::<i64, IntErrorKind>(cutoff_voltage_mv)
                    &&& spec_parse_i64(w[8]) == Ok::<i64, IntErrorKind>(cutoff_time_min)
                },
                TestConfig::ChargeConstantVoltage {
                    target_current_ma,
                    charge_voltage_mv,
                    charge_cutoff_current_ma,
                } => {
                    &&& w[4] == "CHG-CV"@
                    &&& spec_parse_i64(w[6]) == Ok::<i64, IntErrorKind>(target_current_ma)
                    &&& spec_parse_i64(w[7]) == Ok::<i64, IntErrorKind>(charge_voltage_mv)
                    &&& spec_parse_i64(w[8]) == Ok::<i64, IntErrorKind>(charge_cutoff_current_ma)
                },
            }
        },
{
    assert(!(battery_spec(w) matches Ok(Command::CreateTest { .. })));
    assert(!(session_spec(w) matches Ok(Command::CreateTest { .. })));
    assert(!(sample_spec(w) matches Ok(Command::CreateTest { .. })));
    assert(!(device_spec(w) matches Ok(Command::CreateTest { .. })));
}

/// The commands that address a tester take its number from word 1, and each
/// is named by its word 0.
pub proof fn lemma_device_id_words(w: Seq<Seq<char>>)
    ensures
        match command_spec(w) {
            Ok(Command::Connect { id }) => w.len() == 2 && w[0] == "connect"@
                && spec_parse_usize(w[1]) == Ok::<usize, IntErrorKind>(id),
            Ok(Command::Disconnect { id }) => w.len() == 2 && w[0] == "disconnect"@
                && spec_parse_usize(w[1]) == Ok::<usize, IntErrorKind>(id),
            Ok(Command::Status { id }) => w.len() == 2 && w[0] == "status"@
                && spec_parse_usize(w[1]) == Ok::<usize, IntErrorKind>(id),
            Ok(Command::Stop { id }) => w.len() == 2 && w[0] == "stop"@
                && spec_parse_usize(w[1]) == Ok::<usize, IntErrorKind>(id),
            _ => true,
        },
{
}

/// The battery commands carry the words and numbers at the positions that the
/// console's help gives them; the two cut-off voltages of a battery type are
/// given together (words 7 and 8) or not at all.
pub proof fn lemma_battery_words(w: Seq<Seq<char>>)
    ensures
        match command_spec(w) {
            Ok(
                Command::AddBatteryType {
                    manufacturer,
                    model,
                    chemistry,
                    nominal_voltage_mv,
                    nominal_capacity_mah,
                    charge_termination_voltage_mv,
                    discharge_cutoff_voltage_mv,
                },
            ) => {
                &&& w.len() == 7 || w.len() == 9
                &&& w[0] == "battery-type"@ && w[1] == "add"@
                &&& manufacturer == w[2] && model == w[3] && chemistry == w[4]
                &&& spec_parse_i64(w[5]) == Ok::<i64, IntErrorKind>(nominal_voltage_mv)
                &&& spec_parse_i64(w[6]) == Ok::<i64, IntErrorKind>(nominal_capacity_mah)
                &&& w.len() == 7 ==> charge_termination_voltage_mv is None
                    && discharge_cutoff_voltage_mv is None
                &&& w.len() == 9 ==> (spec_parse_i64(w[7]) matches Ok(c)
                    && charge_termination_voltage_mv == Some(c))
                &&& w.len() == 9 ==> (spec_parse_i64(w[8]) matches Ok(d)
                    && discharge_cutoff_voltage_mv == Some(d))
            },
            Ok(Command::AddBattery { battery_id, battery_type_id }) => {
                &&& w.len() == 4 && w[0] == "battery"@ && w[1] == "add"@
                &&& battery_id == w[2]
                &&& spec_parse_i64(w[3]) == Ok::<i64, IntErrorKind>(battery_type_id)
            },
            Ok(Command::ShowBattery { battery_id }) => w.len() == 3 && w[0] == "battery"@ && w[1]
                == "show"@ && battery_id == w[2],
            Ok(Command::ShowIntake { battery_id }) => w.len() == 3 && w[0] == "battery-intake"@
                && w[1] == "show"@ && battery_id == w[2],
            Ok(Command::SetIntake { battery_id, voltage_mv, resistance_uohm }) => {
                &&& w.len() == 5 && w[0] == "battery-intake"@ && w[1] == "set"@
                &&& battery_id == w[2]
                &&& spec_parse_i64(w[3]) == Ok::<i64, IntErrorKind>(voltage_mv)
                &&& spec_parse_i64(w[4]) == Ok::<i64, IntErrorKind>(resistance_uohm)
            },
            _ => true,
        },
{
}

/// The test, session and sample commands that take one number take it from
/// word 2, and are named by words 0 and 1; a session's reason is word 3.
pub proof fn lemma_id_words(w: Seq<Seq<char>>)
    ensures
        match command_spec(w) {
            Ok(Command::ShowTest { id }) => w.len() == 3 && w[0] == "test"@ && w[1] == "show"@
                && spec_parse_i64(w[2]) == Ok::<i64, IntErrorKind>(id),
            Ok(Command::ApproveTest { id }) => w.len() == 3 && w[0] == "test"@ && w[1]
                == "approve"@ && spec_parse_i64(w[2]) == Ok::<i64, IntErrorKind>(id),
            Ok(Command::DeleteTest { id }) => w.len() == 3 && w[0] == "test"@ && w[1] == "delete"@
                && spec_parse_i64(w[2]) == Ok::<i64, IntErrorKind>(id),
            Ok(Command::CreateSession { test_id, reason }) => {
                &&& w.len() == 3 || w.len() == 4
                &&& w[0] == "session"@ && w[1] == "create"@
                &&& spec_parse_i64(w[2]) == Ok::<i64, IntErrorKind>(test_id)
                &&& reason == if w.len() == 4 {
                    Some(w[3])
                } else {
                    None
                }
            },
            Ok(Command::EndSession { session_id }) => w.len() == 3 && w[0] == "session"@ && w[1]
                == "end"@ && spec_parse_i64(w[2]) == Ok::<i64, IntErrorKind>(session_id),
            Ok(Command::ListSessions { test_id }) => w.len() == 3 && w[0] == "session"@ && w[1]
                == "list"@ && spec_parse_i64(w[2]) == Ok::<i64, IntErrorKind>(test_id),
            Ok(Command::ListSamples { session_id }) => w.len() == 3 && w[0] == "sample"@ && w[1]
                == "list"@ && spec_parse_i64(w[2]) == Ok::<i64, IntErrorKind>(session_id),
            _ => true,
        },
{
}

fn word_is(words: &Vec<String>, pos: usize, text: &str) -> (b: bool)
    requires
        pos < words.len(),
    ensures
        b == (views_of(words@)[pos as int] == text@),
{
    same_text(words[pos].as_str(), text)
}

fn i64_word(words: &Vec<String>, pos: usize) -> (r: Result<i64, CommandError>)
    requires
        pos < words.len(),
    ensures
        r == i64_at(views_of(words@), pos as int),
{
    match parse_i64(words[pos].as_str()) {
        Ok(v) => Ok(v),
        Err(kind) => Err(CommandError { position: pos, kind: CommandErrorKind::BadNumber { kind } }),
    }
}

fn u16_word(words: &Vec<String>, pos: usize) -> (r: Result<u16, CommandError>)
    requires
        pos < words.len(),
    ensures
        r == u16_at(views_of(words@), pos as int),
{
    match parse_u16(words[pos].as_str()) {
        Ok(v) => Ok(v),
        Err(kind) => Err(CommandError { position: pos, kind: CommandErrorKind::BadNumber { kind } }),
    }
}

fn usize_word(words: &Vec<String>, pos: usize) -> (r: Result<usize, CommandError>)
    requires
        pos < words.len(),
    ensures
        r == usize_at(views_of(words@), pos as int),
{
    match parse_usize(words[pos].as_str()) {
        Ok(v) => Ok(v),
        Err(kind) => Err(CommandError { position: pos, kind: CommandErrorKind::BadNumber { kind } }),
    }
}

fn parse_device(words: &Vec<String>) -> (r: Result<Command<String>, CommandError>)
    requires
        words.len() > 0,
    ensures
        parsed_view(r) == device_spec(views_of(words@)),
{
    let n = words.len();
    if n == 2 && (word_is(words, 0, "connect") || word_is(words, 0, "disconnect") || word_is(
        words,
        0,
        "status",
    ) || word_is(words, 0, "stop")) {
        let id = match usize_word(words, 1) {
            Ok(v) => v,
            Err(e) => return Err(e),
        };
        if word_is(words, 0, "connect") {
            Ok(Command::Connect { id })
        } else if word_is(words, 0, "disconnect") {
            Ok(Command::Disconnect { id })
        } else if word_is(words, 0, "status") {
            Ok(Command::Status { id })
        } else {
            Ok(Command::Stop { id })
        }
    } else if n == 6 && (word_is(words, 0, "start") || word_is(words, 0, "adjust") || word_is(
        words,
        0,
        "continue",
    )) {
        let program = if word_is(words, 0, "start") {
            Program::Start
        } else if word_is(words, 0, "adjust") {
            Program::Adjust
        } else {
            Program::Continue
        };
        let id = match usize_word(words, 1) {
            Ok(v) => v,
            Err(e) => return Err(e),
        };
        let mode = match CliMode::parse(words[2].as_str()) {
            Some(m) => m,
            None => return Err(CommandError { position: 2, kind: CommandErrorKind::UnknownMode }),
        };
        let value1 = match u16_word(words, 3) {
            Ok(v) => v,
            Err(e) => return Err(e),
        };
        let value2 = match u16_word(words, 4) {
            Ok(v) => v,
            Err(e) => return Err(e),
        };
        let value3 = match u16_word(words, 5) {
            Ok(v) => v,
            Err(e) => return Err(e),
        };
        Ok(Command::Program { program, id, mode, value1, value2, value3 })
    } else {
        Ok(Command::Unknown)
    }
}

fn parse_battery(words: &Vec<String>) -> (r: Result<Command<String>, CommandError>)
    requires
        words.len() > 0,
    ensures
        parsed_view(r) == battery_spec(views_of(words@)),
{
    let n = words.len();
    if n == 2 && word_is(words, 0, "battery-type") && word_is(words, 1, "list") {
        Ok(Command::ListBatteryTypes)
    } else if (n == 7 || n == 9) && word_is(words, 0, "battery-type") && word_is(words, 1, "add") {
        let nominal_voltage_mv = match i64_word(words, 5) {
            Ok(v) => v,
            Err(e) => return Err(e),
        };
        let nominal_capacity_mah = match i64_word(words, 6) {
            Ok(v) => v,
            Err(e) => return Err(e),
        };
        let (charge_termination_voltage_mv, discharge_cutoff_voltage_mv) = if n == 9 {
            let charge = match i64_word(words, 7) {
                Ok(v) => v,
                Err(e) => return Err(e),
            };
            let discharge = match i64_word(words, 8) {
                Ok(v) => v,
                Err(e) => return Err(e),
            };
            (Some(charge), Some(discharge))
        } else {
            (None, None)
        };
        Ok(
            Command::AddBatteryType {
                manufacturer: words[2].clone(),
                model: words[3].clone(),
                chemistry: words[4].clone(),
                nominal_voltage_mv,
                nominal_capacity_mah,
                charge_termination_voltage_mv,
                discharge_cutoff_voltage_mv,
            },
        )
    } else if n == 4 && word_is(words, 0, "battery") && word_is(words, 1, "add") {
        let battery_type_id = match i64_word(words, 3) {
            Ok(v) => v,
            Err(e) => return Err(e),
        };
        Ok(Command::AddBattery { battery_id: words[2].clone(), battery_type_id })
    } else if n == 2 && word_is(words, 0, "battery") && word_is(words, 1, "list") {
        Ok(Command::ListBatteries)
    } else if n == 3 && word_is(words, 0, "battery") && word_is(words, 1, "show") {
        Ok(Command::ShowBattery { battery_id: words[2].clone() })
    } else if n == 3 && word_is(words, 0, "battery-intake") && word_is(words, 1, "show") {
        Ok(Command::ShowIntake { battery_id: words[2].clone() })
    } else if n == 5 && word_is(words, 0, "battery-intake") && word_is(words, 1, "set") {
        let voltage_mv = match i64_word(words, 3) {
            Ok(v) => v,
            Err(e) => return Err(e),
        };
        let resistance_uohm = match i64_word(words, 4) {
            Ok(v) => v,
            Err(e) => return Err(e),
        };
        Ok(Command::SetIntake { battery_id: words[2].clone(), voltage_mv, resistance_uohm })
    } else {
        Ok(Command::Unknown)
    }
}

fn parse_test(words: &Vec<String>) -> (r: Result<Command<String>, CommandError>)
    requires
        words.len() > 0,
    ensures
        parsed_view(r) == test_spec(views_of(words@)),
{
    let n = words.len();
    if n == 9 && word_is(words, 0, "test") && word_is(words, 1, "create") {
        let value1 = match i64_word(words, 6) {
            Ok(v) => v,
            Err(e) => return Err(e),
        };
        let value2 = match i64_word(words, 7) {
            Ok(v) => v,
            Err(e) => return Err(e),
        };
        let value3 = match i64_word(words, 8) {
            Ok(v) => v,
            Err(e) => return Err(e),
        };
        let voltage_before_test_mv = match i64_word(words, 5) {
            Ok(v) => v,
            Err(e) => return Err(e),
        };
        match CliMode::from_acronym(words[4].as_str()) {
            None => Ok(Command::UnknownTestMode { mode: words[4].clone() }),
            Some(mode) => Ok(
                Command::CreateTest {
                    battery_id: words[2].clone(),
                    device_id: words[3].clone(),
                    mode: words[4].clone(),
                    voltage_before_test_mv,
                    config: TestConfig::from_values(mode, value1, value2, value3),
                },
            ),
        }
    } else if n == 2 && word_is(words, 0, "test") && word_is(words, 1, "list") {
        Ok(Command::ListTests)
    } else if n == 3 && word_is(words, 0, "test") && (word_is(words, 1, "show") || word_is(
        words,
        1,
        "approve",
    ) || word_is(words, 1, "delete")) {
        let id = match i64_word(words, 2) {
            Ok(v) => v,
            Err(e) => return Err(e),
        };
        if word_is(words, 1, "show") {
            Ok(Command::ShowTest { id })
        } else if word_is(words, 1, "approve") {
            Ok(Command::ApproveTest { id })
        } else {
            Ok(Command::DeleteTest { id })
        }
    } else {
        Ok(Command::Unknown)
    }
}

fn parse_session(words: &Vec<String>) -> (r: Result<Command<String>, CommandError>)
    requires
        words.len() > 0,
    ensures
        parsed_view(r) == session_spec(views_of(words@)),
{
    let n = words.len();
    if (n == 3 || n == 4) && word_is(words, 0, "session") && word_is(words, 1, "create") {
        let test_id = match i64_word(words, 2) {
            Ok(v) => v,
            Err(e) => return Err(e),
        };
        let reason = if n == 4 {
            Some(words[3].clone())
        } else {
            None
        };
        Ok(Command::CreateSession { test_id, reason })
    } else if n == 3 && word_is(words, 0, "session") && (word_is(words, 1, "end") || word_is(
        words,
        1,
        "list",
    )) {
        let id = match i64_word(words, 2) {
            Ok(v) => v,
            Err(e) => return Err(e),
        };
        if word_is(words, 1, "end") {
            Ok(Command::EndSession { session_id: id })
        } else {
            Ok(Command::ListSessions { test_id: id })
        }
    } else {
        Ok(Command::Unknown)
    }
}

fn parse_sample(words: &Vec<String>) -> (r: Result<Command<String>, CommandError>)
    requires
        words.len() > 0,
    ensures
        parsed_view(r) == sample_spec(views_of(words@)),
{
    let n = words.len();
    if (n == 7 || n == 8) && word_is(words, 0, "sample") && word_is(words, 1, "append") {
        let session_id = match i64_word(words, 2) {
            Ok(v) => v,
            Err(e) => return Err(e),
        };
        let elapsed_ms = match i64_word(words, 3) {
            Ok(v) => v,
            Err(e) => return Err(e),
        };
        let voltage_mv = match i64_word(words, 4) {
            Ok(v) => v,
            Err(e) => return Err(e),
        };
        let current_ma = match i64_word(words, 5) {
            Ok(v) => v,
            Err(e) => return Err(e),
        };
        let capacity_mah = match i64_word(words, 6) {
            Ok(v) => v,
            Err(e) => return Err(e),
        };
        let energy_mwh = if n == 8 {
            match i64_word(words, 7) {
                Ok(v) => Some(v),
                Err(e) => return Err(e),
            }
        } else {
            None
        };
        Ok(
            Command::AppendSample {
                session_id,
                elapsed_ms,
                voltage_mv,
                current_ma,
                capacity_mah,
                energy_mwh,
            },
        )
    } else if n == 3 && word_is(words, 0, "sample") && word_is(words, 1, "list") {
        let session_id = match i64_word(words, 2) {
            Ok(v) => v,
            Err(e) => return Err(e),
        };
        Ok(Command::ListSamples { session_id })
    } else {
        Ok(Command::Unknown)
    }
}

/// The command that the words of a line make, or the first word that could
/// not be read.
pub fn parse_command(words: &Vec<String>) -> (r: Result<Command<String>, CommandError>)
    ensures
        parsed_view(r) == command_spec(views_of(words@)),
{
    let n = words.len();
    if n == 0 {
        Ok(Command::Empty)
    } else if n == 1 && (word_is(words, 0, "quit") || word_is(words, 0, "exit")) {
        Ok(Command::Quit)
    } else if n == 1 && word_is(words, 0, "help") {
        Ok(Command::Help)
    } else if word_is(words, 0, "battery-type") || word_is(words, 0, "battery") || word_is(
        words,
        0,
        "battery-intake",
    ) {
        parse_battery(words)
    } else if word_is(words, 0, "test") {
        parse_test(words)
    } else if word_is(words, 0, "session") {
        parse_session(words)
    } else if word_is(words, 0, "sample") {
        parse_sample(words)
    } else {
        parse_device(words)
    }
}

/// The command that a console line makes: its words, split at white space,
/// read as `parse_command` reads them.
pub fn parse_line(line: &str) -> (r: Result<Command<String>, CommandError>)
    ensures
        parsed_view(r) == command_spec(crate::words::words(line@)),
{
    let words = crate::words::split_words(line);
    parse_command(&words)
}

} // verus!
