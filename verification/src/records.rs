//! The decisions of the storage layer that do not need the database: whether
//! an update found its row, and which of the listed tests could be read.
use vstd::prelude::*;
use crate::command::{command_spec, Command};
use crate::models::{lemma_acronym_round_trip, CliMode, Test, TestConfig};

verus! {

/// An update of a battery or battery type that changed no row names a record
/// that does not exist.
pub fn row_was_updated(rows_affected: u64) -> (found: bool)
    ensures
        found == (rows_affected != 0),
{
    rows_affected != 0
}

/// The tests among `found`, in order.
pub open spec fn present_tests(found: Seq<Option<Test>>) -> Seq<Test>
    decreases found.len(),
{
    if found.len() == 0 {
        Seq::empty()
    } else {
        match found[0] {
            Some(t) => seq![t] + present_tests(found.drop_first()),
            None => present_tests(found.drop_first()),
        }
    }
}

/// Listing two runs of lookups one after the other lists the tests of the first
/// run, then those of the second.
pub proof fn lemma_present_tests_append(a: Seq<Option<Test>>, b: Seq<Option<Test>>)
    ensures
        present_tests(a + b) == present_tests(a) + present_tests(b),
    decreases a.len(),
{
    if a.len() == 0 {
        assert(a + b =~= b);
        assert(present_tests(a) + present_tests(b) =~= present_tests(b));
    } else {
        assert((a + b).drop_first() =~= a.drop_first() + b);
        assert((a + b)[0] == a[0]);
        lemma_present_tests_append(a.drop_first(), b);
        match a[0] {
            Some(t) => {
                assert(seq![t] + (present_tests(a.drop_first()) + present_tests(b)) =~= (seq![t]
                    + present_tests(a.drop_first())) + present_tests(b));
            },
            None => {},
        }
    }
}

/// Where every lookup found its test, all of them are listed, in order.
pub proof fn lemma_all_found_are_listed(tests: Seq<Test>)
    ensures
        present_tests(tests.map_values(|t: Test| Some(t))) == tests,
    decreases tests.len(),
{
    let found = tests.map_values(|t: Test| Some(t));
    if tests.len() == 0 {
        assert(present_tests(found) =~= tests);
    } else {
        lemma_all_found_are_listed(tests.drop_first());
        assert(found.drop_first() =~= tests.drop_first().map_values(|t: Test| Some(t)));
        assert(found[0] == Some(tests[0]));
        assert(seq![tests[0]] + tests.drop_first() =~= tests);
    }
}

/// A lookup that found nothing adds nothing, and one that found a test adds
/// exactly that test: the listing has one test per found lookup.
pub proof fn lemma_present_tests_one(o: Option<Test>)
    ensures
        present_tests(seq![o]) == match o {
            Some(t) => seq![t],
            None => Seq::<Test>::empty(),
        },
{
    assert(seq![o].drop_first() =~= Seq::<Option<Test>>::empty());
    assert(present_tests(Seq::<Option<Test>>::empty()) == Seq::<Test>::empty());
    assert(seq![o][0] == o);
    match o {
        Some(t) => {
            assert(present_tests(seq![o]) == seq![t] + present_tests(seq![o].drop_first()));
            assert(seq![t] + Seq::<Test>::empty() =~= seq![t]);
        },
        None => {},
    }
}

/// The tests that were found, in the order of their ids, leaving out those
/// that were gone by the time they were read.
pub fn existing_tests(found: Vec<Option<Test>>) -> (tests: Vec<Test>)
    ensures
        tests@ == present_tests(found@),
{
    let ghost all = found@;
    let mut rest = found;
    let mut tests: Vec<Test> = Vec::new();
    while rest.len() > 0
        invariant
            tests@ + present_tests(rest@) == present_tests(all),
        decreases rest.len(),
    {
        let ghost before = rest@;
        let item = rest.remove(0);
        assert(rest@ =~= before.drop_first());
        match item {
            Some(t) => {
                let ghost old_tests = tests@;
                tests.push(t);
                assert(old_tests + (seq![t] + present_tests(rest@)) =~= tests@ + present_tests(
                    rest@,
                ));
            },
            None => {},
        }
    }
    assert(tests@ + present_tests(rest@) =~= tests@);
    tests
}

/// The table that holds the parameters of tests of kind `mode`, and its three
/// parameter columns in the order of `TestConfig::values`.
pub open spec fn config_table_spec(mode: CliMode) -> (Seq<char>, Seq<char>, Seq<char>, Seq<char>) {
    match mode {
        CliMode::DscCc => (
            "discharge_cc_tests"@,
            "target_current_ma"@,
            "cutoff_voltage_mv"@,
            "cutoff_time_min"@,
        ),
        CliMode::DscCp => (
            "discharge_cp_tests"@,
            "target_power_w"@,
            "cutoff_voltage_mv"@,
            "cutoff_time_min"@,
        ),
        CliMode::ChgCv => (
            "charge_cv_tests"@,
            "target_current_ma"@,
            "charge_voltage_mv"@,
            "charge_cutoff_current_ma"@,
        ),
    }
}

pub fn config_table(mode: CliMode) -> (t: (&'static str, &'static str, &'static str, &'static str))
    ensures
        (t.0@, t.1@, t.2@, t.3@) == config_table_spec(mode),
{
    match mode {
        CliMode::DscCc => ("discharge_cc_tests", "target_current_ma", "cutoff_voltage_mv", "cutoff_time_min"),
        CliMode::DscCp => ("discharge_cp_tests", "target_power_w", "cutoff_voltage_mv", "cutoff_time_min"),
        CliMode::ChgCv => (
            "charge_cv_tests",
            "target_current_ma",
            "charge_voltage_mv",
            "charge_cutoff_current_ma",
        ),
    }
}

/// Each kind has a table of its own, so a test is never read from the table
/// of another kind.
pub proof fn lemma_config_tables_distinct(a: CliMode, b: CliMode)
    ensures
        a != b ==> config_table_spec(a).0 != config_table_spec(b).0,
{
    reveal_strlit("discharge_cc_tests");
    reveal_strlit("discharge_cp_tests");
    reveal_strlit("charge_cv_tests");
    assert("discharge_cc_tests"@[11] != "discharge_cp_tests"@[11]);
    assert("discharge_cc_tests"@.len() != "charge_cv_tests"@.len());
    assert("discharge_cp_tests"@.len() != "charge_cv_tests"@.len());
}

/// A test is stored with its mode's acronym and its three parameters in the
/// table of its kind; reading it back looks the kind up by the acronym and
/// rebuilds the configuration from the parameters. Where the acronym is the
/// one of the configuration's kind, the configuration read is the one written.
pub proof fn lemma_stored_config_reads_back(config: TestConfig, acronym: Seq<char>)
    requires
        acronym == config.mode_spec().acronym_spec(),
    ensures
        CliMode::from_acronym_spec(acronym) == Some(config.mode_spec()),
        TestConfig::from_values_spec(
            CliMode::from_acronym_spec(acronym)->Some_0,
            config.values_spec().0,
            config.values_spec().1,
            config.values_spec().2,
        ) == config,
{
    lemma_acronym_round_trip(config.mode_spec());
}

/// A test created on the console carries the acronym of its configuration's
/// kind, so it reads back with the configuration it was created with.
pub proof fn lemma_console_test_reads_back(w: Seq<Seq<char>>)
    requires
        command_spec(w) matches Ok(Command::CreateTest { .. }),
    ensures
        command_spec(w) matches Ok(Command::CreateTest { mode, config, .. }) && mode
            == config.mode_spec().acronym_spec(),
{
    if w.len() == 9 && w[0] == "test"@ && w[1] == "create"@ {
        match CliMode::from_acronym_spec(w[4]) {
            Some(m) => {
                lemma_acronym_round_trip(m);
            },
            None => {},
        }
    }
}

} // verus!
