//! Verified core of the EBC battery test hub: test models, the console's
//! command grammar, the programs sent to a tester, the storage encoding of
//! test configurations, and the test runner's decisions.

pub mod command;
pub mod device;
pub mod models;
pub mod numbers;
pub mod records;
pub mod runner;
pub mod words;
