//! Planning, parsing and naming logic for running OpenShell end-to-end suites
//! and release smoke tests on local or Lima-provisioned machines.

pub mod platform;
pub mod text;
pub mod tasks;
pub mod machine;
pub mod e2e;
pub mod e2e_machine;
pub mod lima;
pub mod provision;
pub mod quote;
pub mod release_smoke_test;
