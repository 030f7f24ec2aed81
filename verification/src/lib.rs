//! A conformance-test executor for an account-based virtual machine: it builds the
//! world state a fixture describes, runs the fixture's transaction through the
//! interpreter, and decides whether the outcome is the one the fixture expects.

pub mod args;
pub mod backend;
pub mod context;
pub mod driver;
pub mod error;
pub mod hash;
pub mod laws;
pub mod listing;
pub mod report;
pub mod run;
pub mod state;
pub mod types;
pub mod verdict;
pub mod vm;
pub mod word;
