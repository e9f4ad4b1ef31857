//! Builds multi-chain asset-processing programs as graphs of accounts,
//! libraries, links and authorizations, and drives their deployment
//! through a small state machine whose every step is recorded on disk.

pub mod account;
pub mod authorization;
pub mod deployment;
pub mod domain;
pub mod library;
pub mod params;
pub mod program_config;
pub mod programs;
