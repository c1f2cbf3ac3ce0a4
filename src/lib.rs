//! Publishing generated documentation to a hosting branch: settings
//! resolution, the commands issued to git and to the documentation builder,
//! and the publish workflow as a state machine driven by a small executor.
pub mod cmd;
pub mod config;
pub mod error;
pub mod git;
pub mod publish;
