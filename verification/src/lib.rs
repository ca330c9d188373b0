//! A conflict-aware branch lifecycle orchestrator for an external
//! version-control tool.
//!
//! The crate models the workflow layer as pure, verified state machines:
//! every decision — which command to run next, when a failure is
//! conflict-shaped, when a workflow must be refused — is an executable
//! function with a contract.  The surrounding process (subprocess calls,
//! terminal input, configuration files) feeds events in and carries
//! directives out.

pub mod branchcmd;
pub mod cli;
pub mod composer;
pub mod config;
pub mod conflict;
pub mod finish;
pub mod gitops;
pub mod guard;
pub mod hook;
pub mod msg;
pub mod repo;
pub mod sync;
pub mod text;
pub mod workflow;
