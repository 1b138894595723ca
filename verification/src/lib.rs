//! Keeps cluster secrets in step with items held in a Bitwarden vault.
//!
//! The crate holds the decisions of the operator: how a session against the
//! vault command line tool evolves, which vault items a resource needs, how
//! the target secret is assembled from them, and how one reconciliation pass
//! proceeds. Running processes and talking to the cluster is left to the
//! caller, which performs the actions the functions here hand out and reports
//! back what happened.

pub mod bitwarden_cli;
pub mod operator;
pub mod string_map;
pub mod text;
pub mod time;
pub mod views;
