//! Supervision of an external worker process and provisioning of the
//! files it needs, with every decision stated as a contract.

pub mod batch;
pub mod command;
pub mod config;
pub mod digest;
pub mod error;
pub mod ledger;
pub mod listing;
pub mod manifest;
pub mod paths;
pub mod provision;
pub mod reconciler;
pub mod supervisor;
pub mod text;
