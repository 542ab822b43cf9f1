//! Keeps DNS records at a hosted DNS provider in step with the public IP
//! address of the machine that runs it.
//!
//! `records` holds the data that flows through a pass; `reconcile` decides
//! which of a target's listed records are updated and how; `pass` runs one
//! reconciliation of every target as a state machine that a runner drives
//! with the outcomes of its network calls; `endpoints` builds the addresses,
//! query and authorization of those calls.
pub mod records;
pub mod reconcile;
pub mod pass;
pub mod endpoints;
