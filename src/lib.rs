//! Firmware integrity monitoring: a SHA-256 checksum engine and the
//! state machine of a watchdog that compares each new checksum of a
//! monitored artifact against a trusted baseline.

pub mod checksum;
pub mod monitor;
