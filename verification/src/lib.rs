//! Join and uplink control for a LoRaWAN end device.
//!
//! The crate holds the decisions of an end device that joins an operator
//! network over a shared radio medium and then reports telemetry: how long to
//! wait between join attempts, when the device counts as joined, and what is
//! sent on each uplink tick. Radio access, timers and logging stay with the
//! caller, which performs the actions that the state machines ask for.

pub mod backoff;
pub mod config;
pub mod join;
pub mod random;
pub mod uplink;
