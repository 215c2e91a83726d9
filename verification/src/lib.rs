//! Verified core of a utility-meter telemetry bridge.
//!
//! The bridge reads periodic meter telegrams from a serial port, flattens
//! each one into a measurement record, and republishes the record as JSON
//! over MQTT, while a hardware watchdog guards liveness.  This crate holds
//! the part of that system that can be reasoned about exactly: the record
//! and its builder, the uptime computation, the shared liveness counter,
//! the watchdog feeding policy, and the state machines that coordinate the
//! network link, the MQTT session, and the main loop.  The unreliable
//! edges (radio, sockets, UART, timers) stay outside; they hand events to
//! these functions and perform the actions they decide.

pub mod builder;
pub mod laws;
pub mod liveness;
pub mod network;
pub mod orchestrator;
pub mod record;
pub mod session;
pub mod telegram;
pub mod watchdog;
