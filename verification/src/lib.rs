//! Protocol engine for a speed-controlled actuator on a serial link.
//!
//! The engine is a state machine: it asks for one action on the link at a
//! time and is told how that action ended. Nothing here touches a device.

pub mod boundary;
pub mod discovery;
pub mod engine;
pub mod error;
pub mod trace;
pub mod wire;
