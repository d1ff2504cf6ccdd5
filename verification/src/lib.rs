//! Control kernel of a remote water shutoff valve and water meter.
//!
//! The crate holds the rules of the device as plain, synchronous state
//! machines: what each task decides when an event arrives. Waiting for the
//! events and carrying out the resulting actions belongs to the program built
//! around it.

pub mod error;
pub mod pulse_counter;
pub mod schedule;
pub mod screen;
pub mod signal;
pub mod state;
pub mod system;
pub mod time;
pub mod valve;
pub mod water_meter;
pub mod water_meter_stats;
