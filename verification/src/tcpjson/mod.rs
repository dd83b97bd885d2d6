//! The bridge between the uplink and an application on the device, which sends its data and
//! receives actions as lines of JSON over a TCP connection.
//!
//! The bridge answers every event with one [`Step`]; the program performs it and reports what
//! came of it by the next event.

pub mod behaviour;
pub mod bridge;
pub mod laws;
pub mod model;
pub mod payload;
pub mod types;

pub use bridge::Bridge;
pub use payload::{Payload, Point};
pub use types::{
    ActionFailure, Command, Error, FlushState, Frame, Origin, Step, ACTION_STATUS, ACTION_TIMEOUT,
    FIRST_TIMEOUT, FLUSH_PERIOD, MAX_STREAMS,
};
