//! The serializer decides what becomes of collected data, depending on the state of the network.
//!
//! ```text
//! status                     mode       what it does                    ends with
//! ─────────────────────────────────────────────────────────────────────────────────────────
//! EventLoopReady (at start)  catchup()  sends what is stored,           Normal,
//!                                       stores new data                 EventLoopCrash(publish)
//! Normal                     normal()   sends all data                  SlowEventloop(publish)
//! SlowEventloop(publish)     slow()     keeps trying to publish,        EventLoopReady,
//!                                       stores new data                 EventLoopCrash(publish)
//! EventLoopCrash(publish)    crash()    stores the packet and all data  nothing
//! ```
//!
//! Each mode is a conversation. The serializer answers every event with the updates that are due
//! to the metrics and with one [`Action`]; the program performs it and reports what came of it by
//! the next event.

pub mod behaviour;
pub mod laws;
pub mod machine;
pub mod model;
pub mod types;

pub use machine::{construct_publish, write_to_disk, Serializer};
pub use model::{constructed, on_disk, resume_step, SerializerView, Transition};
pub use types::{
    metrics_view, Action, ActionView, Error, ErrorView, MetricUpdate, MetricView, Phase, Reaction,
    Status, StatusView, METRICS_INTERVAL,
};
