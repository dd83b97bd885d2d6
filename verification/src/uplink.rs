//! How the parts of the uplink are set up.

use vstd::prelude::*;

use crate::config::{lookup, Config, StreamConfig, StreamConfigView};
use crate::tcpjson::types::ACTION_STATUS;

verus! {

/// How many items each channel between the parts holds.
pub const CHANNEL_CAPACITY: usize = 10;

/// The set-up that a configuration calls for.
#[derive(Debug)]
pub struct Uplink {
    /// The stream on which actions are answered.
    pub action_status: StreamConfig,
    /// Whether system statistics are collected.
    pub enable_stats: bool,
}

impl Uplink {
    /// Answers to actions go out at once, to the topic that is configured for them.
    pub fn new(config: &Config) -> (uplink: Uplink)
        requires
            lookup(config.streams@, ACTION_STATUS@) is Some,
        ensures
            uplink.action_status@ == (StreamConfigView {
                name: ACTION_STATUS@,
                topic: lookup(config.streams@, ACTION_STATUS@)->0.topic,
                buf_size: 1,
            }),
            uplink.enable_stats == config.stats.enabled,
    {
        let name = ACTION_STATUS.to_owned();
        let topic = config.streams.get(&name).unwrap().topic.clone();
        Uplink {
            action_status: StreamConfig { name, topic, buf_size: 1 },
            enable_stats: config.stats.enabled,
        }
    }
}

} // verus!
