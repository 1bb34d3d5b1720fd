//! Channel-layer settings of the daemon's configuration.

use vstd::prelude::*;

verus! {

/// Types of channel implementation.
pub enum ChannelTypes {
    Lz4Flex,
}

/// Settings for the channel layer.
pub struct ChannelConfiguration {
    /// Milliseconds between checking for new data on the channel.
    pub poll_interval: usize,
    /// The allowed channel implementation.
    pub channel: ChannelTypes,
}

impl ChannelConfiguration {
    /// Builds a configuration from explicit choices.
    pub fn new(poll_interval: usize, channel: ChannelTypes) -> Self {
        ChannelConfiguration { poll_interval, channel }
    }
}

impl Default for ChannelConfiguration {
    /// The default channel settings.
    fn default() -> Self {
        ChannelConfiguration {
            poll_interval: default_poll_interval(),
            channel: default_allowed_channel(),
        }
    }
}

fn default_allowed_channel() -> ChannelTypes {
    ChannelTypes::Lz4Flex
}

fn default_poll_interval() -> (r: usize)
    ensures
        r == 100,
{
    100
}

} // verus!
