use vstd::prelude::*;

use crate::action::{TerminalAction, TwitchAction};

verus! {

/// The part of the client's settings that the following list reads and writes.
#[derive(Debug)]
pub struct ChannelConfig {
    /// The channel whose chat is shown.
    pub channel: String,
    /// Whether the following list shows only the channels that are live.
    pub only_get_live_followed_channels: bool,
}

impl ChannelConfig {
    pub fn new(channel: String, only_get_live_followed_channels: bool) -> (r: Self)
        ensures
            r.channel == channel,
            r.only_get_live_followed_channels == only_get_live_followed_channels,
    {
        ChannelConfig { channel, only_get_live_followed_channels }
    }

    /// Applies an action that a component handed back: joining a channel makes it the
    /// channel shown.
    pub fn apply(&mut self, action: &TerminalAction)
        ensures
            match action {
                TerminalAction::Enter(TwitchAction::Join(c)) => final(self).channel@ == c@,
            },
            final(self).only_get_live_followed_channels
                == old(self).only_get_live_followed_channels,
    {
        match action {
            TerminalAction::Enter(TwitchAction::Join(c)) => {
                self.channel = c.clone();
            },
        }
    }

    /// A copy with the same channel and setting.
    pub fn duplicate(&self) -> (r: Self)
        ensures
            r.channel@ == self.channel@,
            r.only_get_live_followed_channels == self.only_get_live_followed_channels,
    {
        ChannelConfig {
            channel: self.channel.clone(),
            only_get_live_followed_channels: self.only_get_live_followed_channels,
        }
    }
}

} // verus!
