//! Greeting a community that the bot has just been invited to.

use vstd::prelude::*;

use crate::embark_id_sync::EmbarkIDSync;
use crate::handler::GuildChannel;
use crate::handler::GuildCreate;

verus! {

/// For how many seconds after joining a community counts as just joined.
pub const FIVE_MINUTES: u64 = 300;

/// The place of the first text channel, if there is one.
pub open spec fn first_text_channel(channels: Seq<GuildChannel>) -> Option<int> {
    if exists|i: int| 0 <= i < channels.len() && channels[i].is_text {
        Some(
            choose|i: int|
                0 <= i < channels.len() && channels[i].is_text && forall|j: int|
                    0 <= j < i ==> !channels[j].is_text,
        )
    } else {
        None
    }
}

/// Whether the bot joined the community less than five minutes before `now`.
pub open spec fn just_joined(guild: GuildCreate, now: u64) -> bool {
    guild.joined_at matches Some(joined) && 0 <= joined <= now && now - joined < FIVE_MINUTES
}

/// The channel in which a community is greeted: the channel for public updates,
/// else the system channel, else the first text channel, else none.
pub open spec fn greeting_channel(guild: GuildCreate) -> Option<u64> {
    match guild.public_updates_channel_id {
        Some(channel) => Some(channel),
        None => match guild.system_channel_id {
            Some(channel) => Some(channel),
            None => match first_text_channel(guild.channels@) {
                Some(i) => Some(guild.channels@[i].id),
                None => None,
            },
        },
    }
}

/// Where the community is to be greeted, if it is to be greeted at all: a
/// community that is not set up yet, is available, and was joined less than five
/// minutes ago is greeted in its greeting channel.
pub open spec fn welcome(guild: GuildCreate, known: bool, now: u64) -> Option<u64> {
    if !known && guild.available && just_joined(guild, now) {
        greeting_channel(guild)
    } else {
        None
    }
}

/// What a community is greeted with.
pub fn welcome_text() -> (text: &'static str)
    ensures
        text@ == "Please run /setup to get started."@,
{
    "Please run /setup to get started."
}

impl EmbarkIDSync {
    /// Decides whether and where a community that became known is greeted. `known`
    /// says whether settings are kept for it, `now` is the time in seconds since the
    /// epoch.
    #[verifier::loop_isolation(false)]
    pub fn guild_event(&self, guild: &GuildCreate, known: bool, now: u64) -> (channel: Option<u64>)
        ensures
            channel == welcome(*guild, known, now),
    {
        if known || !guild.available {
            return None;
        }
        let joined = match guild.joined_at {
            Some(joined) => joined,
            None => {
                return None;
            },
        };
        if joined < 0 || joined as u64 > now || now - joined as u64 >= FIVE_MINUTES {
            return None;
        }
        match guild.public_updates_channel_id {
            Some(channel) => Some(channel),
            None => match guild.system_channel_id {
                Some(channel) => Some(channel),
                None => {
                    let mut i: usize = 0;
                    while i < guild.channels.len()
                        invariant
                            i <= guild.channels@.len(),
                            forall|j: int| 0 <= j < i ==> !guild.channels@[j].is_text,
                        decreases guild.channels@.len() - i,
                    {
                        if guild.channels[i].is_text {
                            proof {
                                let first = choose|k: int|
                                    0 <= k < guild.channels@.len() && guild.channels@[k].is_text
                                        && forall|j: int| 0 <= j < k ==> !guild.channels@[j].is_text;
                                assert(guild.channels@[i as int].is_text);
                                assert(first == i);
                            }
                            return Some(guild.channels[i].id);
                        }
                        i += 1;
                    }
                    None
                },
            },
        }
    }
}

} // verus!
