//! Events and the handlers that the dispatcher hands them to.

use vstd::prelude::*;

use crate::commands::bundle::CommandRegistration;
use crate::commands::interaction::Interaction;
use crate::commands::registry::CommandRegistry;
use crate::commands::routing::Routed;

verus! {

/// A member joined a community.
#[derive(Debug, Clone)]
pub struct MemberAdd {
    pub guild_id: u64,
    pub user_id: u64,
}

/// A channel of a community, as far as the library reads it.
#[derive(Debug, Clone)]
pub struct GuildChannel {
    pub id: u64,
    /// Whether the channel is a text channel of the community.
    pub is_text: bool,
}

/// A community became known to the bot.
#[derive(Debug, Clone)]
pub struct GuildCreate {
    pub id: u64,
    /// Whether the community is available, so that the fields below are known.
    pub available: bool,
    /// When the bot joined, in seconds since the epoch.
    pub joined_at: Option<i64>,
    pub public_updates_channel_id: Option<u64>,
    pub system_channel_id: Option<u64>,
    pub channels: Vec<GuildChannel>,
}

/// What the platform pushes to the bot.
#[derive(Debug, Clone)]
pub enum Event {
    /// The connection is up.
    Ready,
    InteractionCreate(Interaction),
    MemberAdd(MemberAdd),
    GuildCreate(GuildCreate),
    /// An event that the library does not read.
    Other,
}

/// A unit that takes events. What it does with an event is its own business; of
/// the handler itself only one thing is asked, once at startup: which commands it
/// owns.
pub trait Handler<B> {
    /// The commands that this handler owns; none unless the handler says otherwise.
    fn commands(&self) -> (owned: Vec<CommandRegistration<B>>)
        default_ensures
            owned@ == Seq::<CommandRegistration<B>>::empty(),
    {
        Vec::new()
    }
}

impl<B> CommandRegistry<B> {
    /// What the registry does with an event: an invocation is routed as
    /// [`CommandRegistry::handle_interaction`] routes it, every other event is
    /// ignored.
    pub fn handle<'a>(&'a self, event: &'a Event) -> (routed: Routed<'a, B>)
        ensures
            !(event is InteractionCreate) ==> routed is Ignored,
            event matches Event::InteractionCreate(interaction) ==> self.routes(
                interaction,
                routed,
            ),
    {
        match event {
            Event::InteractionCreate(interaction) => self.handle_interaction(interaction),
            _ => Routed::Ignored,
        }
    }
}

} // verus!
