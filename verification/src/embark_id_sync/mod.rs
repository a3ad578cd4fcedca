//! Linking platform accounts to game identifiers: what the bot decides when a
//! member joins, asks to be verified, or submits an identifier.

use vstd::prelude::*;
use vstd::string::*;

pub mod guild_welcome;
pub mod member;
pub mod setup;
pub mod verification;

use crate::commands::bundle::CommandRegistration;
use crate::commands::bundle::CommandScope;
use crate::commands::bundle::CommandBundle;
use crate::commands::interaction::InteractionData;
use crate::commands::interaction::InteractionType;
use crate::commands::registry::names_of;
use crate::commands::registry::registered_all;
use crate::commands::registry::resolved;
use crate::commands::registry::CommandKey;
use crate::embark_id_sync::setup::SetupCommand;
use crate::embark_id_sync::verification::component_used;
use crate::embark_id_sync::verification::is_verification_form;
use crate::embark_id_sync::verification::submitted;
use crate::embark_id_sync::verification::submitted_values;
use crate::embark_id_sync::verification::values_view;
use crate::embark_id_sync::verification::Modal;
use crate::handler::Event;
use crate::handler::GuildCreate;
use crate::handler::Handler;
use crate::handler::MemberAdd;

verus! {

/// The handler that links accounts.
pub struct EmbarkIDSync {}

/// What the handler does about an event.
pub enum Task<'a> {
    /// Nothing.
    Nothing,
    /// See to a member who joined.
    MemberJoined(&'a MemberAdd),
    /// See whether a community is to be greeted.
    GuildKnown(&'a GuildCreate),
    /// Answer the invocation with a form.
    ShowForm(Modal),
    /// See to each of the identifiers submitted with a form, in order.
    ReadForm { member_user_id: Option<u64>, guild_id: Option<u64>, values: Vec<Option<String>> },
    /// Log a warning.
    Warn(String),
}

impl EmbarkIDSync {
    /// The handler.
    pub fn new() -> (handler: Self) {
        EmbarkIDSync {  }
    }

    /// Whether `task` is what the handler does about `event`.
    ///
    /// A member who joined and a community that became known are seen to. Of the
    /// invocations, only those that carry data are looked at: a used component
    /// leads to the verification form if it is the button `verify`, a submitted
    /// form is read, commands and autocomplete requests are left to the command
    /// registry, and any other kind is warned about. Every other event is
    /// ignored.
    pub open spec fn does(event: Event, task: Task) -> bool {
        match event {
            Event::MemberAdd(member) => task == Task::MemberJoined(&member),
            Event::GuildCreate(guild) => task == Task::GuildKnown(&guild),
            Event::InteractionCreate(interaction) => match interaction.data {
                None => task is Nothing,
                Some(data) => match interaction.kind {
                    InteractionType::MessageComponent => match data {
                        InteractionData::MessageComponent(component) => if component.custom_id@
                            == "verify"@ {
                            task matches Task::ShowForm(modal) && is_verification_form(modal)
                        } else {
                            task is Nothing
                        },
                        _ => task is Nothing,
                    },
                    InteractionType::ModalSubmit => match data {
                        InteractionData::ModalSubmit(modal) => {
                            &&& task matches Task::ReadForm { member_user_id, guild_id, values }
                            &&& member_user_id == interaction.member_user_id
                            &&& guild_id == interaction.guild_id
                            &&& values_view(values@) == submitted(modal)
                        },
                        _ => task is Nothing,
                    },
                    InteractionType::ApplicationCommand => task is Nothing,
                    InteractionType::ApplicationCommandAutocomplete => task is Nothing,
                    _ => task matches Task::Warn(line) && line@ == "unknown interaction type"@,
                },
            },
            Event::Ready => task is Nothing,
            Event::Other => task is Nothing,
        }
    }

    /// Decides what the handler does about an event.
    pub fn handle<'a>(&self, event: &'a Event) -> (task: Task<'a>)
        ensures
            Self::does(*event, task),
    {
        match event {
            Event::MemberAdd(member) => Task::MemberJoined(member),
            Event::GuildCreate(guild) => Task::GuildKnown(guild),
            Event::InteractionCreate(interaction) => {
                let data = match &interaction.data {
                    Some(data) => data,
                    None => {
                        return Task::Nothing;
                    },
                };
                match interaction.kind {
                    InteractionType::MessageComponent => match data {
                        InteractionData::MessageComponent(component) => {
                            match component_used(component.custom_id.as_str()) {
                                Some(modal) => Task::ShowForm(modal),
                                None => Task::Nothing,
                            }
                        },
                        _ => Task::Nothing,
                    },
                    InteractionType::ModalSubmit => match data {
                        InteractionData::ModalSubmit(modal) => Task::ReadForm {
                            member_user_id: interaction.member_user_id,
                            guild_id: interaction.guild_id,
                            values: submitted_values(modal),
                        },
                        _ => Task::Nothing,
                    },
                    InteractionType::ApplicationCommand => Task::Nothing,
                    InteractionType::ApplicationCommandAutocomplete => Task::Nothing,
                    _ => Task::Warn(String::from_str("unknown interaction type")),
                }
            },
            Event::Ready => Task::Nothing,
            Event::Other => Task::Nothing,
        }
    }
}

impl Handler<SetupCommand> for EmbarkIDSync {
    /// The one command of this handler: `setup`, everywhere.
    fn commands(&self) -> (owned: Vec<CommandRegistration<SetupCommand>>)
        ensures
            owned@.len() == 1,
            owned@[0].scope is Global,
            owned@[0].command.named() == "setup"@,
    {
        let mut owned: Vec<CommandRegistration<SetupCommand>> = Vec::new();
        owned.push(CommandRegistration { scope: CommandScope::Global, command: SetupCommand::new() });
        owned
    }
}

/// The handler's command answers to `setup`. Whatever was registered before, once
/// a list that holds one global registration of the command has been registered,
/// the name `setup` resolves to a command from nowhere and from every community
/// that has no command of that name of its own, and what it resolves to is the
/// handler's command.
pub proof fn lemma_setup_is_registered_as_setup(
    catalog: Map<CommandKey, SetupCommand>,
    owned: Seq<CommandRegistration<SetupCommand>>,
    guild: u64,
)
    requires
        owned.len() == 1,
        owned[0].scope is Global,
        !catalog.contains_key((Some(guild), "setup"@)),
    ensures
        resolved(registered_all(catalog, owned, names_of(owned)), "setup"@, None) == Some(
            owned[0].command,
        ),
        resolved(registered_all(catalog, owned, names_of(owned)), "setup"@, Some(guild)) == Some(
            owned[0].command,
        ),
{
    assert(owned.drop_last().len() == 0);
    assert(registered_all(catalog, owned.drop_last(), names_of(owned).drop_last()) == catalog);
    assert(names_of(owned).last() == "setup"@);
    assert(owned.last() == owned[0]);
}

} // verus!
