//! One handler for everything, without a command registry: what it decides for
//! each event.

use vstd::prelude::*;
use vstd::string::*;

use crate::commands::interaction::InteractionData;
use crate::commands::interaction::InteractionType;
use crate::data::GuildSettings;
use crate::embark_id_sync::setup::SetupErrors;
use crate::embark_id_sync::verification::component_used;
use crate::embark_id_sync::verification::is_verification_form;
use crate::embark_id_sync::verification::submitted;
use crate::embark_id_sync::verification::submitted_values;
use crate::embark_id_sync::verification::values_view;
use crate::embark_id_sync::verification::Modal;
use crate::handler::Event;
use crate::text::str_eq;

verus! {

/// What is done about an event.
pub enum Action {
    /// Nothing.
    Nothing,
    /// Log a line for information.
    Info(String),
    /// Log a line as an error.
    Error(String),
    /// Set the community up, then log how it went.
    Setup { guild_id: u64 },
    /// Answer the invocation with a form.
    ShowForm(Modal),
    /// See to each of the identifiers submitted with a form, in order.
    ReadForm { member_user_id: Option<u64>, guild_id: Option<u64>, values: Vec<Option<String>> },
}

/// Whether `action` is what is done about `event`.
///
/// That the connection is up is logged. Of the invocations, only those that carry
/// data are looked at: the command `setup` sets the community up that it was
/// invoked from, and is an error where it was invoked from none; a used
/// component leads to the verification form if it is the button `verify`; a
/// submitted form is read; pings and autocomplete requests need nothing; any
/// other kind is an error. Every other event is ignored.
pub open spec fn decides(event: Event, action: Action) -> bool {
    match event {
        Event::Ready => action matches Action::Info(line) && line@ == "ready"@,
        Event::InteractionCreate(interaction) => match interaction.data {
            None => action is Nothing,
            Some(data) => match interaction.kind {
                InteractionType::Ping => action is Nothing,
                InteractionType::ApplicationCommand => match data {
                    InteractionData::ApplicationCommand(command) => if command.name@ == "setup"@ {
                        match interaction.guild_id {
                            Some(guild) => action == (Action::Setup { guild_id: guild }),
                            None => action matches Action::Error(line) && line@
                                == "Guild not found"@,
                        }
                    } else {
                        action is Nothing
                    },
                    _ => action is Nothing,
                },
                InteractionType::MessageComponent => match data {
                    InteractionData::MessageComponent(component) => if component.custom_id@
                        == "verify"@ {
                        action matches Action::ShowForm(modal) && is_verification_form(modal)
                    } else {
                        action is Nothing
                    },
                    _ => action is Nothing,
                },
                InteractionType::ApplicationCommandAutocomplete => action is Nothing,
                InteractionType::ModalSubmit => match data {
                    InteractionData::ModalSubmit(modal) => {
                        &&& action matches Action::ReadForm { member_user_id, guild_id, values }
                        &&& member_user_id == interaction.member_user_id
                        &&& guild_id == interaction.guild_id
                        &&& values_view(values@) == submitted(modal)
                    },
                    _ => action is Nothing,
                },
                InteractionType::Unknown => action matches Action::Error(line) && line@
                    == "unknown interaction type"@,
            },
        },
        _ => action is Nothing,
    }
}

/// Decides what is done about an event.
pub fn handle_event(event: &Event) -> (action: Action)
    ensures
        decides(*event, action),
{
    match event {
        Event::Ready => Action::Info(String::from_str("ready")),
        Event::InteractionCreate(interaction) => {
            let data = match &interaction.data {
                Some(data) => data,
                None => {
                    return Action::Nothing;
                },
            };
            match interaction.kind {
                InteractionType::Ping => Action::Nothing,
                InteractionType::ApplicationCommand => match data {
                    InteractionData::ApplicationCommand(command) => {
                        if str_eq(command.name.as_str(), "setup") {
                            match interaction.guild_id {
                                Some(guild_id) => Action::Setup { guild_id },
                                None => Action::Error(String::from_str("Guild not found")),
                            }
                        } else {
                            Action::Nothing
                        }
                    },
                    _ => Action::Nothing,
                },
                InteractionType::MessageComponent => match data {
                    InteractionData::MessageComponent(component) => {
                        match component_used(component.custom_id.as_str()) {
                            Some(modal) => Action::ShowForm(modal),
                            None => Action::Nothing,
                        }
                    },
                    _ => Action::Nothing,
                },
                InteractionType::ApplicationCommandAutocomplete => Action::Nothing,
                InteractionType::ModalSubmit => match data {
                    InteractionData::ModalSubmit(modal) => Action::ReadForm {
                        member_user_id: interaction.member_user_id,
                        guild_id: interaction.guild_id,
                        values: submitted_values(modal),
                    },
                    _ => Action::Nothing,
                },
                InteractionType::Unknown => Action::Error(
                    String::from_str("unknown interaction type"),
                ),
            }
        },
        _ => Action::Nothing,
    }
}

/// What is logged once a setup has ended.
pub open spec fn outcome_line(result: Result<GuildSettings, SetupErrors>) -> Seq<char> {
    match result {
        Ok(_) => "setup complete"@,
        Err(SetupErrors::CouldNotCreateChannel) => "couldn't create channel"@,
        Err(SetupErrors::CouldNotSendMessage) => "couldn't send message"@,
        Err(SetupErrors::CouldNotCreateRole) => "couldn't create role"@,
    }
}

/// Decides what is logged once a setup has ended.
pub fn setup_outcome(result: &Result<GuildSettings, SetupErrors>) -> (line: &'static str)
    ensures
        line@ == outcome_line(*result),
{
    match result {
        Ok(_) => "setup complete",
        Err(SetupErrors::CouldNotCreateChannel) => "couldn't create channel",
        Err(SetupErrors::CouldNotSendMessage) => "couldn't send message",
        Err(SetupErrors::CouldNotCreateRole) => "couldn't create role",
    }
}

} // verus!
