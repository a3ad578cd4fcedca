//! The command `setup`: what it creates in a community, step by step, and what it
//! answers.

use twilight_model::application::command::Command;
use vstd::prelude::*;
use vstd::string::*;

use crate::commands::bundle::CommandBundle;
use crate::commands::bundle::CommandError;
use crate::data::GuildSettings;
use crate::platform::chat_input_command;
use crate::platform::chat_input_descriptor;
use crate::platform::command_name;
use crate::platform::descriptor_name;

verus! {

/// The colour of the role for verified members.
pub const VERIFIED_COLOR: u32 = 6291322;

/// Why a community could not be set up.
#[derive(Debug, Clone, Copy, PartialEq, Eq, Structural)]
pub enum SetupErrors {
    CouldNotCreateChannel,
    CouldNotSendMessage,
    CouldNotCreateRole,
}

/// Something a role may or may not do in a channel.
#[derive(Debug, Clone, Copy, PartialEq, Eq, Structural)]
pub enum Permission {
    ViewChannel,
    SendMessages,
    AddReactions,
}

/// What one role may and may not do in a channel.
#[derive(Debug, Clone)]
pub struct PermissionOverwrite {
    pub role_id: u64,
    pub allow: Vec<Permission>,
    pub deny: Vec<Permission>,
}

/// Where the setup of a community stands.
#[derive(Debug, Clone, Copy, PartialEq, Eq, Structural)]
pub enum SetupState {
    /// Nothing has been asked for yet.
    Start,
    /// The role has been asked for.
    AwaitingRole,
    /// The channel has been asked for.
    AwaitingChannel { role: u64 },
    /// The message has been asked for.
    AwaitingMessage { role: u64, channel: u64 },
}

/// What the setup asks for next, or how it ended.
#[derive(Debug, Clone)]
pub enum SetupAction {
    /// Create a role: it grants nothing and cannot be mentioned.
    CreateRole { guild_id: u64, name: String, color: u32, mentionable: bool },
    /// Create a text channel with the given overwrites.
    CreateChannel { guild_id: u64, name: String, overwrites: Vec<PermissionOverwrite> },
    /// Send a message with one button.
    SendMessage { channel_id: u64, content: String, button_label: String, button_id: String },
    /// The community is set up.
    Succeed(GuildSettings),
    /// The setup failed.
    Fail(SetupErrors),
}

/// One turn of the setup: what to do, and the state to come back with once it is
/// done; no state where the setup has ended.
pub struct SetupTurn {
    pub next: Option<SetupState>,
    pub action: SetupAction,
}

/// The state after a turn. From `Start` the role is asked for. After that each
/// thing created leads to the next one, and the first thing that could not be
/// created ends the setup.
pub open spec fn next_state(state: SetupState, created: Option<u64>) -> Option<SetupState> {
    match state {
        SetupState::Start => Some(SetupState::AwaitingRole),
        SetupState::AwaitingRole => match created {
            Some(role) => Some(SetupState::AwaitingChannel { role }),
            None => None,
        },
        SetupState::AwaitingChannel { role } => match created {
            Some(channel) => Some(SetupState::AwaitingMessage { role, channel }),
            None => None,
        },
        SetupState::AwaitingMessage { .. } => None,
    }
}

/// How the setup ends, if it ends in this turn.
pub open spec fn ending(guild_id: u64, state: SetupState, created: Option<u64>) -> Option<
    Result<GuildSettings, SetupErrors>,
> {
    match state {
        SetupState::Start => None,
        SetupState::AwaitingRole => match created {
            Some(_) => None,
            None => Some(Err(SetupErrors::CouldNotCreateRole)),
        },
        SetupState::AwaitingChannel { .. } => match created {
            Some(_) => None,
            None => Some(Err(SetupErrors::CouldNotCreateChannel)),
        },
        SetupState::AwaitingMessage { role, channel } => match created {
            Some(message) => Some(
                Ok(
                    GuildSettings {
                        guild_id,
                        verification_channel: channel,
                        verified_role: role,
                        verification_message: message,
                    },
                ),
            ),
            None => Some(Err(SetupErrors::CouldNotSendMessage)),
        },
    }
}

/// Whether `overwrites` are those of the verification channel: everyone may see
/// it but neither write nor react, and verified members do not see it.
pub open spec fn hides_from_verified(
    overwrites: Seq<PermissionOverwrite>,
    guild_id: u64,
    role: u64,
) -> bool {
    &&& overwrites.len() == 2
    &&& overwrites[0].role_id == guild_id
    &&& overwrites[0].allow@ == seq![Permission::ViewChannel]
    &&& overwrites[0].deny@ == seq![Permission::SendMessages, Permission::AddReactions]
    &&& overwrites[1].role_id == role
    &&& overwrites[1].allow@ == Seq::<Permission>::empty()
    &&& overwrites[1].deny@ == seq![Permission::ViewChannel]
}

/// Whether `action` is what the setup does in this turn.
pub open spec fn setup_action(
    guild_id: u64,
    state: SetupState,
    created: Option<u64>,
    action: SetupAction,
) -> bool {
    match ending(guild_id, state, created) {
        Some(Ok(settings)) => action == SetupAction::Succeed(settings),
        Some(Err(error)) => action == SetupAction::Fail(error),
        None => match state {
            SetupState::Start => {
                &&& action matches SetupAction::CreateRole { guild_id: g, name, color, mentionable }
                &&& g == guild_id
                &&& name@ == "verified"@
                &&& color == VERIFIED_COLOR
                &&& !mentionable
            },
            SetupState::AwaitingRole => {
                &&& action matches SetupAction::CreateChannel { guild_id: g, name, overwrites }
                &&& g == guild_id
                &&& name@ == "verify"@
                &&& hides_from_verified(overwrites@, guild_id, created->0)
            },
            _ => {
                &&& action matches SetupAction::SendMessage {
                    channel_id,
                    content,
                    button_label,
                    button_id,
                }
                &&& Some(channel_id) == created
                &&& content@ == "verification message"@
                &&& button_label@ == "verify"@
                &&& button_id@ == "verify"@
            },
        },
    }
}

/// The command `setup`.
pub struct SetupCommand {}

impl SetupCommand {
    /// The command.
    pub fn new() -> (command: Self) {
        SetupCommand {  }
    }

    /// Decides the next turn of the setup of the community `guild_id`. `created`
    /// is the id of what the turn before asked for, `None` where that could not be
    /// created; at `Start` it is not looked at.
    pub fn setup_verification(guild_id: u64, state: SetupState, created: Option<u64>) -> (turn:
        SetupTurn)
        ensures
            turn.next == next_state(state, created),
            setup_action(guild_id, state, created, turn.action),
            turn.next is None <==> ending(guild_id, state, created) is Some,
    {
        match state {
            SetupState::Start => SetupTurn {
                next: Some(SetupState::AwaitingRole),
                action: SetupAction::CreateRole {
                    guild_id,
                    name: String::from_str("verified"),
                    color: VERIFIED_COLOR,
                    mentionable: false,
                },
            },
            SetupState::AwaitingRole => match created {
                Some(role) => {
                    let mut everyone_allow: Vec<Permission> = Vec::new();
                    everyone_allow.push(Permission::ViewChannel);
                    let mut everyone_deny: Vec<Permission> = Vec::new();
                    everyone_deny.push(Permission::SendMessages);
                    everyone_deny.push(Permission::AddReactions);
                    let mut verified_deny: Vec<Permission> = Vec::new();
                    verified_deny.push(Permission::ViewChannel);
                    let mut overwrites: Vec<PermissionOverwrite> = Vec::new();
                    overwrites.push(
                        PermissionOverwrite {
                            role_id: guild_id,
                            allow: everyone_allow,
                            deny: everyone_deny,
                        },
                    );
                    overwrites.push(
                        PermissionOverwrite {
                            role_id: role,
                            allow: Vec::new(),
                            deny: verified_deny,
                        },
                    );
                    assert(overwrites@[0].allow@ =~= seq![Permission::ViewChannel]);
                    assert(overwrites@[0].deny@ =~= seq![
                        Permission::SendMessages,
                        Permission::AddReactions,
                    ]);
                    assert(overwrites@[1].deny@ =~= seq![Permission::ViewChannel]);
                    assert(overwrites@[1].allow@ =~= Seq::<Permission>::empty());
                    SetupTurn {
                        next: Some(SetupState::AwaitingChannel { role }),
                        action: SetupAction::CreateChannel {
                            guild_id,
                            name: String::from_str("verify"),
                            overwrites,
                        },
                    }
                },
                None => SetupTurn {
                    next: None,
                    action: SetupAction::Fail(SetupErrors::CouldNotCreateRole),
                },
            },
            SetupState::AwaitingChannel { role } => match created {
                Some(channel) => SetupTurn {
                    next: Some(SetupState::AwaitingMessage { role, channel }),
                    action: SetupAction::SendMessage {
                        channel_id: channel,
                        content: String::from_str("verification message"),
                        button_label: String::from_str("verify"),
                        button_id: String::from_str("verify"),
                    },
                },
                None => SetupTurn {
                    next: None,
                    action: SetupAction::Fail(SetupErrors::CouldNotCreateChannel),
                },
            },
            SetupState::AwaitingMessage { role, channel } => match created {
                Some(message) => SetupTurn {
                    next: None,
                    action: SetupAction::Succeed(
                        GuildSettings {
                            guild_id,
                            verification_channel: channel,
                            verified_role: role,
                            verification_message: message,
                        },
                    ),
                },
                None => SetupTurn {
                    next: None,
                    action: SetupAction::Fail(SetupErrors::CouldNotSendMessage),
                },
            },
        }
    }

    /// What the command answers where it was not invoked from a community.
    pub open spec fn outside_text() -> Seq<char> {
        "This command must be done in a guild!"@
    }

    /// What the command answers once the setup has ended, the settings having been
    /// stored where it succeeded.
    pub open spec fn outcome_text(result: Result<GuildSettings, SetupErrors>) -> Seq<char> {
        match result {
            Ok(_) => "Setup complete!"@,
            Err(SetupErrors::CouldNotCreateChannel) => "Could not create channel"@,
            Err(SetupErrors::CouldNotSendMessage) => "Could not send message!"@,
            Err(SetupErrors::CouldNotCreateRole) => "Could not create role"@,
        }
    }

    /// Decides how the command begins: with the setup of the community it was
    /// invoked from, or, invoked from nowhere, with the answer that it must be
    /// invoked from a community.
    pub fn begin(guild_id: Option<u64>) -> (start: Result<u64, String>)
        ensures
            match start {
                Ok(guild) => guild_id == Some(guild),
                Err(reply) => guild_id is None && reply@ == Self::outside_text(),
            },
    {
        match guild_id {
            Some(guild) => Ok(guild),
            None => Err(String::from_str("This command must be done in a guild!")),
        }
    }

    /// Decides what the command answers once the setup has ended. `stored` says
    /// whether the settings could be stored; it is looked at only where the setup
    /// succeeded. Settings that could not be stored are an internal fault.
    pub fn finish(result: Result<GuildSettings, SetupErrors>, stored: bool) -> (answer: Result<
        String,
        CommandError,
    >)
        ensures
            match answer {
                Ok(reply) => (result is Err || stored) && reply@ == Self::outcome_text(result),
                Err(error) => {
                    &&& result is Ok
                    &&& !stored
                    &&& error matches CommandError::Internal(message)
                    &&& message@ == "Could not save guild settings!"@
                },
            },
    {
        match result {
            Ok(_) => {
                if stored {
                    Ok(String::from_str("Setup complete!"))
                } else {
                    Err(CommandError::Internal(String::from_str("Could not save guild settings!")))
                }
            },
            Err(SetupErrors::CouldNotCreateChannel) => Ok(
                String::from_str("Could not create channel"),
            ),
            Err(SetupErrors::CouldNotSendMessage) => Ok(String::from_str("Could not send message!")),
            Err(SetupErrors::CouldNotCreateRole) => Ok(String::from_str("Could not create role")),
        }
    }
}

impl CommandBundle for SetupCommand {
    /// The descriptor of the slash command `setup`.
    open spec fn descriptor(&self) -> Command {
        chat_input_descriptor("setup"@, "Automatically sets up the bot"@)
    }

    /// `setup`, the name that the descriptor carries.
    open spec fn named(&self) -> Seq<char> {
        "setup"@
    }

    fn definition(&self) -> (definition: Command)
        ensures
            descriptor_name(definition) == "setup"@,
    {
        chat_input_command("setup", "Automatically sets up the bot")
    }

    fn name(&self) -> (name: String) {
        command_name(&self.definition())
    }
}

} // verus!
