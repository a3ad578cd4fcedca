//! Routing an invocation to the command that owns it, and what is done when the
//! command fails.

use vstd::prelude::*;
use vstd::string::*;

use crate::commands::bundle::CommandError;
use crate::commands::context::call_for;
use crate::commands::context::CommandContext;
use crate::commands::context::Correlation;
use crate::commands::interaction::CommandData;
use crate::commands::interaction::Interaction;
use crate::commands::interaction::InteractionData;
use crate::commands::interaction::InteractionType;
use crate::commands::localized::AutocompleteChoice;
use crate::commands::registry::resolved;
use crate::commands::registry::CommandRegistry;
use crate::commands::response::text_view;
use crate::commands::response::InteractionResponseView;
use crate::commands::response::ResponseCall;

verus! {

/// What is to be done with an invocation.
pub enum Routed<'a, B> {
    /// Nothing: no call is to be made and nothing is to be logged.
    Ignored,
    /// `command` is to be executed with `data`, answering through `context`.
    Command { command: &'a B, context: CommandContext, data: &'a CommandData },
    /// `command` is to offer choices for `data`, answering through `context`.
    Autocomplete { command: &'a B, context: CommandContext, data: &'a CommandData },
}

/// What is done about a command that failed: the lines to log, the one reply to
/// send, and the line to log should the reply not get through.
pub struct Failure {
    pub logs: Vec<String>,
    pub reply: ResponseCall,
    pub if_undelivered: String,
}

/// The command data of an invocation of the given kind, if the invocation is of
/// that kind and carries command data.
pub open spec fn command_data_of(interaction: Interaction, kind: InteractionType) -> Option<
    CommandData,
> {
    if interaction.kind == kind {
        match interaction.data {
            Some(InteractionData::ApplicationCommand(data)) => Some(data),
            _ => None,
        }
    } else {
        None
    }
}

/// What the invoker is told when a command failed. A rejected input is reported
/// with the reason given for it; a failed call and an internal fault are reported
/// in general words, without their detail.
pub open spec fn reply_text(error: CommandError) -> Seq<char> {
    match error {
        CommandError::Http(_) => "HTTP error"@,
        CommandError::Validation(message) => "Command validation error: "@ + message@,
        CommandError::Internal(_) => "Internal error"@,
    }
}

/// What is logged when a command failed, before the invoker is told: the error in
/// full, and for an internal fault its message once more on a line of its own.
pub open spec fn failure_logs(error: CommandError) -> Seq<Seq<char>> {
    match error {
        CommandError::Internal(message) => seq![
            "Command execution error: "@ + error.line(),
            "Command internal error: "@ + message@,
        ],
        _ => seq!["Command execution error: "@ + error.line()],
    }
}

/// What is logged when the invoker could not be told.
pub open spec fn undelivered_log(error: CommandError) -> Seq<char> {
    match error {
        CommandError::Http(_) => "Command reply error: "@ + error.line(),
        CommandError::Validation(_) => "Command validation error: "@ + reply_text(error),
        CommandError::Internal(message) => "Command internal error: "@ + message@,
    }
}

/// The characters of each line.
pub open spec fn lines_view(lines: Seq<String>) -> Seq<Seq<char>> {
    Seq::new(lines.len(), |i: int| lines[i]@)
}

impl<B> CommandRegistry<B> {
    /// What [`CommandRegistry::handle_interaction`] decides for an invocation.
    pub open spec fn routes(&self, interaction: &Interaction, routed: Routed<B>) -> bool {
        match routed {
            Routed::Ignored => {
                &&& match command_data_of(*interaction, InteractionType::ApplicationCommand) {
                    Some(data) => resolved(self@, data.name@, data.guild_id) is None,
                    None => true,
                }
                &&& match command_data_of(
                    *interaction,
                    InteractionType::ApplicationCommandAutocomplete,
                ) {
                    Some(data) => resolved(self@, data.name@, data.guild_id) is None,
                    None => true,
                }
            },
            Routed::Command { command, context, data } => {
                &&& command_data_of(*interaction, InteractionType::ApplicationCommand) == Some(
                    *data,
                )
                &&& resolved(self@, data.name@, data.guild_id) == Some(*command)
                &&& fresh_for(context, *interaction)
            },
            Routed::Autocomplete { command, context, data } => {
                &&& command_data_of(
                    *interaction,
                    InteractionType::ApplicationCommandAutocomplete,
                ) == Some(*data)
                &&& resolved(self@, data.name@, data.guild_id) == Some(*command)
                &&& fresh_for(context, *interaction)
            },
        }
    }

    /// Decides what is to be done with an invocation.
    ///
    /// A command invocation and an autocomplete request are routed to the command
    /// that their name resolves to from the community named in their data, with a
    /// fresh context. Every other invocation is ignored, and so is one whose name
    /// resolves to no command or which carries no command data.
    pub fn handle_interaction<'a>(&'a self, interaction: &'a Interaction) -> (routed: Routed<'a, B>)
        ensures
            self.routes(interaction, routed),
    {
        match interaction.kind {
            InteractionType::ApplicationCommand => {
                match &interaction.data {
                    Some(InteractionData::ApplicationCommand(data)) => {
                        match self.find_command(data.name.as_str(), data.guild_id) {
                            Some(command) => Routed::Command {
                                command,
                                context: CommandContext::new(interaction),
                                data,
                            },
                            None => Routed::Ignored,
                        }
                    },
                    _ => Routed::Ignored,
                }
            },
            InteractionType::ApplicationCommandAutocomplete => {
                match &interaction.data {
                    Some(InteractionData::ApplicationCommand(data)) => {
                        match self.find_command(data.name.as_str(), data.guild_id) {
                            Some(command) => Routed::Autocomplete {
                                command,
                                context: CommandContext::new(interaction),
                                data,
                            },
                            None => Routed::Ignored,
                        }
                    },
                    _ => Routed::Ignored,
                }
            },
            _ => Routed::Ignored,
        }
    }

    /// Decides what is done once a command has run. A command that succeeded needs
    /// nothing more. For one that failed the failure is logged and the invoker is
    /// told once, in a message only they see, through the context the command
    /// answered with.
    pub fn handle_command(context: &CommandContext, result: Result<(), CommandError>) -> (failure:
        Option<Failure>)
        ensures
            match result {
                Ok(_) => failure is None,
                Err(error) => {
                    &&& failure is Some
                    &&& lines_view(failure->0.logs@) == failure_logs(error)
                    &&& failure->0.reply@ == call_for(
                        context.interaction(),
                        context.replied(),
                        InteractionResponseView::message(reply_text(error), true),
                    )
                    &&& failure->0.if_undelivered@ == undelivered_log(error)
                },
            },
    {
        match result {
            Ok(_) => None,
            Err(error) => {
                let mut logs: Vec<String> = Vec::new();
                logs.push(String::from_str("Command execution error: ").concat(error.to_string().as_str()));
                let text = match &error {
                    CommandError::Http(_) => String::from_str("HTTP error"),
                    CommandError::Validation(message) => String::from_str(
                        "Command validation error: ",
                    ).concat(message.as_str()),
                    CommandError::Internal(_) => String::from_str("Internal error"),
                };
                let if_undelivered = match &error {
                    CommandError::Http(_) => String::from_str("Command reply error: ").concat(
                        error.to_string().as_str(),
                    ),
                    CommandError::Validation(_) => String::from_str(
                        "Command validation error: ",
                    ).concat(text.as_str()),
                    CommandError::Internal(message) => String::from_str(
                        "Command internal error: ",
                    ).concat(message.as_str()),
                };
                match &error {
                    CommandError::Internal(message) => {
                        logs.push(String::from_str("Command internal error: ").concat(message.as_str()));
                    },
                    _ => {},
                }
                assert(lines_view(logs@) =~= failure_logs(error));
                Some(Failure { logs, reply: context.reply_ephemeral(text), if_undelivered })
            },
        }
    }

    /// Decides what is logged once the reply about a failure has been sent: the
    /// line kept for that case if the reply did not get through, else nothing.
    /// Nothing more is sent either way.
    pub fn handle_reply(failure: Failure, outcome: Result<(), String>) -> (log: Option<String>)
        ensures
            log == match outcome {
                Ok(_) => None,
                Err(_) => Some(failure.if_undelivered),
            },
    {
        match outcome {
            Ok(_) => None,
            Err(_) => Some(failure.if_undelivered),
        }
    }

    /// Decides what is done once a command has been asked for choices: a failure
    /// is logged; nothing is sent, for offering the choices is the command's own
    /// business.
    pub fn handle_autocomplete(result: Result<Vec<AutocompleteChoice>, CommandError>) -> (log:
        Option<String>)
        ensures
            text_view(log) == match result {
                Ok(_) => None,
                Err(error) => Some("Autocomplete error: "@ + error.line()),
            },
    {
        match result {
            Ok(_) => None,
            Err(error) => Some(
                String::from_str("Autocomplete error: ").concat(error.to_string().as_str()),
            ),
        }
    }
}

/// `context` is the context of `interaction` before any answer.
pub open spec fn fresh_for(context: CommandContext, interaction: Interaction) -> bool {
    &&& context.interaction() == (Correlation {
        application_id: interaction.application_id,
        interaction_id: interaction.id,
        token: interaction.token@,
    })
    &&& context.guild_id() == interaction.guild_id
    &&& context.locale() == text_view(interaction.locale)
    &&& !context.replied()
}

/// An unknown command is ignored. Whatever an invocation names, if the name
/// resolves to no command from the community in its data, routing ignores the
/// invocation: no call is made for it and nothing is logged.
pub proof fn lemma_unknown_command_is_ignored<B>(
    registry: CommandRegistry<B>,
    interaction: Interaction,
    routed: Routed<B>,
)
    requires
        registry.routes(&interaction, routed),
        forall|data: CommandData|
            interaction.data == Some(InteractionData::ApplicationCommand(data)) ==> resolved(
                registry@,
                data.name@,
                data.guild_id,
            ) is None,
    ensures
        routed is Ignored,
{
}

/// A rejected input is told to the invoker. For a command that failed with a
/// validation error, one reply is planned; it is the call that carries, through
/// the command's context, the private message whose text ends with the reason
/// given, and for a context that has not answered yet it creates that message.
pub proof fn lemma_validation_is_told(interaction: Correlation, replied: bool, message: String)
    ensures
        ({
            let text = reply_text(CommandError::Validation(message));
            let call = call_for(interaction, replied, InteractionResponseView::message(text, true));
            &&& text.len() >= message@.len()
            &&& text.subrange(text.len() - message@.len(), text.len() as int) == message@
            &&& !replied ==> (call matches crate::commands::response::ResponseCallView::Create {
                response,
                ..
            } && response.is_ephemeral() && response.data->0.content == Some(text))
        }),
{
    let text = reply_text(CommandError::Validation(message));
    assert(text.subrange(text.len() - message@.len(), text.len() as int) =~= message@);
}

} // verus!
