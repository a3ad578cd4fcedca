//! Values of the platform model that the library hands on without looking inside.

use vstd::prelude::*;

verus! {

/// `twilight_model::channel::message::Embed`: rich content attached to a
/// message. Nothing is claimed of it; the library only carries it from a response
/// to the call that sends it.
#[verifier::external_type_specification]
#[verifier::external_body]
pub struct ExEmbed(twilight_model::channel::message::Embed);

/// `twilight_model::channel::message::Component`: an interactive part of a
/// message. Nothing is claimed of it; it is only carried.
#[verifier::external_type_specification]
#[verifier::external_body]
pub struct ExComponent(twilight_model::channel::message::Component);

/// `twilight_model::channel::message::AllowedMentions`: who a message may
/// notify. Nothing is claimed of it; it is only carried.
#[verifier::external_type_specification]
#[verifier::external_body]
pub struct ExAllowedMentions(twilight_model::channel::message::AllowedMentions);

/// `twilight_model::http::attachment::Attachment`: a file sent with a message.
/// Nothing is claimed of it; it is only carried.
#[verifier::external_type_specification]
#[verifier::external_body]
pub struct ExAttachment(twilight_model::http::attachment::Attachment);

/// `twilight_model::application::command::Command`: the descriptor of a command
/// as the platform takes it. Nothing is claimed of it; the library hands the
/// descriptors of its commands on in batches.
#[verifier::external_type_specification]
#[verifier::external_body]
pub struct ExCommand(twilight_model::application::command::Command);

} // verus!

verus! {

/// The name that a descriptor carries: the field `name` of a
/// `twilight_model::application::command::Command`.
pub uninterp spec fn descriptor_name(
    definition: twilight_model::application::command::Command,
) -> Seq<char>;

/// Reads the field `name` of a `twilight_model::application::command::Command`
/// and hands back a copy of it: the name that the descriptor carries.
#[verifier::external_body]
pub(crate) fn command_name(definition: &twilight_model::application::command::Command) -> (name:
    String)
    ensures
        name@ == descriptor_name(*definition),
{
    definition.name.clone()
}

/// Copies a descriptor with the `Clone` that
/// `twilight_model::application::command::Command` derives: the copy equals the
/// descriptor it was made from.
#[verifier::external_body]
pub(crate) fn copy_command(definition: &twilight_model::application::command::Command) -> (copy:
    twilight_model::application::command::Command)
    ensures
        copy == *definition,
{
    definition.clone()
}

} // verus!

verus! {

/// The descriptor of the slash command with the given name and description, as
/// `twilight_util::builder::command::CommandBuilder` builds it: what
/// `CommandBuilder::new(name, description, CommandType::ChatInput).build()`
/// gives. The builder fills a descriptor from its arguments and from constants
/// alone, so the same name and description always give the same descriptor.
pub uninterp spec fn chat_input_descriptor(
    name: Seq<char>,
    description: Seq<char>,
) -> twilight_model::application::command::Command;

/// Builds the descriptor of a slash command with
/// `twilight_util::builder::command::CommandBuilder::new` and `build`, from its
/// name and its description. The claim is that the result is the descriptor that
/// the builder gives for these two texts, and that it carries the given name,
/// which the builder puts into the field `name`; nothing else is claimed of what
/// the descriptor holds.
#[verifier::external_body]
pub(crate) fn chat_input_command(name: &str, description: &str) -> (definition:
    twilight_model::application::command::Command)
    ensures
        definition == chat_input_descriptor(name@, description@),
        descriptor_name(definition) == name@,
{
    twilight_util::builder::command::CommandBuilder::new(
        name,
        description,
        twilight_model::application::command::CommandType::ChatInput,
    ).build()
}

} // verus!
