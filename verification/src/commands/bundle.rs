//! What a command is: its descriptor, the scope it is registered under, and the
//! ways it can fail.

use twilight_model::application::command::Command;
use vstd::prelude::*;
use vstd::string::*;

use crate::platform::command_name;
use crate::platform::copy_command;
use crate::platform::descriptor_name;

verus! {

/// Where a command can be invoked.
#[derive(Debug, Clone)]
pub enum CommandScope {
    /// Everywhere.
    Global,
    /// In one community.
    Guild(u64),
    /// In each of the listed communities.
    Guilds(Vec<u64>),
}

/// A command together with the scope it is to be registered under.
pub struct CommandRegistration<B> {
    pub scope: CommandScope,
    pub command: B,
}

/// Why a command failed.
#[derive(Debug, Clone)]
pub enum CommandError {
    /// A call to the platform failed; the text is the transport's account of it.
    Http(String),
    /// What the invoker gave was rejected; the text may be shown to them.
    Validation(String),
    /// Something went wrong inside the command; the text is for the log.
    Internal(String),
}

impl CommandError {
    /// The error as one line: its kind, a colon, and its text.
    pub open spec fn line(self) -> Seq<char> {
        match self {
            CommandError::Http(detail) => "HTTP error: "@ + detail@,
            CommandError::Validation(message) => "Validation error: "@ + message@,
            CommandError::Internal(message) => "Internal error: "@ + message@,
        }
    }

    /// Writes the error as one line.
    pub fn to_string(&self) -> (line: String)
        ensures
            line@ == self.line(),
    {
        match self {
            CommandError::Http(detail) => String::from_str("HTTP error: ").concat(detail.as_str()),
            CommandError::Validation(message) => String::from_str("Validation error: ").concat(
                message.as_str(),
            ),
            CommandError::Internal(message) => String::from_str("Internal error: ").concat(
                message.as_str(),
            ),
        }
    }
}

/// One invocable command. The framework asks a command for its descriptor and its
/// name; it never looks at how the command is made. A command gives the same
/// descriptor and the same name whenever it is asked.
pub trait CommandBundle {
    /// The descriptor under which the platform lists the command.
    spec fn descriptor(&self) -> Command;

    /// The name under which the command is registered and found.
    spec fn named(&self) -> Seq<char>;

    /// The descriptor under which the platform lists the command.
    fn definition(&self) -> (definition: Command)
        ensures
            definition == self.descriptor(),
    ;

    /// The name under which the command is registered and found.
    fn name(&self) -> (name: String)
        ensures
            name@ == self.named(),
    ;
}

/// A command made of its parts: a descriptor, the name it goes by, and whatever
/// runs when it is invoked. The library never looks at the last.
pub struct Bundle<C> {
    pub name: String,
    pub definition: Command,
    pub command: C,
}

impl<C> Bundle<C> {
    /// The command that goes by the name its descriptor carries.
    pub fn new(definition: Command, command: C) -> (bundle: Self)
        ensures
            bundle.name@ == descriptor_name(definition),
            bundle.definition == definition,
            bundle.command == command,
    {
        Bundle { name: command_name(&definition), definition, command }
    }

    /// The command that goes by `name`, whatever name its descriptor carries.
    pub fn named_as(name: String, definition: Command, command: C) -> (bundle: Self)
        ensures
            bundle.name == name,
            bundle.definition == definition,
            bundle.command == command,
    {
        Bundle { name, definition, command }
    }
}

impl<C> CommandBundle for Bundle<C> {
    open spec fn descriptor(&self) -> Command {
        self.definition
    }

    open spec fn named(&self) -> Seq<char> {
        self.name@
    }

    fn definition(&self) -> (definition: Command) {
        copy_command(&self.definition)
    }

    fn name(&self) -> (name: String) {
        self.name.clone()
    }
}

} // verus!
