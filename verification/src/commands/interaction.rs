//! What the platform tells of one invocation: who invoked what, where, and with
//! which options.

use vstd::prelude::*;

verus! {

/// The kind of an invocation.
#[derive(Debug, Clone, Copy, PartialEq, Eq, Structural)]
pub enum InteractionType {
    Ping,
    ApplicationCommand,
    MessageComponent,
    ApplicationCommandAutocomplete,
    ModalSubmit,
    /// A kind that this library does not know.
    Unknown,
}

/// The value given for one option of a command.
#[derive(Debug, Clone)]
pub enum CommandOptionValue {
    Attachment(u64),
    Boolean(bool),
    Channel(u64),
    /// The option that is being typed, with what was typed so far.
    Focused(String),
    Integer(i64),
    Mentionable(u64),
    /// A floating-point number, held as the bits of its binary64 form.
    Number(u64),
    Role(u64),
    String(String),
    User(u64),
    /// A value of a kind that this library does not read.
    Other,
}

/// One option of an invoked command.
#[derive(Debug, Clone)]
pub struct CommandDataOption {
    pub name: String,
    pub value: CommandOptionValue,
}

/// The command that was invoked, and its options in the order given.
#[derive(Debug, Clone)]
pub struct CommandData {
    pub guild_id: Option<u64>,
    pub id: u64,
    pub name: String,
    pub options: Vec<CommandDataOption>,
}

/// The component of a message that was used.
#[derive(Debug, Clone)]
pub struct MessageComponentData {
    pub custom_id: String,
}

/// One field of a submitted form.
#[derive(Debug, Clone)]
pub struct ModalField {
    pub custom_id: String,
    pub value: Option<String>,
}

/// One row of a submitted form.
#[derive(Debug, Clone)]
pub struct ModalRow {
    pub components: Vec<ModalField>,
}

/// A submitted form.
#[derive(Debug, Clone)]
pub struct ModalSubmitData {
    pub custom_id: String,
    pub components: Vec<ModalRow>,
}

/// What an invocation carries, by its shape.
#[derive(Debug, Clone)]
pub enum InteractionData {
    ApplicationCommand(CommandData),
    MessageComponent(MessageComponentData),
    ModalSubmit(ModalSubmitData),
}

/// One invocation, with the id and token that its responses must quote.
#[derive(Debug, Clone)]
pub struct Interaction {
    pub application_id: u64,
    pub id: u64,
    pub kind: InteractionType,
    pub data: Option<InteractionData>,
    pub guild_id: Option<u64>,
    /// The tag of the invoker's locale.
    pub locale: Option<String>,
    /// The invoker, where the invocation came from a community member.
    pub member_user_id: Option<u64>,
    pub token: String,
}

/// The place of the first option named `name`, if there is one.
pub open spec fn first_named(options: Seq<CommandDataOption>, name: Seq<char>) -> Option<int> {
    if exists|i: int| 0 <= i < options.len() && options[i].name@ == name {
        Some(
            choose|i: int|
                0 <= i < options.len() && options[i].name@ == name && forall|j: int|
                    0 <= j < i ==> options[j].name@ != name,
        )
    } else {
        None
    }
}

/// The text given for the first option named `name`, if that option holds a text.
pub open spec fn string_option(options: Seq<CommandDataOption>, name: Seq<char>) -> Option<
    Seq<char>,
> {
    match first_named(options, name) {
        Some(i) => match options[i].value {
            CommandOptionValue::String(text) => Some(text@),
            _ => None,
        },
        None => None,
    }
}

/// The integer given for the first option named `name`, if that option holds an
/// integer.
pub open spec fn integer_option(options: Seq<CommandDataOption>, name: Seq<char>) -> Option<i64> {
    match first_named(options, name) {
        Some(i) => match options[i].value {
            CommandOptionValue::Integer(number) => Some(number),
            _ => None,
        },
        None => None,
    }
}

/// Finds the first option named `name`.
pub fn find_option<'a>(options: &'a Vec<CommandDataOption>, name: &str) -> (found: Option<
    &'a CommandDataOption,
>)
    ensures
        match found {
            Some(option) => first_named(options@, name@) matches Some(i) && *option == options@[i],
            None => first_named(options@, name@) is None,
        },
{
    let wanted = name.to_owned();
    let mut i: usize = 0;
    while i < options.len()
        invariant
            i <= options@.len(),
            wanted@ == name@,
            forall|j: int| 0 <= j < i ==> options@[j].name@ != name@,
        decreases options@.len() - i,
    {
        if options[i].name == wanted {
            proof {
                let first = choose|k: int|
                    0 <= k < options@.len() && options@[k].name@ == name@ && forall|j: int|
                        0 <= j < k ==> options@[j].name@ != name@;
                assert(0 <= i < options@.len() && options@[i as int].name@ == name@ && forall|
                    j: int,
                | 0 <= j < i ==> options@[j].name@ != name@);
                assert(first == i);
            }
            return Some(&options[i]);
        }
        i += 1;
    }
    None
}

} // verus!
