//! What a command answers with, and the calls to the platform that carry the
//! answer.

use twilight_model::channel::message::AllowedMentions;
use twilight_model::channel::message::Component;
use twilight_model::channel::message::Embed;
use twilight_model::http::attachment::Attachment;
use vstd::prelude::*;

use crate::commands::localized::CommandOptionChoice;
use crate::commands::localized::CommandOptionChoiceView;

verus! {

/// The bit of the message flags that makes a response visible to the invoker only.
pub const EPHEMERAL: u64 = 64;

/// The kind of a response.
#[derive(Debug, Clone, Copy, PartialEq, Eq, Structural)]
pub enum InteractionResponseType {
    Pong,
    ChannelMessageWithSource,
    DeferredChannelMessageWithSource,
    DeferredUpdateMessage,
    UpdateMessage,
    ApplicationCommandAutocompleteResult,
    Modal,
}

/// The payload of a response.
#[derive(Debug, Clone)]
pub struct InteractionResponseData {
    pub allowed_mentions: Option<AllowedMentions>,
    pub attachments: Option<Vec<Attachment>>,
    pub choices: Option<Vec<CommandOptionChoice>>,
    pub components: Option<Vec<Component>>,
    pub content: Option<String>,
    pub custom_id: Option<String>,
    pub embeds: Option<Vec<Embed>>,
    /// Message flags as a bit set; see [`EPHEMERAL`].
    pub flags: Option<u64>,
    pub title: Option<String>,
    pub tts: Option<bool>,
}

/// A response to one interaction.
#[derive(Debug, Clone)]
pub struct InteractionResponse {
    pub kind: InteractionResponseType,
    pub data: Option<InteractionResponseData>,
}

/// The characters of a text that may be absent.
pub open spec fn text_view(text: Option<String>) -> Option<Seq<char>> {
    match text {
        Some(text) => Some(text@),
        None => None,
    }
}

/// The items of a list that may be absent.
pub open spec fn list_view<T>(list: Option<Vec<T>>) -> Option<Seq<T>> {
    match list {
        Some(list) => Some(list@),
        None => None,
    }
}

/// The value of each choice of a list.
pub open spec fn choice_values(choices: Seq<CommandOptionChoice>) -> Seq<CommandOptionChoiceView> {
    Seq::new(choices.len(), |i: int| choices[i]@)
}

/// The values of a list of choices that may be absent.
pub open spec fn choices_view(choices: Option<Vec<CommandOptionChoice>>) -> Option<
    Seq<CommandOptionChoiceView>,
> {
    match choices {
        Some(choices) => Some(choice_values(choices@)),
        None => None,
    }
}

/// The mathematical value of a response payload.
pub struct InteractionResponseDataView {
    pub allowed_mentions: Option<AllowedMentions>,
    pub attachments: Option<Seq<Attachment>>,
    pub choices: Option<Seq<CommandOptionChoiceView>>,
    pub components: Option<Seq<Component>>,
    pub content: Option<Seq<char>>,
    pub custom_id: Option<Seq<char>>,
    pub embeds: Option<Seq<Embed>>,
    pub flags: Option<u64>,
    pub title: Option<Seq<char>>,
    pub tts: Option<bool>,
}

/// The mathematical value of a response.
pub struct InteractionResponseView {
    pub kind: InteractionResponseType,
    pub data: Option<InteractionResponseDataView>,
}

impl View for InteractionResponseData {
    type V = InteractionResponseDataView;

    open spec fn view(&self) -> InteractionResponseDataView {
        InteractionResponseDataView {
            allowed_mentions: self.allowed_mentions,
            attachments: list_view(self.attachments),
            choices: choices_view(self.choices),
            components: list_view(self.components),
            content: text_view(self.content),
            custom_id: text_view(self.custom_id),
            embeds: list_view(self.embeds),
            flags: self.flags,
            title: text_view(self.title),
            tts: self.tts,
        }
    }
}

impl View for InteractionResponse {
    type V = InteractionResponseView;

    open spec fn view(&self) -> InteractionResponseView {
        InteractionResponseView {
            kind: self.kind,
            data: match self.data {
                Some(data) => Some(data@),
                None => None,
            },
        }
    }
}

impl InteractionResponseDataView {
    /// The payload that holds nothing.
    pub open spec fn empty() -> Self {
        InteractionResponseDataView {
            allowed_mentions: None,
            attachments: None,
            choices: None,
            components: None,
            content: None,
            custom_id: None,
            embeds: None,
            flags: None,
            title: None,
            tts: None,
        }
    }

    /// A message with `content`, visible to the invoker only where `ephemeral`.
    pub open spec fn message(content: Seq<char>, ephemeral: bool) -> Self {
        InteractionResponseDataView {
            content: Some(content),
            flags: if ephemeral {
                Some(EPHEMERAL)
            } else {
                None
            },
            ..Self::empty()
        }
    }
}

impl InteractionResponseView {
    /// The response that shows `content` as a new message.
    pub open spec fn message(content: Seq<char>, ephemeral: bool) -> Self {
        InteractionResponseView {
            kind: InteractionResponseType::ChannelMessageWithSource,
            data: Some(InteractionResponseDataView::message(content, ephemeral)),
        }
    }

    /// The response that only acknowledges, leaving the message to be edited later.
    pub open spec fn deferred() -> Self {
        InteractionResponseView { kind: InteractionResponseType::DeferredUpdateMessage, data: None }
    }

    /// The response that offers `choices` for the option being typed.
    pub open spec fn choices(choices: Seq<CommandOptionChoiceView>) -> Self {
        InteractionResponseView {
            kind: InteractionResponseType::ApplicationCommandAutocompleteResult,
            data: Some(
                InteractionResponseDataView {
                    choices: Some(choices),
                    ..InteractionResponseDataView::empty()
                },
            ),
        }
    }

    /// Whether the response is a message that only the invoker sees.
    pub open spec fn is_ephemeral(self) -> bool {
        self.data matches Some(data) && data.flags == Some(EPHEMERAL)
    }
}

impl Default for InteractionResponseData {
    fn default() -> (data: Self)
        ensures
            data@ == InteractionResponseDataView::empty(),
    {
        InteractionResponseData {
            allowed_mentions: None,
            attachments: None,
            choices: None,
            components: None,
            content: None,
            custom_id: None,
            embeds: None,
            flags: None,
            title: None,
            tts: None,
        }
    }
}

/// A call to the platform that carries a response.
#[derive(Debug, Clone)]
pub enum ResponseCall {
    /// Creates the response to an interaction: the first answer it gets.
    Create {
        application_id: u64,
        interaction_id: u64,
        token: String,
        response: InteractionResponse,
    },
    /// Sets the response that was created before. What is absent is left as it
    /// is, but the attachments: those that are not listed to be kept are dropped.
    Update {
        application_id: u64,
        token: String,
        content: Option<String>,
        embeds: Option<Vec<Embed>>,
        allowed_mentions: Option<AllowedMentions>,
        components: Option<Vec<Component>>,
        attachment_ids_to_keep: Vec<u64>,
        attachments: Vec<Attachment>,
    },
}

/// The mathematical value of a call that carries a response.
pub enum ResponseCallView {
    Create {
        application_id: u64,
        interaction_id: u64,
        token: Seq<char>,
        response: InteractionResponseView,
    },
    Update {
        application_id: u64,
        token: Seq<char>,
        content: Option<Seq<char>>,
        embeds: Option<Seq<Embed>>,
        allowed_mentions: Option<AllowedMentions>,
        components: Option<Seq<Component>>,
        attachment_ids_to_keep: Seq<u64>,
        attachments: Seq<Attachment>,
    },
}

impl View for ResponseCall {
    type V = ResponseCallView;

    open spec fn view(&self) -> ResponseCallView {
        match *self {
            ResponseCall::Create { application_id, interaction_id, token, response } => {
                ResponseCallView::Create {
                    application_id,
                    interaction_id,
                    token: token@,
                    response: response@,
                }
            },
            ResponseCall::Update {
                application_id,
                token,
                content,
                embeds,
                allowed_mentions,
                components,
                attachment_ids_to_keep,
                attachments,
            } => ResponseCallView::Update {
                application_id,
                token: token@,
                content: text_view(content),
                embeds: list_view(embeds),
                allowed_mentions,
                components: list_view(components),
                attachment_ids_to_keep: attachment_ids_to_keep@,
                attachments: attachments@,
            },
        }
    }
}

impl ResponseCall {
    /// Whether the call creates a response.
    pub fn is_create(&self) -> (create: bool)
        ensures
            create == (self@ is Create),
    {
        match self {
            ResponseCall::Create { .. } => true,
            ResponseCall::Update { .. } => false,
        }
    }
}

} // verus!
