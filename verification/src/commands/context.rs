//! The response protocol of one invocation: the first answer creates the response,
//! every later one updates it.

use twilight_model::channel::message::AllowedMentions;
use twilight_model::channel::message::Component;
use twilight_model::channel::message::Embed;
use twilight_model::http::attachment::Attachment;
use vstd::prelude::*;

use crate::commands::bundle::CommandError;
use crate::commands::interaction::find_option;
use crate::commands::interaction::integer_option;
use crate::commands::interaction::string_option;
use crate::commands::interaction::CommandData;
use crate::commands::interaction::CommandOptionValue;
use crate::commands::interaction::Interaction;
use crate::commands::locale::Locale;
use crate::commands::localized::AutocompleteChoice;
use crate::commands::localized::CommandOptionChoice;
use crate::commands::localized::CommandOptionChoiceView;
use crate::commands::response::InteractionResponse;
use crate::commands::response::InteractionResponseData;
use crate::commands::response::InteractionResponseDataView;
use crate::commands::response::InteractionResponseType;
use crate::commands::response::InteractionResponseView;
use crate::commands::response::ResponseCall;
use crate::commands::response::ResponseCallView;
use crate::commands::response::choice_values;
use crate::commands::response::list_view;
use crate::commands::response::text_view;
use crate::commands::response::EPHEMERAL;
use crate::text::reversed;

verus! {

/// The state of the response protocol of one invocation.
#[derive(Debug, Clone)]
pub struct CommandContext {
    application_id: u64,
    interaction_id: u64,
    token: String,
    guild_id: Option<u64>,
    locale: Option<String>,
    has_replied: bool,
}

/// What every call that answers one invocation quotes: the application, the
/// invocation, and the token that came with it.
pub struct Correlation {
    pub application_id: u64,
    pub interaction_id: u64,
    pub token: Seq<char>,
}

/// One step of the protocol: a response that was asked for, and whether the call
/// that carried it got through.
pub struct Exchange {
    pub response: InteractionResponseView,
    pub delivered: bool,
}

/// The attachments that an update sends: those of the payload, none where the
/// payload names none.
pub open spec fn sent_attachments(attachments: Option<Seq<Attachment>>) -> Seq<Attachment> {
    match attachments {
        Some(attachments) => attachments,
        None => Seq::empty(),
    }
}

/// The call that carries `response`, for an invocation that has or has not been
/// answered before.
///
/// Not answered yet: the response is created, whole. Answered: the response is
/// updated with the content, embeds, allowed mentions, components and attachments
/// of the payload and nothing else of it, and no earlier attachment is kept; a
/// response without payload updates with nothing set.
pub open spec fn call_for(
    interaction: Correlation,
    replied: bool,
    response: InteractionResponseView,
) -> ResponseCallView {
    if !replied {
        ResponseCallView::Create {
            application_id: interaction.application_id,
            interaction_id: interaction.interaction_id,
            token: interaction.token,
            response,
        }
    } else {
        let data = match response.data {
            Some(data) => data,
            None => InteractionResponseDataView::empty(),
        };
        ResponseCallView::Update {
            application_id: interaction.application_id,
            token: interaction.token,
            content: data.content,
            embeds: data.embeds,
            allowed_mentions: data.allowed_mentions,
            components: data.components,
            attachment_ids_to_keep: Seq::empty(),
            attachments: sent_attachments(data.attachments),
        }
    }
}

/// Whether the invocation counts as answered once a call has come back: it does if
/// it did before, or if the call created the response and got through.
pub open spec fn replied_after(replied: bool, call: ResponseCallView, delivered: bool) -> bool {
    replied || (call is Create && delivered)
}

/// The calls that a run of exchanges makes, one per exchange.
pub open spec fn calls_of(interaction: Correlation, replied: bool, exchanges: Seq<Exchange>) -> Seq<
    ResponseCallView,
>
    decreases exchanges.len(),
{
    if exchanges.len() == 0 {
        Seq::empty()
    } else {
        let call = call_for(interaction, replied, exchanges[0].response);
        seq![call] + calls_of(
            interaction,
            replied_after(replied, call, exchanges[0].delivered),
            exchanges.drop_first(),
        )
    }
}

/// Whether the invocation counts as answered after a run of exchanges.
pub open spec fn replied_at_end(interaction: Correlation, replied: bool, exchanges: Seq<Exchange>) -> bool
    decreases exchanges.len(),
{
    if exchanges.len() == 0 {
        replied
    } else {
        let call = call_for(interaction, replied, exchanges[0].response);
        replied_at_end(
            interaction,
            replied_after(replied, call, exchanges[0].delivered),
            exchanges.drop_first(),
        )
    }
}

/// The value of each choice as the platform takes it.
pub open spec fn offered(choices: Seq<AutocompleteChoice>) -> Seq<CommandOptionChoiceView> {
    Seq::new(choices.len(), |i: int| choices[i].offered())
}

impl CommandContext {
    /// What the calls of this context quote.
    pub closed spec fn interaction(&self) -> Correlation {
        Correlation {
            application_id: self.application_id,
            interaction_id: self.interaction_id,
            token: self.token@,
        }
    }

    /// The community the invocation came from, if it came from one.
    pub closed spec fn guild_id(&self) -> Option<u64> {
        self.guild_id
    }

    /// The tag of the invoker's locale, if the invocation names one.
    pub closed spec fn locale(&self) -> Option<Seq<char>> {
        text_view(self.locale)
    }

    /// Whether the invocation has been answered.
    pub closed spec fn replied(&self) -> bool {
        self.has_replied
    }

    /// The context of an invocation that has not been answered.
    pub fn new(interaction: &Interaction) -> (context: Self)
        ensures
            context.interaction() == (Correlation {
                application_id: interaction.application_id,
                interaction_id: interaction.id,
                token: interaction.token@,
            }),
            context.guild_id() == interaction.guild_id,
            context.locale() == text_view(interaction.locale),
            !context.replied(),
    {
        CommandContext {
            application_id: interaction.application_id,
            interaction_id: interaction.id,
            token: interaction.token.clone(),
            guild_id: interaction.guild_id,
            locale: match &interaction.locale {
                Some(tag) => Some(tag.clone()),
                None => None,
            },
            has_replied: false,
        }
    }

    /// Whether the invocation has been answered.
    pub fn has_replied(&self) -> (replied: bool)
        ensures
            replied == self.replied(),
    {
        self.has_replied
    }

    /// The community the invocation came from, if it came from one.
    pub fn get_guild_id(&self) -> (guild_id: Option<u64>)
        ensures
            guild_id == self.guild_id(),
    {
        self.guild_id
    }

    /// The invoker's locale, where the invocation names one that is known.
    pub fn get_locale(&self) -> (locale: Option<Locale>)
        ensures
            locale == match self.locale() {
                Some(tag) => Locale::of_tag(tag),
                None => None,
            },
    {
        match &self.locale {
            Some(tag) => Locale::from_tag(tag.as_str()),
            None => None,
        }
    }

    /// The call that carries `response` to the platform: a create while the
    /// invocation has not been answered, an update ever after. The state changes
    /// only when the outcome of the call is handed to [`CommandContext::complete`].
    pub fn respond(&self, response: InteractionResponse) -> (call: ResponseCall)
        ensures
            call@ == call_for(self.interaction(), self.replied(), response@),
    {
        if self.has_replied {
            match response.data {
                Some(data) => {
                    let attachments = match data.attachments {
                        Some(attachments) => attachments,
                        None => Vec::new(),
                    };
                    self.update(
                        data.content,
                        data.embeds,
                        data.allowed_mentions,
                        data.components,
                        Vec::new(),
                        attachments,
                    )
                },
                None => self.update(None, None, None, None, Vec::new(), Vec::new()),
            }
        } else {
            ResponseCall::Create {
                application_id: self.application_id,
                interaction_id: self.interaction_id,
                token: self.token.clone(),
                response,
            }
        }
    }

    /// Takes note of how the call that [`CommandContext::respond`] planned came
    /// back. A response that was created counts as given from now on; a call that
    /// failed changes nothing and is reported as a transport error with the
    /// transport's account of it.
    pub fn complete(&mut self, call: &ResponseCall, outcome: Result<(), String>) -> (result: Result<
        (),
        CommandError,
    >)
        ensures
            final(self).interaction() == old(self).interaction(),
            final(self).replied() == replied_after(old(self).replied(), call@, outcome is Ok),
            result == match outcome {
                Ok(_) => Ok::<(), CommandError>(()),
                Err(detail) => Err::<(), CommandError>(CommandError::Http(detail)),
            },
    {
        match outcome {
            Ok(_) => {
                if call.is_create() {
                    self.has_replied = true;
                }
                Ok(())
            },
            Err(detail) => Err(CommandError::Http(detail)),
        }
    }

    /// The call that acknowledges the invocation without showing anything yet.
    pub fn deferred_update_message(&self) -> (call: ResponseCall)
        ensures
            call@ == call_for(
                self.interaction(),
                self.replied(),
                InteractionResponseView::deferred(),
            ),
    {
        self.respond(
            InteractionResponse { kind: InteractionResponseType::DeferredUpdateMessage, data: None },
        )
    }

    /// The call that sets the response given before to exactly what is handed in.
    pub fn update(
        &self,
        content: Option<String>,
        embeds: Option<Vec<Embed>>,
        allowed_mentions: Option<AllowedMentions>,
        components: Option<Vec<Component>>,
        attachment_ids_to_keep: Vec<u64>,
        attachments: Vec<Attachment>,
    ) -> (call: ResponseCall)
        ensures
            call@ == (ResponseCallView::Update {
                application_id: self.interaction().application_id,
                token: self.interaction().token,
                content: text_view(content),
                embeds: list_view(embeds),
                allowed_mentions,
                components: list_view(components),
                attachment_ids_to_keep: attachment_ids_to_keep@,
                attachments: attachments@,
            }),
    {
        ResponseCall::Update {
            application_id: self.application_id,
            token: self.token.clone(),
            content,
            embeds,
            allowed_mentions,
            components,
            attachment_ids_to_keep,
            attachments,
        }
    }

    /// The call that answers with a message everyone can see.
    pub fn reply(&self, content: String) -> (call: ResponseCall)
        ensures
            call@ == call_for(
                self.interaction(),
                self.replied(),
                InteractionResponseView::message(content@, false),
            ),
    {
        let response = InteractionResponse {
            kind: InteractionResponseType::ChannelMessageWithSource,
            data: Some(
                InteractionResponseData {
                    allowed_mentions: None,
                    attachments: None,
                    choices: None,
                    components: None,
                    content: Some(content),
                    custom_id: None,
                    embeds: None,
                    flags: None,
                    title: None,
                    tts: None,
                },
            ),
        };
        self.respond(response)
    }

    /// The call that answers with a message only the invoker sees. Once the
    /// invocation has been answered the message can no longer be made private: the
    /// call then updates the response given before with the same text.
    pub fn reply_ephemeral(&self, content: String) -> (call: ResponseCall)
        ensures
            call@ == call_for(
                self.interaction(),
                self.replied(),
                InteractionResponseView::message(content@, true),
            ),
    {
        let response = InteractionResponse {
            kind: InteractionResponseType::ChannelMessageWithSource,
            data: Some(
                InteractionResponseData {
                    allowed_mentions: None,
                    attachments: None,
                    choices: None,
                    components: None,
                    content: Some(content),
                    custom_id: None,
                    embeds: None,
                    flags: Some(EPHEMERAL),
                    title: None,
                    tts: None,
                },
            ),
        };
        self.respond(response)
    }

    /// The call that offers `choices` for the option being typed. It is always a
    /// response of its own, whatever was answered before, and uses the context up.
    pub fn autocomplete(self, choices: Vec<AutocompleteChoice>) -> (call: ResponseCall)
        ensures
            call@ == (ResponseCallView::Create {
                application_id: self.interaction().application_id,
                interaction_id: self.interaction().interaction_id,
                token: self.interaction().token,
                response: InteractionResponseView::choices(offered(choices@)),
            }),
    {
        let ghost asked = choices@;
        let mut converted: Vec<CommandOptionChoice> = Vec::new();
        let mut rest = reversed(choices);
        while rest.len() > 0
            invariant
                converted@.len() + rest@.len() == asked.len(),
                forall|i: int|
                    0 <= i < rest@.len() ==> rest@[i] == asked[asked.len() - 1 - i],
                choice_values(converted@) == offered(asked.subrange(0, converted@.len() as int)),
            decreases rest@.len(),
        {
            let ghost before = converted@;
            let next = rest.pop().unwrap();
            assert(next == asked[before.len() as int]);
            converted.push(CommandOptionChoice::from(next));
            assert(choice_values(converted@) =~= offered(
                asked.subrange(0, converted@.len() as int),
            )) by {
                let now = asked.subrange(0, converted@.len() as int);
                let was = asked.subrange(0, before.len() as int);
                assert forall|i: int| 0 <= i < converted@.len() implies choice_values(
                    converted@,
                )[i] == offered(now)[i] by {
                    if i < before.len() {
                        assert(choice_values(before)[i] == offered(was)[i]);
                        assert(converted@[i] == before[i]);
                        assert(now[i] == was[i]);
                    }
                }
            }
        }
        assert(asked.subrange(0, converted@.len() as int) =~= asked);
        ResponseCall::Create {
            application_id: self.application_id,
            interaction_id: self.interaction_id,
            token: self.token.clone(),
            response: InteractionResponse {
                kind: InteractionResponseType::ApplicationCommandAutocompleteResult,
                data: Some(
                    InteractionResponseData {
                        allowed_mentions: None,
                        attachments: None,
                        choices: Some(converted),
                        components: None,
                        content: None,
                        custom_id: None,
                        embeds: None,
                        flags: None,
                        title: None,
                        tts: None,
                    },
                ),
            },
        }
    }

    /// The text given for the first option named `name`; `None` where there is no
    /// such option or where it holds something else than a text.
    pub fn get_string_option(&self, name: &str, data: &CommandData) -> (value: Option<String>)
        ensures
            text_view(value) == string_option(data.options@, name@),
    {
        match find_option(&data.options, name) {
            Some(option) => match &option.value {
                CommandOptionValue::String(text) => Some(text.clone()),
                _ => None,
            },
            None => None,
        }
    }

    /// The integer given for the first option named `name`; `None` where there is
    /// no such option or where it holds something else than an integer.
    pub fn get_integer_option(&self, name: &str, data: &CommandData) -> (value: Option<i64>)
        ensures
            value == integer_option(data.options@, name@),
    {
        match find_option(&data.options, name) {
            Some(option) => match &option.value {
                CommandOptionValue::Integer(number) => Some(*number),
                _ => None,
            },
            None => None,
        }
    }
}

/// One create, then updates. Over any run of exchanges: every exchange makes one
/// call; an invocation that has not been answered creates its response first; an
/// invocation that has been answered only updates, whatever the response holds,
/// and stays answered; so once a create has got through, every later exchange
/// updates the response that exists and none creates another.
pub proof fn lemma_one_create_then_updates(
    interaction: Correlation,
    replied: bool,
    exchanges: Seq<Exchange>,
)
    ensures
        calls_of(interaction, replied, exchanges).len() == exchanges.len(),
        !replied && exchanges.len() > 0 ==> calls_of(interaction, replied, exchanges)[0] is Create,
        replied ==> replied_at_end(interaction, replied, exchanges),
        replied ==> forall|j: int|
            0 <= j < exchanges.len() ==> #[trigger] calls_of(
                interaction,
                replied,
                exchanges,
            )[j] is Update,
        forall|i: int, j: int|
            0 <= i < j < exchanges.len() && #[trigger] calls_of(
                interaction,
                replied,
                exchanges,
            )[i] is Create && exchanges[i].delivered ==> #[trigger] calls_of(
                interaction,
                replied,
                exchanges,
            )[j] is Update,
    decreases exchanges.len(),
{
    if exchanges.len() > 0 {
        let calls = calls_of(interaction, replied, exchanges);
        let call = call_for(interaction, replied, exchanges[0].response);
        let next = replied_after(replied, call, exchanges[0].delivered);
        let rest = exchanges.drop_first();
        let later = calls_of(interaction, next, rest);
        lemma_one_create_then_updates(interaction, next, rest);
        assert(calls =~= seq![call] + later);
        assert forall|j: int| 0 < j < exchanges.len() implies calls[j] == later[j - 1]
            && exchanges[j] == rest[j - 1] by {}
        if replied {
            assert forall|j: int| 0 <= j < exchanges.len() implies #[trigger] calls[j] is Update by {
                if j > 0 {
                    assert(calls[j] == later[j - 1]);
                }
            }
        }
        assert forall|i: int, j: int|
            0 <= i < j < exchanges.len() && #[trigger] calls[i] is Create
                && exchanges[i].delivered implies #[trigger] calls[j] is Update by {
            assert(calls[j] == later[j - 1]);
            if i == 0 {
                assert(next);
            } else {
                assert(calls[i] == later[i - 1]);
            }
        }
    }
}

} // verus!
