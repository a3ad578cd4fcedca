use embark_sync::commands::CommandContext;
use embark_sync::commands::CommandData;
use embark_sync::commands::CommandDataOption;
use embark_sync::commands::CommandError;
use embark_sync::commands::CommandOptionChoiceValue;
use embark_sync::commands::CommandOptionValue;
use embark_sync::commands::AutocompleteChoice;
use embark_sync::commands::Interaction;
use embark_sync::commands::InteractionResponse;
use embark_sync::commands::InteractionResponseData;
use embark_sync::commands::InteractionResponseType;
use embark_sync::commands::InteractionType;
use embark_sync::commands::Locale;
use embark_sync::commands::LocalizedText;
use embark_sync::commands::ResponseCall;
use embark_sync::commands::response::EPHEMERAL;
use twilight_model::http::attachment::Attachment;
use twilight_util::builder::embed::EmbedBuilder;

fn interaction() -> Interaction {
    Interaction {
        application_id: 11,
        id: 22,
        kind: InteractionType::ApplicationCommand,
        data: None,
        guild_id: Some(33),
        locale: Some("fr".to_string()),
        member_user_id: Some(44),
        token: "tok".to_string(),
    }
}

fn message(text: &str) -> InteractionResponse {
    InteractionResponse {
        kind: InteractionResponseType::ChannelMessageWithSource,
        data: Some(InteractionResponseData {
            content: Some(text.to_string()),
            ..Default::default()
        }),
    }
}

#[test]
fn three_responds_are_one_create_and_two_updates() {
    let mut context = CommandContext::new(&interaction());
    assert!(!context.has_replied());

    let first = context.respond(message("one"));
    match &first {
        ResponseCall::Create { application_id, interaction_id, token, response } => {
            assert_eq!(*application_id, 11);
            assert_eq!(*interaction_id, 22);
            assert_eq!(token, "tok");
            assert_eq!(response.kind, InteractionResponseType::ChannelMessageWithSource);
            assert_eq!(response.data.as_ref().unwrap().content.as_deref(), Some("one"));
        }
        other => panic!("not a create: {:?}", other),
    }
    assert!(context.complete(&first, Ok(())).is_ok());
    assert!(context.has_replied());

    for text in ["two", "three"] {
        let call = context.respond(message(text));
        match &call {
            ResponseCall::Update {
                application_id,
                token,
                content,
                embeds,
                allowed_mentions,
                components,
                attachment_ids_to_keep,
                attachments,
            } => {
                assert_eq!(*application_id, 11);
                assert_eq!(token, "tok");
                assert_eq!(content.as_deref(), Some(text));
                assert!(embeds.is_none());
                assert!(allowed_mentions.is_none());
                assert!(components.is_none());
                assert!(attachment_ids_to_keep.is_empty());
                assert!(attachments.is_empty());
            }
            other => panic!("not an update: {:?}", other),
        }
        assert!(context.complete(&call, Ok(())).is_ok());
        assert!(context.has_replied());
    }
}

#[test]
fn failed_create_leaves_the_context_unanswered() {
    let mut context = CommandContext::new(&interaction());
    let call = context.respond(message("one"));
    match context.complete(&call, Err("timeout".to_string())) {
        Err(CommandError::Http(detail)) => assert_eq!(detail, "timeout"),
        other => panic!("unexpected: {:?}", other),
    }
    assert!(!context.has_replied());
    assert!(context.respond(message("again")).is_create());
}

#[test]
fn failed_update_keeps_the_context_answered() {
    let mut context = CommandContext::new(&interaction());
    let call = context.respond(message("one"));
    context.complete(&call, Ok(())).unwrap();
    let call = context.respond(message("two"));
    assert!(context.complete(&call, Err("gone".to_string())).is_err());
    assert!(context.has_replied());
}

#[test]
fn update_carries_payload_fields_and_drops_the_rest() {
    let mut context = CommandContext::new(&interaction());
    let call = context.deferred_update_message();
    assert!(call.is_create());
    context.complete(&call, Ok(())).unwrap();

    let embed = EmbedBuilder::new().title("title").build();
    let attachment = Attachment::from_bytes("a.txt".to_string(), vec![1, 2, 3], 5);
    let response = InteractionResponse {
        kind: InteractionResponseType::Modal,
        data: Some(InteractionResponseData {
            content: Some("text".to_string()),
            embeds: Some(vec![embed.clone()]),
            attachments: Some(vec![attachment.clone()]),
            flags: Some(EPHEMERAL),
            title: Some("ignored".to_string()),
            ..Default::default()
        }),
    };
    match context.respond(response) {
        ResponseCall::Update { content, embeds, attachments, attachment_ids_to_keep, .. } => {
            assert_eq!(content.as_deref(), Some("text"));
            assert_eq!(embeds, Some(vec![embed]));
            assert_eq!(attachments, vec![attachment]);
            assert!(attachment_ids_to_keep.is_empty());
        }
        other => panic!("not an update: {:?}", other),
    }
}

#[test]
fn deferred_acknowledgment_is_a_create_without_payload() {
    let context = CommandContext::new(&interaction());
    match context.deferred_update_message() {
        ResponseCall::Create { response, .. } => {
            assert_eq!(response.kind, InteractionResponseType::DeferredUpdateMessage);
            assert!(response.data.is_none());
        }
        other => panic!("not a create: {:?}", other),
    }
}

#[test]
fn answered_context_updates_with_nothing_set_for_a_response_without_payload() {
    let mut context = CommandContext::new(&interaction());
    let call = context.deferred_update_message();
    context.complete(&call, Ok(())).unwrap();
    for call in [
        context.deferred_update_message(),
        context.respond(InteractionResponse { kind: InteractionResponseType::Pong, data: None }),
    ] {
        match &call {
            ResponseCall::Update {
                application_id,
                token,
                content,
                embeds,
                allowed_mentions,
                components,
                attachment_ids_to_keep,
                attachments,
            } => {
                assert_eq!(*application_id, 11);
                assert_eq!(token, "tok");
                assert!(content.is_none());
                assert!(embeds.is_none());
                assert!(allowed_mentions.is_none());
                assert!(components.is_none());
                assert!(attachment_ids_to_keep.is_empty());
                assert!(attachments.is_empty());
            }
            other => panic!("not an update: {:?}", other),
        }
        context.complete(&call, Ok(())).unwrap();
        assert!(context.has_replied());
    }
}

#[test]
fn reply_is_public_and_reply_ephemeral_is_private() {
    let context = CommandContext::new(&interaction());
    match context.reply("hello".to_string()) {
        ResponseCall::Create { response, .. } => {
            let data = response.data.unwrap();
            assert_eq!(data.content.as_deref(), Some("hello"));
            assert_eq!(data.flags, None);
        }
        other => panic!("not a create: {:?}", other),
    }
    match context.reply_ephemeral("psst".to_string()) {
        ResponseCall::Create { response, .. } => {
            assert_eq!(response.kind, InteractionResponseType::ChannelMessageWithSource);
            let data = response.data.unwrap();
            assert_eq!(data.content.as_deref(), Some("psst"));
            assert_eq!(data.flags, Some(EPHEMERAL));
            assert_eq!(EPHEMERAL, 1 << 6);
        }
        other => panic!("not a create: {:?}", other),
    }
}

#[test]
fn update_builds_the_call_it_is_given() {
    let context = CommandContext::new(&interaction());
    match context.update(Some("c".to_string()), None, None, None, vec![9], vec![]) {
        ResponseCall::Update { token, content, attachment_ids_to_keep, .. } => {
            assert_eq!(token, "tok");
            assert_eq!(content.as_deref(), Some("c"));
            assert_eq!(attachment_ids_to_keep, vec![9]);
        }
        other => panic!("not an update: {:?}", other),
    }
}

#[test]
fn autocomplete_is_a_create_with_the_choices_in_order() {
    let context = CommandContext::new(&interaction());
    let choices = vec![
        AutocompleteChoice {
            name: LocalizedText::new("one").with_localization(Locale::German, "eins"),
            value: "1".to_string(),
        },
        AutocompleteChoice { name: LocalizedText::new("two"), value: "2".to_string() },
    ];
    match context.autocomplete(choices) {
        ResponseCall::Create { interaction_id, response, .. } => {
            assert_eq!(interaction_id, 22);
            assert_eq!(
                response.kind,
                InteractionResponseType::ApplicationCommandAutocompleteResult
            );
            let offered = response.data.unwrap().choices.unwrap();
            assert_eq!(offered.len(), 2);
            assert_eq!(offered[0].name, "one");
            assert_eq!(
                offered[0].name_localizations,
                Some(vec![("de".to_string(), "eins".to_string())])
            );
            assert!(matches!(&offered[0].value, CommandOptionChoiceValue::String(v) if v == "1"));
            assert_eq!(offered[1].name, "two");
            assert_eq!(offered[1].name_localizations, None);
            assert!(matches!(&offered[1].value, CommandOptionChoiceValue::String(v) if v == "2"));
        }
        other => panic!("not a create: {:?}", other),
    }
}

#[test]
fn context_reads_guild_and_locale() {
    let context = CommandContext::new(&interaction());
    assert_eq!(context.get_guild_id(), Some(33));
    assert_eq!(context.get_locale(), Some(Locale::French));
    let mut other = interaction();
    other.locale = Some("xx".to_string());
    other.guild_id = None;
    let context = CommandContext::new(&other);
    assert_eq!(context.get_guild_id(), None);
    assert_eq!(context.get_locale(), None);
    other.locale = None;
    assert_eq!(CommandContext::new(&other).get_locale(), None);
}

#[test]
fn options_are_found_by_name_and_kind() {
    let context = CommandContext::new(&interaction());
    let data = CommandData {
        guild_id: None,
        id: 1,
        name: "cmd".to_string(),
        options: vec![
            CommandDataOption {
                name: "who".to_string(),
                value: CommandOptionValue::String("me".to_string()),
            },
            CommandDataOption { name: "n".to_string(), value: CommandOptionValue::Integer(-3) },
            CommandDataOption {
                name: "n".to_string(),
                value: CommandOptionValue::String("later".to_string()),
            },
        ],
    };
    assert_eq!(context.get_string_option("who", &data), Some("me".to_string()));
    assert_eq!(context.get_integer_option("n", &data), Some(-3));
    assert_eq!(context.get_integer_option("who", &data), None);
    assert_eq!(context.get_string_option("n", &data), None);
    assert_eq!(context.get_string_option("absent", &data), None);
    assert_eq!(context.get_integer_option("absent", &data), None);
}
