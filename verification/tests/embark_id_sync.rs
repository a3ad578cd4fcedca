use embark_sync::commands::registry::CommandRegistry;
use embark_sync::commands::CommandData;
use embark_sync::event_handler::handle_event;
use embark_sync::event_handler::setup_outcome;
use embark_sync::event_handler::Action;
use embark_sync::commands::CommandBundle;
use embark_sync::commands::CommandError;
use embark_sync::commands::CommandScope;
use embark_sync::commands::Interaction;
use embark_sync::commands::InteractionData;
use embark_sync::commands::InteractionType;
use embark_sync::commands::interaction::MessageComponentData;
use embark_sync::commands::interaction::ModalField;
use embark_sync::commands::interaction::ModalRow;
use embark_sync::commands::interaction::ModalSubmitData;
use embark_sync::context::get_last_bot_message;
use embark_sync::context::MessageSummary;
use embark_sync::data::EmbarkID;
use embark_sync::data::GuildSettings;
use embark_sync::embark_id_sync::guild_welcome::welcome_text;
use embark_sync::embark_id_sync::member::member_joined;
use embark_sync::embark_id_sync::member::update_user;
use embark_sync::embark_id_sync::setup::Permission;
use embark_sync::embark_id_sync::setup::SetupAction;
use embark_sync::embark_id_sync::setup::SetupCommand;
use embark_sync::embark_id_sync::setup::SetupErrors;
use embark_sync::embark_id_sync::setup::SetupState;
use embark_sync::embark_id_sync::verification::claim;
use embark_sync::embark_id_sync::verification::component_used;
use embark_sync::embark_id_sync::verification::read_submission;
use embark_sync::embark_id_sync::verification::submitted_values;
use embark_sync::embark_id_sync::verification::Claim;
use embark_sync::embark_id_sync::verification::Submission;
use embark_sync::embark_id_sync::EmbarkIDSync;
use embark_sync::embark_id_sync::Task;
use embark_sync::handler::Event;
use embark_sync::handler::GuildChannel;
use embark_sync::handler::GuildCreate;
use embark_sync::handler::Handler;
use embark_sync::handler::MemberAdd;

fn settings() -> GuildSettings {
    GuildSettings { guild_id: 1, verification_channel: 1234567890, verified_role: 77, verification_message: 4 }
}

fn guild() -> GuildCreate {
    GuildCreate {
        id: 1,
        available: true,
        joined_at: Some(1000),
        public_updates_channel_id: None,
        system_channel_id: None,
        channels: vec![
            GuildChannel { id: 10, is_text: false },
            GuildChannel { id: 11, is_text: true },
            GuildChannel { id: 12, is_text: true },
        ],
    }
}

fn interaction(kind: InteractionType, data: Option<InteractionData>) -> Interaction {
    Interaction {
        application_id: 1,
        id: 2,
        kind,
        data,
        guild_id: Some(5),
        locale: None,
        member_user_id: Some(9),
        token: "t".to_string(),
    }
}

fn form(custom_id: &str, rows: Vec<Vec<(&str, Option<&str>)>>) -> ModalSubmitData {
    ModalSubmitData {
        custom_id: custom_id.to_string(),
        components: rows
            .into_iter()
            .map(|row| ModalRow {
                components: row
                    .into_iter()
                    .map(|(id, value)| ModalField {
                        custom_id: id.to_string(),
                        value: value.map(|v| v.to_string()),
                    })
                    .collect(),
            })
            .collect(),
    }
}

#[test]
fn new_community_is_greeted_in_the_first_channel_that_fits() {
    assert_eq!(welcome_text(), "Please run /setup to get started.");
    assert_eq!(EmbarkIDSync::new().guild_event(&guild(), false, 1000), Some(11));
    assert_eq!(EmbarkIDSync::new().guild_event(&guild(), false, 1299), Some(11));
    let mut with_system = guild();
    with_system.system_channel_id = Some(20);
    assert_eq!(EmbarkIDSync::new().guild_event(&with_system, false, 1100), Some(20));
    with_system.public_updates_channel_id = Some(30);
    assert_eq!(EmbarkIDSync::new().guild_event(&with_system, false, 1100), Some(30));
    let mut without_text = guild();
    without_text.channels = vec![GuildChannel { id: 10, is_text: false }];
    assert_eq!(EmbarkIDSync::new().guild_event(&without_text, false, 1100), None);
}

#[test]
fn community_is_not_greeted_when_known_late_or_unavailable() {
    assert_eq!(EmbarkIDSync::new().guild_event(&guild(), true, 1000), None);
    assert_eq!(EmbarkIDSync::new().guild_event(&guild(), false, 1300), None);
    assert_eq!(EmbarkIDSync::new().guild_event(&guild(), false, 999), None);
    let mut unavailable = guild();
    unavailable.available = false;
    assert_eq!(EmbarkIDSync::new().guild_event(&unavailable, false, 1000), None);
    let mut undated = guild();
    undated.joined_at = None;
    assert_eq!(EmbarkIDSync::new().guild_event(&undated, false, 1000), None);
    let mut before_epoch = guild();
    before_epoch.joined_at = Some(-1);
    assert_eq!(EmbarkIDSync::new().guild_event(&before_epoch, false, 10), None);
}

#[test]
fn member_without_identifier_is_invited() {
    let joined = member_joined(Some("Arena"), Some(&settings()), None).unwrap();
    assert!(!joined.mark_verified);
    assert_eq!(
        joined.notice,
        "`Arena` uses this bot for Embark ID linking.\nPlease go to <#1234567890> and follow the instructions to link your account."
    );
    let joined = member_joined(None, Some(&settings()), None).unwrap();
    assert!(joined.notice.starts_with("`a guild` uses this bot"));
}

#[test]
fn member_with_identifier_is_marked_and_reminded() {
    let id = EmbarkID::new("player#42").unwrap();
    let joined = member_joined(Some("Arena"), Some(&settings()), Some(&id)).unwrap();
    assert!(joined.mark_verified);
    let expected = format!(
        "`Arena` uses this bot for Embark ID linking.\n{}\nSince your have already linked your account (`player#0042`) there is nothing that you need to do. GLHF Contestant!",
        " ".repeat(45)
    );
    assert_eq!(joined.notice, expected);
}

#[test]
fn member_of_a_community_that_is_not_set_up_is_left_alone() {
    let id = EmbarkID::new("player#42").unwrap();
    assert!(member_joined(Some("Arena"), None, Some(&id)).is_none());
    assert!(member_joined(Some("Arena"), None, None).is_none());
}

#[test]
fn verified_member_gets_the_role_and_the_nickname() {
    let id = EmbarkID::new("player#42").unwrap();
    let update = update_user(vec![3, 4], &id, &settings());
    assert_eq!(update.roles, vec![3, 4, 77]);
    assert_eq!(update.nick, "player#0042");
}

#[test]
fn verify_button_opens_the_form() {
    let modal = component_used("verify").unwrap();
    assert_eq!(modal.custom_id, "embark_verification");
    assert_eq!(modal.title, "Provide Your EmbarkID");
    assert_eq!(modal.input.custom_id, "embark_verification");
    assert_eq!(modal.input.label, "EMBARKID");
    assert_eq!(modal.input.placeholder, "name#1234");
    assert_eq!(modal.input.min_length, 7);
    assert_eq!(modal.input.max_length, 21);
    assert!(modal.input.required);
    assert!(component_used("other").is_none());
    assert!(component_used("").is_none());
}

#[test]
fn submitted_values_are_those_of_matching_fields() {
    let modal = form(
        "embark_verification",
        vec![
            vec![("other", Some("x")), ("embark_verification", Some("a#1"))],
            vec![],
            vec![("embark_verification", None), ("embark_verification", Some("b#2"))],
        ],
    );
    assert_eq!(
        submitted_values(&modal),
        vec![Some("a#1".to_string()), None, Some("b#2".to_string())]
    );
    let other = form("other_form", vec![vec![("embark_verification", Some("a#1"))]]);
    assert!(submitted_values(&other).is_empty());
}

#[test]
fn submission_is_read_as_an_identifier() {
    match read_submission(Some(9), Some(" player#7 ")) {
        Submission::Parsed { discord_user, embark_id } => {
            assert_eq!(discord_user, 9);
            assert_eq!(embark_id.to_string(), "player#0007");
        }
        _ => panic!("not parsed"),
    }
    match read_submission(Some(9), Some("nonsense")) {
        Submission::Invalid { reply } => assert_eq!(reply, "Invalid EmbarkID"),
        _ => panic!("not invalid"),
    }
    match read_submission(Some(9), None) {
        Submission::Invalid { reply } => assert_eq!(reply, "Invalid EmbarkID"),
        _ => panic!("not invalid"),
    }
    assert!(matches!(read_submission(None, Some("player#7")), Submission::NoMember));
}

#[test]
fn reading_goes_on_only_after_an_accepted_claim() {
    assert!(read_submission(None, Some("player#7")).ends_reading());
    assert!(read_submission(Some(9), Some("nonsense")).ends_reading());
    assert!(read_submission(Some(9), None).ends_reading());
    assert!(!read_submission(Some(9), Some("player#7")).ends_reading());
    let id = EmbarkID::new("player#7").unwrap();
    assert!(claim(9, id.clone(), true).ends_reading());
    assert!(!claim(9, id, false).ends_reading());
}

#[test]
fn claim_is_accepted_unless_taken() {
    let id = EmbarkID::new("player#7").unwrap();
    match claim(9, id.clone(), false) {
        Claim::Accepted { reply, user } => {
            assert_eq!(reply, "You entered: player#0007");
            assert_eq!(user.discord_user, 9);
            assert_eq!(user.embark_id.to_string(), "player#0007");
        }
        _ => panic!("not accepted"),
    }
    match claim(9, id, true) {
        Claim::Taken { reply } => assert_eq!(reply, "Someone has already claimed this EmbarkID"),
        _ => panic!("not taken"),
    }
}

#[test]
fn setup_creates_role_channel_and_message_in_turn() {
    let turn = SetupCommand::setup_verification(5, SetupState::Start, None);
    assert_eq!(turn.next, Some(SetupState::AwaitingRole));
    match turn.action {
        SetupAction::CreateRole { guild_id, name, color, mentionable } => {
            assert_eq!((guild_id, name.as_str(), color, mentionable), (5, "verified", 6291322, false));
        }
        other => panic!("unexpected {:?}", other),
    }
    let turn = SetupCommand::setup_verification(5, SetupState::AwaitingRole, Some(60));
    assert_eq!(turn.next, Some(SetupState::AwaitingChannel { role: 60 }));
    match turn.action {
        SetupAction::CreateChannel { guild_id, name, overwrites } => {
            assert_eq!((guild_id, name.as_str()), (5, "verify"));
            assert_eq!(overwrites.len(), 2);
            assert_eq!(overwrites[0].role_id, 5);
            assert_eq!(overwrites[0].allow, vec![Permission::ViewChannel]);
            assert_eq!(overwrites[0].deny, vec![Permission::SendMessages, Permission::AddReactions]);
            assert_eq!(overwrites[1].role_id, 60);
            assert!(overwrites[1].allow.is_empty());
            assert_eq!(overwrites[1].deny, vec![Permission::ViewChannel]);
        }
        other => panic!("unexpected {:?}", other),
    }
    let turn = SetupCommand::setup_verification(5, SetupState::AwaitingChannel { role: 60 }, Some(70));
    assert_eq!(turn.next, Some(SetupState::AwaitingMessage { role: 60, channel: 70 }));
    match turn.action {
        SetupAction::SendMessage { channel_id, content, button_label, button_id } => {
            assert_eq!(channel_id, 70);
            assert_eq!(content, "verification message");
            assert_eq!(button_label, "verify");
            assert_eq!(button_id, "verify");
        }
        other => panic!("unexpected {:?}", other),
    }
    let turn = SetupCommand::setup_verification(
        5,
        SetupState::AwaitingMessage { role: 60, channel: 70 },
        Some(80),
    );
    assert_eq!(turn.next, None);
    match turn.action {
        SetupAction::Succeed(settings) => assert_eq!(
            settings,
            GuildSettings {
                guild_id: 5,
                verification_channel: 70,
                verified_role: 60,
                verification_message: 80
            }
        ),
        other => panic!("unexpected {:?}", other),
    }
}

#[test]
fn setup_fails_at_the_first_thing_that_cannot_be_created() {
    let cases = [
        (SetupState::AwaitingRole, SetupErrors::CouldNotCreateRole),
        (SetupState::AwaitingChannel { role: 1 }, SetupErrors::CouldNotCreateChannel),
        (SetupState::AwaitingMessage { role: 1, channel: 2 }, SetupErrors::CouldNotSendMessage),
    ];
    for (state, error) in cases {
        let turn = SetupCommand::setup_verification(5, state, None);
        assert_eq!(turn.next, None);
        assert!(matches!(turn.action, SetupAction::Fail(e) if e == error));
    }
}

#[test]
fn setup_answers() {
    assert_eq!(SetupCommand::begin(Some(5)), Ok(5));
    assert_eq!(SetupCommand::begin(None), Err("This command must be done in a guild!".to_string()));
    assert_eq!(SetupCommand::finish(Ok(settings()), true).unwrap(), "Setup complete!");
    match SetupCommand::finish(Ok(settings()), false) {
        Err(CommandError::Internal(message)) => assert_eq!(message, "Could not save guild settings!"),
        other => panic!("unexpected {:?}", other),
    }
    for stored in [true, false] {
        assert_eq!(
            SetupCommand::finish(Err(SetupErrors::CouldNotCreateChannel), stored).unwrap(),
            "Could not create channel"
        );
        assert_eq!(
            SetupCommand::finish(Err(SetupErrors::CouldNotSendMessage), stored).unwrap(),
            "Could not send message!"
        );
        assert_eq!(
            SetupCommand::finish(Err(SetupErrors::CouldNotCreateRole), stored).unwrap(),
            "Could not create role"
        );
    }
}

#[test]
fn setup_command_is_a_chat_input_command_named_setup() {
    let definition = SetupCommand::new().definition();
    assert_eq!(definition.name, "setup");
    assert_eq!(definition.description, "Automatically sets up the bot");
    assert_eq!(
        definition.kind,
        twilight_model::application::command::CommandType::ChatInput
    );
    assert_eq!(SetupCommand::new().name(), "setup");
}

#[test]
fn handler_owns_the_global_setup_command() {
    let owned = EmbarkIDSync::new().commands();
    assert_eq!(owned.len(), 1);
    assert!(matches!(owned[0].scope, CommandScope::Global));
    let mut registry = CommandRegistry::new();
    registry.register_commands(owned);
    assert!(registry.find_command("setup", Some(3)).is_some());
}

#[test]
fn two_global_setup_commands_leave_one() {
    let mut registry = CommandRegistry::new();
    let mut owned = EmbarkIDSync::new().commands();
    owned.extend(EmbarkIDSync::new().commands());
    registry.register_commands(owned);
    assert_eq!(registry.len(), 1);
    assert_eq!(registry.deploy()[0].definitions.len(), 1);
}

#[test]
fn handler_routes_events() {
    let handler = EmbarkIDSync::new();
    assert!(matches!(handler.handle(&Event::Other), Task::Nothing));
    let joined = Event::MemberAdd(MemberAdd { guild_id: 1, user_id: 2 });
    assert!(matches!(handler.handle(&joined), Task::MemberJoined(m) if m.user_id == 2));
    assert!(matches!(handler.handle(&Event::GuildCreate(guild())), Task::GuildKnown(g) if g.id == 1));

    let button = |id: &str| {
        Event::InteractionCreate(interaction(
            InteractionType::MessageComponent,
            Some(InteractionData::MessageComponent(MessageComponentData {
                custom_id: id.to_string(),
            })),
        ))
    };
    assert!(matches!(handler.handle(&button("verify")), Task::ShowForm(_)));
    assert!(matches!(handler.handle(&button("other")), Task::Nothing));

    let submit = Event::InteractionCreate(interaction(
        InteractionType::ModalSubmit,
        Some(InteractionData::ModalSubmit(form(
            "embark_verification",
            vec![vec![("embark_verification", Some("a#1"))]],
        ))),
    ));
    match handler.handle(&submit) {
        Task::ReadForm { member_user_id, guild_id, values } => {
            assert_eq!(member_user_id, Some(9));
            assert_eq!(guild_id, Some(5));
            assert_eq!(values, vec![Some("a#1".to_string())]);
        }
        _ => panic!("form not read"),
    }

    let no_data = Event::InteractionCreate(interaction(InteractionType::Ping, None));
    assert!(matches!(handler.handle(&no_data), Task::Nothing));
    let ping = Event::InteractionCreate(interaction(
        InteractionType::Ping,
        Some(InteractionData::MessageComponent(MessageComponentData { custom_id: "verify".to_string() })),
    ));
    assert!(matches!(handler.handle(&ping), Task::Warn(line) if line == "unknown interaction type"));
    let mismatched = Event::InteractionCreate(interaction(
        InteractionType::ModalSubmit,
        Some(InteractionData::MessageComponent(MessageComponentData { custom_id: "verify".to_string() })),
    ));
    assert!(matches!(handler.handle(&mismatched), Task::Nothing));
}

#[test]
fn last_bot_message_is_the_first_by_a_bot() {
    let messages = vec![
        MessageSummary { id: 1, author_is_bot: false },
        MessageSummary { id: 2, author_is_bot: true },
        MessageSummary { id: 3, author_is_bot: true },
    ];
    assert_eq!(get_last_bot_message(&messages), Some(2));
    assert_eq!(get_last_bot_message(&messages[..1].to_vec()), None);
    assert_eq!(get_last_bot_message(&vec![]), None);
}

#[test]
fn single_handler_decides_for_each_event() {
    assert!(matches!(handle_event(&Event::Ready), Action::Info(line) if line == "ready"));
    assert!(matches!(handle_event(&Event::Other), Action::Nothing));
    assert!(matches!(
        handle_event(&Event::MemberAdd(MemberAdd { guild_id: 1, user_id: 2 })),
        Action::Nothing
    ));

    let command = |name: &str, guild_id: Option<u64>| {
        let mut invocation = interaction(
            InteractionType::ApplicationCommand,
            Some(InteractionData::ApplicationCommand(CommandData {
                guild_id,
                id: 1,
                name: name.to_string(),
                options: vec![],
            })),
        );
        invocation.guild_id = guild_id;
        Event::InteractionCreate(invocation)
    };
    assert!(matches!(handle_event(&command("setup", Some(5))), Action::Setup { guild_id: 5 }));
    assert!(
        matches!(handle_event(&command("setup", None)), Action::Error(line) if line == "Guild not found")
    );
    assert!(matches!(handle_event(&command("other", Some(5))), Action::Nothing));

    let unknown = Event::InteractionCreate(interaction(
        InteractionType::Unknown,
        Some(InteractionData::MessageComponent(MessageComponentData { custom_id: "verify".to_string() })),
    ));
    assert!(
        matches!(handle_event(&unknown), Action::Error(line) if line == "unknown interaction type")
    );
    let ping = Event::InteractionCreate(interaction(
        InteractionType::Ping,
        Some(InteractionData::MessageComponent(MessageComponentData { custom_id: "verify".to_string() })),
    ));
    assert!(matches!(handle_event(&ping), Action::Nothing));
    let button = Event::InteractionCreate(interaction(
        InteractionType::MessageComponent,
        Some(InteractionData::MessageComponent(MessageComponentData { custom_id: "verify".to_string() })),
    ));
    assert!(matches!(handle_event(&button), Action::ShowForm(_)));
    let submit = Event::InteractionCreate(interaction(
        InteractionType::ModalSubmit,
        Some(InteractionData::ModalSubmit(form(
            "embark_verification",
            vec![vec![("embark_verification", Some("a#1"))]],
        ))),
    ));
    assert!(matches!(handle_event(&submit), Action::ReadForm { values, .. } if values.len() == 1));

    assert_eq!(setup_outcome(&Ok(settings())), "setup complete");
    assert_eq!(setup_outcome(&Err(SetupErrors::CouldNotCreateChannel)), "couldn't create channel");
    assert_eq!(setup_outcome(&Err(SetupErrors::CouldNotSendMessage)), "couldn't send message");
    assert_eq!(setup_outcome(&Err(SetupErrors::CouldNotCreateRole)), "couldn't create role");
}
