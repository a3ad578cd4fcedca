use embark_sync::bot::gather;
use embark_sync::bot::Bot;
use embark_sync::bot::Received;
use embark_sync::bot::Step;
use embark_sync::commands::deployment::DeployStep;
use embark_sync::commands::deployment::Deployment;
use embark_sync::commands::registry::CommandRegistry;
use embark_sync::commands::Bundle;
use embark_sync::commands::CommandRegistration;
use embark_sync::commands::CommandScope;
use embark_sync::handler::Handler;
use twilight_model::application::command::CommandType;
use twilight_util::builder::command::CommandBuilder;

type Named = Bundle<u32>;

fn named(name: &str, tag: u32) -> Named {
    Bundle::new(CommandBuilder::new(name, "a command", CommandType::ChatInput).build(), tag)
}

fn asked(bot: &Bot<Owner, Named>) -> Vec<Vec<CommandRegistration<Named>>> {
    (0..bot.handler_count()).map(|i| bot.handler(i).unwrap().commands()).collect()
}

fn deployed(deployment: Deployment<Named>) -> (usize, CommandRegistry<Named>) {
    let mut batches = 0;
    let mut step = deployment.advance(None);
    loop {
        step = match step {
            DeployStep::Send { then, .. } => {
                batches += 1;
                then.advance(Some(Ok(())))
            }
            DeployStep::Done { registry } => return (batches, registry),
            DeployStep::Failed { detail } => panic!("failed: {}", detail),
        }
    }
}

struct Owner(Vec<(&'static str, u32)>);

impl Handler<Named> for Owner {
    fn commands(&self) -> Vec<CommandRegistration<Named>> {
        self.0
            .iter()
            .map(|(name, tag)| CommandRegistration {
                scope: CommandScope::Global,
                command: named(name, *tag),
            })
            .collect()
    }
}

struct Silent;

impl Handler<Named> for Silent {}

#[test]
fn handler_owns_no_commands_by_default() {
    assert!(Silent.commands().is_empty());
}

#[test]
fn register_appends_in_order_without_deduplication() {
    let mut bot: Bot<Owner, Named> = Bot::new("token".to_string());
    assert_eq!(bot.get_token(), "token");
    assert_eq!(bot.handler_count(), 0);
    bot.register(Owner(vec![("a", 1)]));
    bot.register(Owner(vec![("b", 2)]));
    bot.register(Owner(vec![("a", 1)]));
    assert_eq!(bot.handler_count(), 3);
    assert_eq!(bot.handler(0).unwrap().0, vec![("a", 1)]);
    assert_eq!(bot.handler(1).unwrap().0, vec![("b", 2)]);
    assert_eq!(bot.handler(2).unwrap().0, vec![("a", 1)]);
    assert!(bot.handler(3).is_none());
}

#[test]
fn gather_joins_lists_in_order() {
    let parts = vec![
        vec![CommandRegistration { scope: CommandScope::Global, command: 1 }],
        vec![],
        vec![
            CommandRegistration { scope: CommandScope::Guild(2), command: 2 },
            CommandRegistration { scope: CommandScope::Global, command: 3 },
        ],
    ];
    let all: Vec<i32> = gather(parts).into_iter().map(|r| r.command).collect();
    assert_eq!(all, vec![1, 2, 3]);
    assert!(gather::<i32>(vec![]).is_empty());
}

#[test]
fn ready_commands_registers_every_list_in_order_and_later_lists_win() {
    let mut bot: Bot<Owner, Named> = Bot::new("token".to_string());
    bot.register(Owner(vec![("setup", 1), ("help", 2)]));
    bot.register(Owner(vec![("setup", 3)]));
    assert!(bot.command_registry().is_none());
    let deployment = bot.ready_commands(asked(&bot));
    assert!(bot.command_registry().is_none());
    let (batches, registry) = deployed(deployment);
    assert_eq!(batches, 1);
    bot.install(registry);
    let registry = bot.command_registry().unwrap();
    assert_eq!(registry.find_command("setup", None).unwrap().command, 3);
    assert_eq!(registry.find_command("help", None).unwrap().command, 2);
    assert_eq!(bot.handler_count(), 2);
}

#[test]
fn failed_deployment_leaves_the_registry_out() {
    let mut bot: Bot<Owner, Named> = Bot::new("token".to_string());
    bot.register(Owner(vec![("setup", 1)]));
    let deployment = bot.ready_commands(asked(&bot));
    let DeployStep::Send { then, .. } = deployment.advance(None) else {
        panic!("nothing to send");
    };
    assert!(matches!(
        then.advance(Some(Err("down".to_string()))),
        DeployStep::Failed { detail } if detail == "down"
    ));
    assert!(bot.command_registry().is_none());
    assert!(matches!(
        bot.dispatch(Received::Event(1u8)),
        Step::FanOut { handlers: 1, registry: false, .. }
    ));
}

#[test]
fn ready_commands_without_commands_deploys_nothing() {
    let mut bot: Bot<Owner, Named> = Bot::new("token".to_string());
    bot.register(Owner(vec![]));
    let (batches, registry) = deployed(bot.ready_commands(asked(&bot)));
    assert_eq!(batches, 0);
    bot.install(registry);
    assert!(bot.command_registry().is_some());
}

#[test]
fn event_fans_out_to_every_handler() {
    let mut bot: Bot<Owner, Named> = Bot::new("token".to_string());
    bot.register(Owner(vec![]));
    bot.register(Owner(vec![]));
    match bot.dispatch(Received::Event("e")) {
        Step::FanOut { event, handlers, registry } => {
            assert_eq!(event, "e");
            assert_eq!(handlers, 2);
            assert!(!registry);
        }
        Step::Stop => panic!("stopped"),
    }
    let (_, registry) = deployed(bot.ready_commands(asked(&bot)));
    bot.install(registry);
    match bot.dispatch(Received::Event("e")) {
        Step::FanOut { handlers, registry, .. } => {
            assert_eq!(handlers, 2);
            assert!(registry);
        }
        Step::Stop => panic!("stopped"),
    }
}

#[test]
fn malformed_input_and_end_of_stream_stop_the_loop() {
    let bot: Bot<Owner, Named> = Bot::new("token".to_string());
    assert!(matches!(bot.dispatch(Received::<u8>::Malformed), Step::Stop));
    assert!(matches!(bot.dispatch(Received::<u8>::Closed), Step::Stop));
}
