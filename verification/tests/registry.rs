use embark_sync::commands::registry::CommandRegistry;
use embark_sync::commands::Bundle;
use embark_sync::commands::CommandBundle;
use embark_sync::commands::CommandRegistration;
use embark_sync::commands::CommandScope;
use twilight_model::application::command::Command;
use twilight_model::application::command::CommandType;
use twilight_util::builder::command::CommandBuilder;

type Named = Bundle<u32>;

fn descriptor(name: &str) -> Command {
    CommandBuilder::new(name, "a command", CommandType::ChatInput).build()
}

fn registration(scope: CommandScope, name: &'static str, tag: u32) -> CommandRegistration<Named> {
    CommandRegistration { scope, command: Bundle::new(descriptor(name), tag) }
}

#[test]
fn empty_registry_finds_nothing() {
    let registry: CommandRegistry<Named> = CommandRegistry::new();
    assert_eq!(registry.len(), 0);
    assert!(registry.find_command("setup", None).is_none());
    assert!(registry.find_command("setup", Some(1)).is_none());
    assert!(registry.deploy().is_empty());
}

#[test]
fn second_global_registration_wins() {
    let mut registry = CommandRegistry::new();
    registry.register_commands(vec![
        registration(CommandScope::Global, "setup", 1),
        registration(CommandScope::Global, "setup", 2),
    ]);
    assert_eq!(registry.len(), 1);
    assert_eq!(registry.find_command("setup", None).unwrap().command, 2);
    assert_eq!(registry.find_command("setup", Some(9)).unwrap().command, 2);
}

#[test]
fn guilds_share_one_instance() {
    let mut registry = CommandRegistry::new();
    registry.register_commands(vec![registration(CommandScope::Guilds(vec![10, 20]), "x", 7)]);
    let first = registry.find_command("x", Some(10)).unwrap();
    let second = registry.find_command("x", Some(20)).unwrap();
    assert!(std::ptr::eq(first, second));
    assert_eq!(first.command, 7);
    assert!(registry.find_command("x", Some(30)).is_none());
    assert!(registry.find_command("x", None).is_none());
    assert_eq!(registry.len(), 2);
}

#[test]
fn community_command_shadows_global() {
    let mut registry = CommandRegistry::new();
    registry.register_commands(vec![
        registration(CommandScope::Global, "x", 1),
        registration(CommandScope::Guild(5), "x", 2),
    ]);
    assert_eq!(registry.find_command("x", Some(5)).unwrap().command, 2);
    assert_eq!(registry.find_command("x", None).unwrap().command, 1);
    assert_eq!(registry.find_command("x", Some(6)).unwrap().command, 1);
}

#[test]
fn registration_order_does_not_change_shadowing() {
    let mut registry = CommandRegistry::new();
    registry.register_commands(vec![
        registration(CommandScope::Guild(5), "x", 2),
        registration(CommandScope::Global, "x", 1),
    ]);
    assert_eq!(registry.find_command("x", Some(5)).unwrap().command, 2);
    assert_eq!(registry.find_command("x", None).unwrap().command, 1);
}

#[test]
fn register_takes_the_name_it_is_given() {
    let mut registry = CommandRegistry::new();
    registry.register(CommandScope::Global, "alias".to_string(), Bundle::new(descriptor("setup"), 3));
    assert_eq!(registry.find_command("alias", None).unwrap().command, 3);
    assert!(registry.find_command("setup", None).is_none());
}

#[test]
fn register_commands_uses_the_name_the_command_gives() {
    let mut registry = CommandRegistry::new();
    registry.register_commands(vec![CommandRegistration {
        scope: CommandScope::Global,
        command: Bundle::named_as("own-name".to_string(), descriptor("in-descriptor"), 0),
    }]);
    assert!(registry.find_command("own-name", None).is_some());
    assert!(registry.find_command("in-descriptor", None).is_none());
}

#[test]
fn default_name_is_read_from_the_descriptor() {
    let bundle = Bundle::new(descriptor("setup"), 0);
    assert_eq!(bundle.name(), "setup");
    assert_eq!(bundle.definition(), descriptor("setup"));
    let renamed = Bundle::named_as("other".to_string(), descriptor("setup"), 0);
    assert_eq!(renamed.name(), "other");
    assert_eq!(renamed.definition().name, "setup");
}

#[test]
fn empty_guild_list_registers_nothing() {
    let mut registry = CommandRegistry::new();
    registry.register_commands(vec![registration(CommandScope::Guilds(vec![]), "x", 1)]);
    assert_eq!(registry.len(), 0);
    assert!(registry.deploy().is_empty());
}

#[test]
fn repeated_guild_in_list_counts_once() {
    let mut registry = CommandRegistry::new();
    registry.register_commands(vec![registration(CommandScope::Guilds(vec![4, 4]), "x", 1)]);
    assert_eq!(registry.len(), 1);
}

#[test]
fn deploy_batches_global_first_then_guilds_in_order() {
    let mut registry = CommandRegistry::new();
    registry.register_commands(vec![
        registration(CommandScope::Guild(7), "a", 1),
        registration(CommandScope::Global, "setup", 2),
        registration(CommandScope::Guilds(vec![3, 7]), "b", 3),
        registration(CommandScope::Global, "help", 4),
    ]);
    let batches = registry.deploy();
    assert_eq!(batches.len(), 3);
    assert_eq!(batches[0].guild_id, None);
    assert_eq!(batches[1].guild_id, Some(7));
    assert_eq!(batches[2].guild_id, Some(3));
    let names = |i: usize| -> Vec<String> {
        batches[i].definitions.iter().map(|d| d.name.clone()).collect()
    };
    assert_eq!(names(0), vec!["setup", "help"]);
    assert_eq!(names(1), vec!["a", "b"]);
    assert_eq!(names(2), vec!["b"]);
}

#[test]
fn deploy_without_global_commands_has_no_global_batch() {
    let mut registry = CommandRegistry::new();
    registry.register_commands(vec![registration(CommandScope::Guild(7), "a", 1)]);
    let batches = registry.deploy();
    assert_eq!(batches.len(), 1);
    assert_eq!(batches[0].guild_id, Some(7));
    assert_eq!(batches[0].definitions.len(), 1);
}

#[test]
fn replaced_command_is_deployed_once() {
    let mut registry = CommandRegistry::new();
    registry.register_commands(vec![
        registration(CommandScope::Global, "setup", 1),
        registration(CommandScope::Global, "setup", 2),
    ]);
    let batches = registry.deploy();
    assert_eq!(batches.len(), 1);
    assert_eq!(batches[0].definitions.len(), 1);
}
