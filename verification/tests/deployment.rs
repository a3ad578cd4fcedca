use embark_sync::commands::deployment::DeployStep;
use embark_sync::commands::deployment::Deployment;
use embark_sync::commands::registry::CommandRegistry;
use embark_sync::commands::Bundle;
use embark_sync::commands::CommandRegistration;
use embark_sync::commands::CommandScope;
use twilight_model::application::command::CommandType;
use twilight_util::builder::command::CommandBuilder;

fn deployment() -> Deployment<Bundle<u32>> {
    let command = |scope, name: &str, tag| CommandRegistration {
        scope,
        command: Bundle::new(
            CommandBuilder::new(name, "a command", CommandType::ChatInput).build(),
            tag,
        ),
    };
    let mut registry = CommandRegistry::new();
    registry.register_commands(vec![
        command(CommandScope::Guild(7), "a", 1),
        command(CommandScope::Global, "setup", 2),
        command(CommandScope::Guild(3), "b", 3),
    ]);
    registry.begin_deployment()
}

fn sent(step: DeployStep<Bundle<u32>>) -> (Option<u64>, Vec<String>, Deployment<Bundle<u32>>) {
    match step {
        DeployStep::Send { batch, then } => {
            (batch.guild_id, batch.definitions.iter().map(|d| d.name.clone()).collect(), then)
        }
        DeployStep::Done { .. } => panic!("done too early"),
        DeployStep::Failed { detail } => panic!("failed: {}", detail),
    }
}

#[test]
fn deployment_sends_every_batch_in_order_and_hands_the_registry_on() {
    let (scope, names, then) = sent(deployment().advance(None));
    assert_eq!((scope, names), (None, vec!["setup".to_string()]));
    let (scope, names, then) = sent(then.advance(Some(Ok(()))));
    assert_eq!((scope, names), (Some(7), vec!["a".to_string()]));
    let (scope, names, then) = sent(then.advance(Some(Ok(()))));
    assert_eq!((scope, names), (Some(3), vec!["b".to_string()]));
    match then.advance(Some(Ok(()))) {
        DeployStep::Done { registry } => {
            assert_eq!(registry.len(), 3);
            assert_eq!(registry.find_command("setup", Some(7)).unwrap().command, 2);
        }
        _ => panic!("not done"),
    }
}

#[test]
fn first_failed_batch_ends_the_deployment() {
    let (_, _, then) = sent(deployment().advance(None));
    let (_, _, then) = sent(then.advance(Some(Ok(()))));
    match then.advance(Some(Err("forbidden".to_string()))) {
        DeployStep::Failed { detail } => assert_eq!(detail, "forbidden"),
        _ => panic!("not failed"),
    }
}

#[test]
fn deployment_of_an_empty_registry_is_done_at_once() {
    let registry: CommandRegistry<Bundle<u32>> = CommandRegistry::new();
    assert!(matches!(registry.begin_deployment().advance(None), DeployStep::Done { .. }));
}
