use aegistrate::command::{Ping, Timeout};
use aegistrate::dispatch::{check_invocation, DispatchError};
use aegistrate::plugin::{Plugin, PluginManager};
use aegistrate::validate::{CommandOption, InvalidOptionError, OptionValue};

fn options(duration: &str) -> Vec<CommandOption> {
    vec![
        CommandOption { name: "member".to_string(), value: OptionValue::User { id: 5, is_member: true } },
        CommandOption { name: "duration".to_string(), value: OptionValue::String(duration.to_string()) },
    ]
}

#[test]
fn invocation_checks_in_order() {
    let mut guild = PluginManager::new(1);
    let timeout = Timeout.metadata();
    assert!(matches!(
        check_invocation(&guild, &timeout, &options("29d"), 100, None),
        Err(DispatchError::PluginDisabled(Plugin::Moderation))
    ));
    guild.enable_plugin(Plugin::Moderation).unwrap();
    match check_invocation(&guild, &timeout, &options("29d"), 100, None) {
        Err(DispatchError::InvalidOption(e)) => {
            assert_eq!(e, InvalidOptionError::DurationTooLong("29d".to_string()))
        },
        _ => panic!("the duration is too long"),
    }
    assert!(matches!(
        check_invocation(&guild, &timeout, &options("10m"), 100, Some(98)),
        Err(DispatchError::CoolingDown(3))
    ));
    assert!(check_invocation(&guild, &timeout, &options("10m"), 100, Some(95)).is_ok());
    assert!(check_invocation(&guild, &Ping.metadata(), &[], 100, Some(100)).is_ok());
}

#[test]
fn rejection_reports() {
    let r = DispatchError::CoolingDown(3).report("timeout");
    assert_eq!(r.title, "Slow down!");
    assert_eq!(r.description, "You can use /timeout again in 3 seconds.");
    let r = DispatchError::PluginDisabled(Plugin::Moderation).report("blacklist");
    assert_eq!(r.description, "/blacklist is not enabled here.");
    assert_eq!(r.fields[0].value, "The plugin Moderation is disabled for this guild.");
    let r = DispatchError::InvalidOption(InvalidOptionError::NotGuildMember(9)).report("ban");
    assert_eq!(r.description, "Not a member of the current guild: 9");
}
