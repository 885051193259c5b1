use std::collections::HashSet;

use aegistrate::command::{all_commands, command_by_name, Ban, Metadata, Timeout};
use aegistrate::plugin::Plugin;
use aegistrate::validate::ValidatedOptions;

#[test]
fn table_lists_every_command() {
    let names: Vec<String> = all_commands().iter().map(|c| c.name.clone()).collect();
    assert_eq!(names, vec!["ban", "kick", "timeout", "ping", "enable", "disable"]);
}

#[test]
fn names_and_aliases_never_collide() {
    let mut seen = HashSet::new();
    for command in all_commands() {
        for name in command.get_all_names() {
            assert!(seen.insert(name.clone()), "{name} answers twice");
        }
    }
    assert_eq!(seen.len(), 8);
}

#[test]
fn resolves_names_and_aliases() {
    assert_eq!(command_by_name("blacklist").unwrap().name, "ban");
    assert_eq!(command_by_name("ban").unwrap().name, "ban");
    assert_eq!(command_by_name("am-i-alive").unwrap().name, "ping");
    let timeout = command_by_name("timeout").unwrap();
    assert_eq!(timeout.plugin, Plugin::Moderation);
    assert_eq!(timeout.cooldown_secs, 5);
    assert_eq!(timeout.validated_options.durations, vec!["duration"]);
    assert!(command_by_name("nope").is_none());
    assert!(command_by_name("").is_none());
}

#[test]
fn all_names_put_aliases_first() {
    assert_eq!(Ban.metadata().get_all_names(), vec!["blacklist", "ban"]);
    assert_eq!(Timeout.metadata().all_names(), vec!["timeout"]);
}

#[test]
fn description_notes_aliases() {
    let ban = Ban.metadata();
    assert_eq!(ban.get_description("blacklist"), "Bans a member from the guild. Alias for /ban");
    assert_eq!(ban.get_description("ban"), "Bans a member from the guild.");
}

#[test]
fn builder_needs_required_fields() {
    assert_eq!(Metadata::builder().description("d").build().err(), Some("name"));
    assert_eq!(Metadata::builder().name("x").description("d").build().err(), Some("plugin"));
    let built = Metadata::builder()
        .name("x")
        .description("d")
        .plugin(Plugin::Information)
        .cooldown_secs(3)
        .aliases(vec!["y".to_string()])
        .validated_options(
            ValidatedOptions::builder()
                .durations(vec!["for".to_string()])
                .build(),
        )
        .build()
        .ok()
        .unwrap();
    assert_eq!(built.get_all_names(), vec!["y", "x"]);
    assert_eq!(built.cooldown_secs, 3);
    assert_eq!(built.validated_options.durations, vec!["for"]);
    assert!(built.validated_options.dates.is_empty());
}
