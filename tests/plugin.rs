use aegistrate::command::Metadata;
use aegistrate::plugin::{enabled_commands_string, setup_required_report, toggle_report, Plugin, PluginError, PluginManager};
use aegistrate::report::EmbedKind;

fn command_names(commands: &[Metadata]) -> Vec<String> {
    let mut names: Vec<String> = commands.iter().map(|c| c.name.clone()).collect();
    names.sort();
    names
}

#[test]
fn enable_twice_second_fails() {
    let mut guild = PluginManager::new(7);
    assert_eq!(guild.enable_plugin(Plugin::Moderation), Ok(()));
    assert_eq!(
        guild.enable_plugin(Plugin::Moderation),
        Err(PluginError::AlreadyEnabled(Plugin::Moderation))
    );
}

#[test]
fn enable_then_disable_restores_commands() {
    let mut guild = PluginManager::new(7);
    let before = command_names(&guild.get_enabled_commands());
    assert_eq!(guild.enable_plugin(Plugin::Moderation), Ok(()));
    let during = command_names(&guild.get_enabled_commands());
    assert!(during.contains(&"ban".to_string()));
    assert!(during.contains(&"timeout".to_string()));
    assert_eq!(guild.disable_plugin(Plugin::Moderation), Ok(()));
    assert_eq!(command_names(&guild.get_enabled_commands()), before);
}

#[test]
fn default_plugins_cannot_be_disabled() {
    let mut guild = PluginManager::new(7);
    assert_eq!(
        guild.disable_plugin(Plugin::Information),
        Err(PluginError::CannotDisableDefault(Plugin::Information))
    );
    assert_eq!(guild.enable_plugin(Plugin::Moderation), Ok(()));
    assert_eq!(
        guild.disable_plugin(Plugin::Plugins),
        Err(PluginError::CannotDisableDefault(Plugin::Plugins))
    );
}

#[test]
fn disabling_a_disabled_plugin_fails() {
    let mut guild = PluginManager::new(7);
    assert_eq!(
        guild.disable_plugin(Plugin::Moderation),
        Err(PluginError::AlreadyDisabled(Plugin::Moderation))
    );
}

#[test]
fn enabling_a_default_plugin_fails() {
    let mut guild = PluginManager::new(7);
    assert_eq!(
        guild.enable_plugin(Plugin::Information),
        Err(PluginError::AlreadyEnabled(Plugin::Information))
    );
}

#[test]
fn fresh_guild_has_default_plugins_only() {
    let guild = PluginManager::new(7);
    let mut plugins = guild.get_enabled_plugins();
    plugins.sort_by_key(|p| p.to_index());
    assert_eq!(plugins, vec![Plugin::Information, Plugin::Plugins]);
    assert_eq!(
        command_names(&guild.get_enabled_commands()),
        vec!["disable".to_string(), "enable".to_string(), "ping".to_string()]
    );
    assert!(guild.enabled_plugin_names().is_empty());
    assert_eq!(guild.guild_id(), 7);
}

#[test]
fn settings_from_stored_names() {
    let names = vec!["Moderation".to_string(), "Information".to_string(), "Moderation".to_string()];
    let guild = PluginManager::from_names(9, &names).unwrap();
    assert_eq!(guild.enabled_plugin_names(), vec!["Moderation"]);
    assert!(guild.is_enabled(Plugin::Moderation));
    assert!(PluginManager::from_names(9, &vec!["Music".to_string()]).is_none());
}

#[test]
fn plugin_names_and_indices() {
    assert_eq!(Plugin::get_plugin_names(), vec!["Moderation", "Information", "Plugins"]);
    assert_eq!(Plugin::from_name("Plugins"), Some(Plugin::Plugins));
    assert_eq!(Plugin::from_name("plugins"), None);
    assert_eq!(Plugin::from_index(1), Some(Plugin::Information));
    assert_eq!(Plugin::from_index(3), None);
    assert_eq!(Plugin::Plugins.to_index(), 2);
    assert_eq!(Plugin::Moderation.to_name(), "Moderation");
    assert_eq!(Plugin::default_plugins(), vec![Plugin::Information, Plugin::Plugins]);
    assert_eq!(Plugin::non_default_plugins(), vec![Plugin::Moderation]);
    assert!(!Plugin::Moderation.is_default());
    assert!(!Plugin::Moderation.requires_setup());
}

#[test]
fn plugin_command_lists() {
    assert_eq!(enabled_commands_string(Plugin::Plugins), "`/enable`, `/disable`");
    assert_eq!(enabled_commands_string(Plugin::Information), "`/ping`");
    let names: Vec<String> = Plugin::default_commands().iter().map(|c| c.name.clone()).collect();
    assert_eq!(names, vec!["ping", "enable", "disable"]);
}

#[test]
fn plugin_error_messages() {
    assert_eq!(
        PluginError::AlreadyEnabled(Plugin::Moderation).message(),
        "Plugin Moderation is already enabled for the current guild!"
    );
    assert_eq!(
        PluginError::CannotDisableDefault(Plugin::Plugins).message(),
        "Plugin Plugins is a default plugin, and cannot be disabled!"
    );
}

#[test]
fn enabled_lists_follow_declaration_order_once() {
    let mut guild = PluginManager::new(7);
    guild.enable_plugin(Plugin::Moderation).unwrap();
    assert_eq!(guild.get_enabled_plugins(), vec![Plugin::Moderation, Plugin::Information, Plugin::Plugins]);
    let names: Vec<String> = guild.get_enabled_commands().iter().map(|c| c.name.clone()).collect();
    assert_eq!(names, vec!["ban", "kick", "timeout", "ping", "enable", "disable"]);
}

#[test]
fn toggle_reports() {
    let r = toggle_report(Plugin::Moderation, true, &Ok(()));
    assert_eq!(r.kind, EmbedKind::Success);
    assert_eq!(r.title, "Plugin Moderation enabled!");
    assert_eq!(
        r.description,
        "Successfully enabled plugin Moderation! Commands that were enabled for your guild were: `/ban`, `/kick`, `/timeout`"
    );
    let r = toggle_report(Plugin::Moderation, false, &Err(PluginError::AlreadyDisabled(Plugin::Moderation)));
    assert_eq!(r.kind, EmbedKind::Error);
    assert_eq!(r.description, "An error happened: `Plugin Moderation is already disabled for the current guild!`");
    assert_eq!(r.fields[0].value, "The plugin `Moderation` might have been already disabled.");
    assert_eq!(setup_required_report().title, "Dashboard setup required");
}
