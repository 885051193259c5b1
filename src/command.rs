//! Command descriptors: the immutable table of every command, its plugin,
//! aliases, cooldown and validated options, and resolution of an invoked name.

use vstd::prelude::*;
use crate::plugin::{Plugin, all_plugins};
use crate::text::{strings_view, contains_str, clone_strings};
use crate::validate::{ValidatedOptions, ValidatedOptionsView, no_validation};

verus! {

/// What describes a command.
pub struct Metadata {
    /// The primary name of the command.
    pub name: String,
    /// The description shown for the command.
    pub description: String,
    /// The plugin that the command belongs to.
    pub plugin: Plugin,
    /// The time, in seconds, that a user waits between two uses.
    pub cooldown_secs: u64,
    /// Other names under which the command can be invoked.
    pub aliases: Vec<String>,
    /// The options that need validating.
    pub validated_options: ValidatedOptions,
}

/// A [`Metadata`] with its strings as character sequences.
pub struct MetadataView {
    pub name: Seq<char>,
    pub description: Seq<char>,
    pub plugin: Plugin,
    pub cooldown_secs: u64,
    pub aliases: Seq<Seq<char>>,
    pub validated_options: ValidatedOptionsView,
}

impl View for Metadata {
    type V = MetadataView;

    open spec fn view(&self) -> MetadataView {
        MetadataView {
            name: self.name@,
            description: self.description@,
            plugin: self.plugin,
            cooldown_secs: self.cooldown_secs,
            aliases: strings_view(self.aliases@),
            validated_options: self.validated_options@,
        }
    }
}

/// The views of a sequence of descriptors.
pub open spec fn metadata_views(v: Seq<Metadata>) -> Seq<MetadataView> {
    v.map_values(|m: Metadata| m@)
}

/// Every name under which a command answers: its aliases, then its name.
pub open spec fn names_of(m: MetadataView) -> Seq<Seq<char>> {
    m.aliases.push(m.name)
}

/// The description shown for a command invoked under `invoked`: an alias
/// gets a note naming the primary command.
pub open spec fn description_for(m: MetadataView, invoked: Seq<char>) -> Seq<char> {
    if m.aliases.contains(invoked) {
        m.description + " Alias for /"@ + m.name
    } else {
        m.description
    }
}

/// The descriptor of `/ping`.
pub open spec fn ping_descriptor() -> MetadataView {
    MetadataView {
        name: "ping"@,
        description: "Returns the ping of the bot. Pong!"@,
        plugin: Plugin::Information,
        cooldown_secs: 0,
        aliases: seq!["am-i-alive"@],
        validated_options: no_validation(),
    }
}

/// The descriptor of `/ban`.
pub open spec fn ban_descriptor() -> MetadataView {
    MetadataView {
        name: "ban"@,
        description: "Bans a member from the guild."@,
        plugin: Plugin::Moderation,
        cooldown_secs: 5,
        aliases: seq!["blacklist"@],
        validated_options: ValidatedOptionsView {
            dates: seq![],
            durations: seq![],
            guild_members: seq!["member"@, "banish"@],
        },
    }
}

/// The descriptor of `/kick`.
pub open spec fn kick_descriptor() -> MetadataView {
    MetadataView {
        name: "kick"@,
        description: "Kicks a member from the guild."@,
        plugin: Plugin::Moderation,
        cooldown_secs: 5,
        aliases: seq![],
        validated_options: no_validation(),
    }
}

/// The descriptor of `/timeout`.
pub open spec fn timeout_descriptor() -> MetadataView {
    MetadataView {
        name: "timeout"@,
        description: "Times out a member in the guild."@,
        plugin: Plugin::Moderation,
        cooldown_secs: 5,
        aliases: seq![],
        validated_options: ValidatedOptionsView {
            dates: seq![],
            durations: seq!["duration"@],
            guild_members: seq!["member"@],
        },
    }
}

/// The descriptor of `/enable`.
pub open spec fn enable_descriptor() -> MetadataView {
    MetadataView {
        name: "enable"@,
        description: "Enables a plugin for the current guild."@,
        plugin: Plugin::Plugins,
        cooldown_secs: 10,
        aliases: seq![],
        validated_options: no_validation(),
    }
}

/// The descriptor of `/disable`.
pub open spec fn disable_descriptor() -> MetadataView {
    MetadataView {
        name: "disable"@,
        description: "Disables a plugin for the current guild."@,
        plugin: Plugin::Plugins,
        cooldown_secs: 10,
        aliases: seq![],
        validated_options: no_validation(),
    }
}

/// The commands of a plugin.
pub open spec fn plugin_commands(p: Plugin) -> Seq<MetadataView> {
    match p {
        Plugin::Moderation => seq![ban_descriptor(), kick_descriptor(), timeout_descriptor()],
        Plugin::Information => seq![ping_descriptor()],
        Plugin::Plugins => seq![enable_descriptor(), disable_descriptor()],
    }
}

/// The commands of several plugins, plugin after plugin.
pub open spec fn commands_of_plugins(ps: Seq<Plugin>) -> Seq<MetadataView>
    decreases ps.len(),
{
    if ps.len() == 0 {
        seq![]
    } else {
        commands_of_plugins(ps.drop_last()) + plugin_commands(ps.last())
    }
}

/// Every command there is, whether a guild has enabled it or not.
pub open spec fn all_descriptors() -> Seq<MetadataView> {
    commands_of_plugins(all_plugins())
}

/// The table of commands, written out.
pub proof fn lemma_all_descriptors()
    ensures
        all_descriptors() == seq![
            ban_descriptor(),
            kick_descriptor(),
            timeout_descriptor(),
            ping_descriptor(),
            enable_descriptor(),
            disable_descriptor(),
        ],
{
    let moderation_only = seq![Plugin::Moderation];
    let first_two = seq![Plugin::Moderation, Plugin::Information];
    assert(moderation_only.drop_last() =~= Seq::<Plugin>::empty());
    assert(first_two.drop_last() =~= moderation_only);
    assert(all_plugins().drop_last() =~= first_two);
    assert(commands_of_plugins(Seq::<Plugin>::empty()) =~= seq![]);
    assert(commands_of_plugins(moderation_only) =~= plugin_commands(Plugin::Moderation));
    assert(commands_of_plugins(first_two) =~= plugin_commands(Plugin::Moderation) + plugin_commands(
        Plugin::Information,
    ));
    assert(all_descriptors() =~= seq![
        ban_descriptor(),
        kick_descriptor(),
        timeout_descriptor(),
        ping_descriptor(),
        enable_descriptor(),
        disable_descriptor(),
    ]);
}

/// A name of the table has the length and first letter of one of the
/// names of its entry, and these differ from entry to entry.
spec fn name_mark(n: Seq<char>) -> (int, char) {
    (n.len() as int, n[0])
}

spec fn entry_marks(m: MetadataView) -> Set<(int, char)> {
    names_of(m).to_set().map(|n: Seq<char>| name_mark(n))
}

proof fn lemma_names_marked(m: MetadataView, name: Seq<char>)
    requires
        names_of(m).contains(name),
    ensures
        entry_marks(m).contains(name_mark(name)),
{
    assert(names_of(m).to_set().contains(name));
}

/// No two commands share a name: the primary names and aliases of two
/// different entries of the command table never overlap, so the command
/// that a name resolves to does not depend on the order of the table.
pub proof fn lemma_command_names_disjoint(i: int, j: int, name: Seq<char>)
    requires
        0 <= i < all_descriptors().len(),
        0 <= j < all_descriptors().len(),
        i != j,
    ensures
        !(names_of(all_descriptors()[i]).contains(name) && names_of(all_descriptors()[j]).contains(name)),
{
    lemma_all_descriptors();
    reveal_strlit("ban");
    reveal_strlit("blacklist");
    reveal_strlit("kick");
    reveal_strlit("timeout");
    reveal_strlit("ping");
    reveal_strlit("am-i-alive");
    reveal_strlit("enable");
    reveal_strlit("disable");
    let d = all_descriptors();
    if names_of(d[i]).contains(name) && names_of(d[j]).contains(name) {
        lemma_names_marked(d[i], name);
        lemma_names_marked(d[j], name);
        assert(names_of(ban_descriptor()).to_set() =~= set!["blacklist"@, "ban"@]);
        assert(names_of(kick_descriptor()).to_set() =~= set!["kick"@]);
        assert(names_of(timeout_descriptor()).to_set() =~= set!["timeout"@]);
        assert(names_of(ping_descriptor()).to_set() =~= set!["am-i-alive"@, "ping"@]);
        assert(names_of(enable_descriptor()).to_set() =~= set!["enable"@]);
        assert(names_of(disable_descriptor()).to_set() =~= set!["disable"@]);
        assert(entry_marks(ban_descriptor()) =~= set![(9int, 'b'), (3int, 'b')]);
        assert(entry_marks(kick_descriptor()) =~= set![(4int, 'k')]);
        assert(entry_marks(timeout_descriptor()) =~= set![(7int, 't')]);
        assert(entry_marks(ping_descriptor()) =~= set![(10int, 'a'), (4int, 'p')]);
        assert(entry_marks(enable_descriptor()) =~= set![(6int, 'e')]);
        assert(entry_marks(disable_descriptor()) =~= set![(7int, 'd')]);
    }
}

/// The first descriptor of `ds` that answers to `name`.
pub open spec fn first_named(ds: Seq<MetadataView>, name: Seq<char>) -> Option<MetadataView>
    decreases ds.len(),
{
    if ds.len() == 0 {
        None
    } else if names_of(ds[0]).contains(name) {
        Some(ds[0])
    } else {
        first_named(ds.drop_first(), name)
    }
}

/// The command invoked under `name`.
pub open spec fn resolve(name: Seq<char>) -> Option<MetadataView> {
    first_named(all_descriptors(), name)
}

proof fn lemma_first_named_at(ds: Seq<MetadataView>, i: int, name: Seq<char>)
    requires
        0 <= i < ds.len(),
        names_of(ds[i]).contains(name),
        forall|j: int| 0 <= j < i ==> !names_of(#[trigger] ds[j]).contains(name),
    ensures
        first_named(ds, name) == Some(ds[i]),
    decreases i,
{
    if i > 0 {
        assert(!names_of(ds[0]).contains(name));
        let rest = ds.drop_first();
        assert forall|j: int| 0 <= j < i - 1 implies !names_of(#[trigger] rest[j]).contains(name) by {
            assert(rest[j] == ds[j + 1]);
        }
        lemma_first_named_at(rest, i - 1, name);
    }
}

/// Every name of a command, primary or alias, resolves to that command.
pub proof fn lemma_resolve_each_name(i: int, name: Seq<char>)
    requires
        0 <= i < all_descriptors().len(),
        names_of(all_descriptors()[i]).contains(name),
    ensures
        resolve(name) == Some(all_descriptors()[i]),
{
    assert forall|j: int| 0 <= j < i implies !names_of(#[trigger] all_descriptors()[j]).contains(name) by {
        lemma_command_names_disjoint(j, i, name);
    }
    lemma_first_named_at(all_descriptors(), i, name);
}

fn one_string(s: &str) -> (r: Vec<String>)
    ensures
        strings_view(r@) == seq![s@],
{
    let r = vec![String::from_str(s)];
    assert(strings_view(r@) =~= seq![s@]);
    r
}

fn two_strings(a: &str, b: &str) -> (r: Vec<String>)
    ensures
        strings_view(r@) == seq![a@, b@],
{
    let r = vec![String::from_str(a), String::from_str(b)];
    assert(strings_view(r@) =~= seq![a@, b@]);
    r
}

fn no_strings() -> (r: Vec<String>)
    ensures
        strings_view(r@) == Seq::<Seq<char>>::empty(),
{
    let r: Vec<String> = Vec::new();
    assert(strings_view(r@) =~= Seq::<Seq<char>>::empty());
    r
}

/// The `/ping` command.
pub struct Ping;

/// The `/ban` command.
pub struct Ban;

/// The `/kick` command.
pub struct Kick;

/// The `/timeout` command.
pub struct Timeout;

/// The `/enable` command.
pub struct Enable;

/// The `/disable` command.
pub struct Disable;

impl Ping {
    /// What describes the command.
    pub fn metadata(&self) -> (r: Metadata)
        ensures
            r@ == ping_descriptor(),
    {
        Metadata {
            name: String::from_str("ping"),
            description: String::from_str("Returns the ping of the bot. Pong!"),
            plugin: Plugin::Information,
            cooldown_secs: 0,
            aliases: one_string("am-i-alive"),
            validated_options: ValidatedOptions::none(),
        }
    }
}

impl Ban {
    /// What describes the command.
    pub fn metadata(&self) -> (r: Metadata)
        ensures
            r@ == ban_descriptor(),
    {
        let validated_options = ValidatedOptions {
            dates: no_strings(),
            durations: no_strings(),
            guild_members: two_strings("member", "banish"),
        };
        Metadata {
            name: String::from_str("ban"),
            description: String::from_str("Bans a member from the guild."),
            plugin: Plugin::Moderation,
            cooldown_secs: 5,
            aliases: one_string("blacklist"),
            validated_options,
        }
    }
}

impl Kick {
    /// What describes the command.
    pub fn metadata(&self) -> (r: Metadata)
        ensures
            r@ == kick_descriptor(),
    {
        Metadata {
            name: String::from_str("kick"),
            description: String::from_str("Kicks a member from the guild."),
            plugin: Plugin::Moderation,
            cooldown_secs: 5,
            aliases: no_strings(),
            validated_options: ValidatedOptions::none(),
        }
    }
}

impl Timeout {
    /// What describes the command.
    pub fn metadata(&self) -> (r: Metadata)
        ensures
            r@ == timeout_descriptor(),
    {
        let validated_options = ValidatedOptions {
            dates: no_strings(),
            durations: one_string("duration"),
            guild_members: one_string("member"),
        };
        Metadata {
            name: String::from_str("timeout"),
            description: String::from_str("Times out a member in the guild."),
            plugin: Plugin::Moderation,
            cooldown_secs: 5,
            aliases: no_strings(),
            validated_options,
        }
    }
}

impl Enable {
    /// What describes the command.
    pub fn metadata(&self) -> (r: Metadata)
        ensures
            r@ == enable_descriptor(),
    {
        Metadata {
            name: String::from_str("enable"),
            description: String::from_str("Enables a plugin for the current guild."),
            plugin: Plugin::Plugins,
            cooldown_secs: 10,
            aliases: no_strings(),
            validated_options: ValidatedOptions::none(),
        }
    }
}

impl Disable {
    /// What describes the command.
    pub fn metadata(&self) -> (r: Metadata)
        ensures
            r@ == disable_descriptor(),
    {
        Metadata {
            name: String::from_str("disable"),
            description: String::from_str("Disables a plugin for the current guild."),
            plugin: Plugin::Plugins,
            cooldown_secs: 10,
            aliases: no_strings(),
            validated_options: ValidatedOptions::none(),
        }
    }
}

/// Builds a [`Metadata`]. The name, description, plugin and cooldown must be
/// given; aliases default to none, validated options to nothing.
pub struct MetadataBuilder {
    pub name: Option<String>,
    pub description: Option<String>,
    pub plugin: Option<Plugin>,
    pub cooldown_secs: Option<u64>,
    pub aliases: Vec<String>,
    pub validated_options: Option<ValidatedOptions>,
}

/// The first field, in declaration order, that a builder lacks.
pub open spec fn missing_field(b: MetadataBuilder) -> Option<Seq<char>> {
    if b.name is None {
        Some("name"@)
    } else if b.description is None {
        Some("description"@)
    } else if b.plugin is None {
        Some("plugin"@)
    } else if b.cooldown_secs is None {
        Some("cooldown_secs"@)
    } else {
        None
    }
}

impl MetadataBuilder {
    pub fn name(self, name: &str) -> (r: MetadataBuilder)
        ensures
            r == (MetadataBuilder { name: r.name, ..self }),
            r.name matches Some(n) && n@ == name@,
    {
        MetadataBuilder { name: Some(String::from_str(name)), ..self }
    }

    pub fn description(self, description: &str) -> (r: MetadataBuilder)
        ensures
            r == (MetadataBuilder { description: r.description, ..self }),
            r.description matches Some(d) && d@ == description@,
    {
        MetadataBuilder { description: Some(String::from_str(description)), ..self }
    }

    pub fn plugin(self, plugin: Plugin) -> (r: MetadataBuilder)
        ensures
            r == (MetadataBuilder { plugin: Some(plugin), ..self }),
    {
        MetadataBuilder { plugin: Some(plugin), ..self }
    }

    pub fn cooldown_secs(self, cooldown_secs: u64) -> (r: MetadataBuilder)
        ensures
            r == (MetadataBuilder { cooldown_secs: Some(cooldown_secs), ..self }),
    {
        MetadataBuilder { cooldown_secs: Some(cooldown_secs), ..self }
    }

    pub fn aliases(self, aliases: Vec<String>) -> (r: MetadataBuilder)
        ensures
            r == (MetadataBuilder { aliases, ..self }),
    {
        MetadataBuilder { aliases, ..self }
    }

    pub fn validated_options(self, validated_options: ValidatedOptions) -> (r: MetadataBuilder)
        ensures
            r == (MetadataBuilder { validated_options: Some(validated_options), ..self }),
    {
        MetadataBuilder { validated_options: Some(validated_options), ..self }
    }

    /// The descriptor, or the name of the first required field not given.
    pub fn build(self) -> (r: Result<Metadata, &'static str>)
        ensures
            match r {
                Ok(m) => missing_field(self) is None && m@ == (MetadataView {
                    name: self.name->Some_0@,
                    description: self.description->Some_0@,
                    plugin: self.plugin->Some_0,
                    cooldown_secs: self.cooldown_secs->Some_0,
                    aliases: strings_view(self.aliases@),
                    validated_options: match self.validated_options {
                        Some(v) => v@,
                        None => no_validation(),
                    },
                }),
                Err(f) => missing_field(self) == Some(f@),
            },
    {
        let MetadataBuilder { name, description, plugin, cooldown_secs, aliases, validated_options } = self;
        let name = match name {
            Some(n) => n,
            None => return Err("name"),
        };
        let description = match description {
            Some(d) => d,
            None => return Err("description"),
        };
        let plugin = match plugin {
            Some(p) => p,
            None => return Err("plugin"),
        };
        let cooldown_secs = match cooldown_secs {
            Some(c) => c,
            None => return Err("cooldown_secs"),
        };
        let validated_options = match validated_options {
            Some(v) => v,
            None => ValidatedOptions::none(),
        };
        Ok(Metadata { name, description, plugin, cooldown_secs, aliases, validated_options })
    }
}

impl Metadata {
    /// A builder with nothing given yet.
    pub fn builder() -> (r: MetadataBuilder)
        ensures
            r.name is None,
            r.description is None,
            r.plugin is None,
            r.cooldown_secs is None,
            r.aliases@.len() == 0,
            r.validated_options is None,
    {
        MetadataBuilder {
            name: None,
            description: None,
            plugin: None,
            cooldown_secs: None,
            aliases: Vec::new(),
            validated_options: None,
        }
    }

    /// A copy of this descriptor.
    pub fn duplicate(&self) -> (r: Metadata)
        ensures
            r@ == self@,
    {
        Metadata {
            name: String::from_str(self.name.as_str()),
            description: String::from_str(self.description.as_str()),
            plugin: self.plugin,
            cooldown_secs: self.cooldown_secs,
            aliases: clone_strings(&self.aliases),
            validated_options: self.validated_options.duplicate(),
        }
    }

    /// Every name under which this command answers: its aliases, then its
    /// primary name.
    pub fn get_all_names(&self) -> (r: Vec<String>)
        ensures
            strings_view(r@) == names_of(self@),
    {
        let mut r = clone_strings(&self.aliases);
        let ghost before = r@;
        r.push(String::from_str(self.name.as_str()));
        assert(strings_view(r@) =~= names_of(self@)) by {
            assert(r@ =~= before.push(r@.last()));
        }
        r
    }

    /// Every name under which this command answers; the same list as
    /// [`Metadata::get_all_names`].
    pub fn all_names(&self) -> (r: Vec<String>)
        ensures
            strings_view(r@) == names_of(self@),
    {
        self.get_all_names()
    }

    /// The description of the command, with a note naming the primary
    /// command when `name` is one of its aliases.
    pub fn get_description(&self, name: &str) -> (r: String)
        ensures
            r@ == description_for(self@, name@),
    {
        let mut r = String::from_str(self.description.as_str());
        if contains_str(&self.aliases, name) {
            r.append(" Alias for /");
            r.append(self.name.as_str());
        }
        r
    }
}

impl Plugin {
    /// The commands that belong to this plugin.
    pub fn get_commands(self) -> (r: Vec<Metadata>)
        ensures
            metadata_views(r@) == plugin_commands(self),
    {
        let r = match self {
            Plugin::Moderation => vec![Ban.metadata(), Kick.metadata(), Timeout.metadata()],
            Plugin::Information => vec![Ping.metadata()],
            Plugin::Plugins => vec![Enable.metadata(), Disable.metadata()],
        };
        assert(metadata_views(r@) =~= plugin_commands(self));
        r
    }

    /// The commands of the given plugins, plugin after plugin.
    pub fn commands_by_plugins(plugins: Vec<Plugin>) -> (r: Vec<Metadata>)
        ensures
            metadata_views(r@) == commands_of_plugins(plugins@),
    {
        let mut r: Vec<Metadata> = Vec::new();
        let mut i: usize = 0;
        while i < plugins.len()
            invariant
                0 <= i <= plugins.len(),
                metadata_views(r@) == commands_of_plugins(plugins@.subrange(0, i as int)),
            decreases plugins.len() - i,
        {
            let ghost before = r@;
            let mut more = plugins[i].get_commands();
            r.append(&mut more);
            proof {
                let ps = plugins@.subrange(0, i as int + 1);
                assert(ps.drop_last() =~= plugins@.subrange(0, i as int));
                assert(metadata_views(r@) =~= metadata_views(before) + plugin_commands(plugins@[i as int]));
            }
            i += 1;
        }
        assert(plugins@.subrange(0, plugins.len() as int) =~= plugins@);
        r
    }

    /// The commands of the default plugins.
    pub fn default_commands() -> (r: Vec<Metadata>)
        ensures
            metadata_views(r@) == commands_of_plugins(seq![Plugin::Information, Plugin::Plugins]),
    {
        Plugin::commands_by_plugins(Plugin::default_plugins())
    }
}

/// Every command there is, across all plugins.
pub fn all_commands() -> (r: Vec<Metadata>)
    ensures
        metadata_views(r@) == all_descriptors(),
{
    let plugins = vec![Plugin::Moderation, Plugin::Information, Plugin::Plugins];
    assert(plugins@ =~= all_plugins());
    Plugin::commands_by_plugins(plugins)
}

/// The command that answers to `name`, under its primary name or an alias.
pub fn command_by_name(name: &str) -> (r: Option<Metadata>)
    ensures
        match r {
            Some(m) => resolve(name@) == Some(m@),
            None => resolve(name@) is None,
        },
{
    let commands = all_commands();
    assert(metadata_views(commands@).subrange(0, commands@.len() as int) =~= metadata_views(commands@));
    let mut i: usize = 0;
    while i < commands.len()
        invariant
            0 <= i <= commands.len(),
            metadata_views(commands@) == all_descriptors(),
            first_named(all_descriptors(), name@) == first_named(
                metadata_views(commands@).subrange(i as int, commands@.len() as int),
                name@,
            ),
        decreases commands.len() - i,
    {
        let names = commands[i].get_all_names();
        let ghost rest = metadata_views(commands@).subrange(i as int, commands@.len() as int);
        assert(rest[0] == commands@[i as int]@);
        if contains_str(&names, name) {
            return Some(commands[i].duplicate());
        }
        assert(rest.drop_first() =~= metadata_views(commands@).subrange(i as int + 1, commands@.len() as int));
        i += 1;
    }
    None
}

} // verus!
