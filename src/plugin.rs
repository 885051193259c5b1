//! Plugins: named groups of commands that a guild enables or disables as a
//! whole, and the per-guild record of which optional plugins are enabled.

use vstd::prelude::*;
use crate::command::{Metadata, MetadataView, plugin_commands, commands_of_plugins, metadata_views};
use crate::report::{Report, ReportView, EmbedKind, plain_report, error_report, create_error_embed, create_info_embed, create_success_embed};
use crate::text::str_eq;

verus! {

/// A plugin that a command semantically belongs to.
#[derive(Clone, Copy, Debug, PartialEq, Eq, Structural, Hash)]
pub enum Plugin {
    /// Performs moderation in the guild.
    Moderation,
    /// Provides information about something.
    Information,
    /// Manipulates the plugin settings of a guild.
    Plugins,
}

/// Every plugin, in declaration order.
pub open spec fn all_plugins() -> Seq<Plugin> {
    seq![Plugin::Moderation, Plugin::Information, Plugin::Plugins]
}

/// The name under which a plugin is shown and stored.
pub open spec fn plugin_name(p: Plugin) -> Seq<char> {
    match p {
        Plugin::Moderation => "Moderation"@,
        Plugin::Information => "Information"@,
        Plugin::Plugins => "Plugins"@,
    }
}

/// The plugin with the given name, if any.
pub open spec fn plugin_named(name: Seq<char>) -> Option<Plugin> {
    if name == "Moderation"@ {
        Some(Plugin::Moderation)
    } else if name == "Information"@ {
        Some(Plugin::Information)
    } else if name == "Plugins"@ {
        Some(Plugin::Plugins)
    } else {
        None
    }
}

/// Default plugins are always enabled and cannot be disabled.
pub open spec fn is_default_plugin(p: Plugin) -> bool {
    p == Plugin::Information || p == Plugin::Plugins
}

impl Plugin {
    /// The plugin at the given position of the declaration order.
    pub fn from_index(index: usize) -> (r: Option<Plugin>)
        ensures
            index < all_plugins().len() ==> r == Some(all_plugins()[index as int]),
            index >= all_plugins().len() ==> r is None,
    {
        match index {
            0 => Some(Plugin::Moderation),
            1 => Some(Plugin::Information),
            2 => Some(Plugin::Plugins),
            _ => None,
        }
    }

    /// The position of this plugin in the declaration order.
    pub fn to_index(self) -> (r: usize)
        ensures
            r < all_plugins().len(),
            all_plugins()[r as int] == self,
    {
        match self {
            Plugin::Moderation => 0,
            Plugin::Information => 1,
            Plugin::Plugins => 2,
        }
    }

    /// Looks a plugin up by its name.
    pub fn from_name(name: &str) -> (r: Option<Plugin>)
        ensures
            r == plugin_named(name@),
    {
        if str_eq(name, "Moderation") {
            Some(Plugin::Moderation)
        } else if str_eq(name, "Information") {
            Some(Plugin::Information)
        } else if str_eq(name, "Plugins") {
            Some(Plugin::Plugins)
        } else {
            None
        }
    }

    /// The name of this plugin.
    pub fn to_name(self) -> (r: &'static str)
        ensures
            r@ == plugin_name(self),
    {
        match self {
            Plugin::Moderation => "Moderation",
            Plugin::Information => "Information",
            Plugin::Plugins => "Plugins",
        }
    }

    /// The names of all plugins, in declaration order.
    pub fn get_plugin_names() -> (r: Vec<&'static str>)
        ensures
            r@.map_values(|s: &'static str| s@) == all_plugins().map_values(|p: Plugin| plugin_name(p)),
    {
        let r = vec![
            Plugin::Moderation.to_name(),
            Plugin::Information.to_name(),
            Plugin::Plugins.to_name(),
        ];
        assert(r@.map_values(|s: &'static str| s@) =~= all_plugins().map_values(
            |p: Plugin| plugin_name(p),
        ));
        r
    }

    /// The default plugins.
    pub fn default_plugins() -> (r: Vec<Plugin>)
        ensures
            r@ == seq![Plugin::Information, Plugin::Plugins],
            forall|p: Plugin| r@.contains(p) <==> is_default_plugin(p),
    {
        let r = vec![Plugin::Information, Plugin::Plugins];
        assert(r@ =~= seq![Plugin::Information, Plugin::Plugins]);
        assert forall|p: Plugin| r@.contains(p) <==> is_default_plugin(p) by {
            if is_default_plugin(p) {
                if p == Plugin::Information {
                    assert(r@[0] == p);
                } else {
                    assert(r@[1] == p);
                }
            }
        }
        r
    }

    /// The plugins that a guild may enable and disable.
    pub fn non_default_plugins() -> (r: Vec<Plugin>)
        ensures
            r@ == seq![Plugin::Moderation],
            forall|p: Plugin| r@.contains(p) <==> !is_default_plugin(p),
    {
        let r = vec![Plugin::Moderation];
        assert(r@ =~= seq![Plugin::Moderation]);
        assert forall|p: Plugin| r@.contains(p) <==> !is_default_plugin(p) by {
            if !is_default_plugin(p) {
                assert(r@[0] == p);
            }
        }
        r
    }

    /// Whether this plugin is a default one.
    pub fn is_default(&self) -> (r: bool)
        ensures
            r == is_default_plugin(*self),
    {
        match self {
            Plugin::Moderation => false,
            Plugin::Information => true,
            Plugin::Plugins => true,
        }
    }

    /// Whether the plugin needs setting up before its commands can be used.
    /// No plugin does yet.
    pub fn requires_setup(&self) -> (r: bool)
        ensures
            !r,
    {
        false
    }
}

/// Why a plugin could not be enabled or disabled.
#[derive(Clone, Copy, Debug, PartialEq, Eq, Structural)]
pub enum PluginError {
    /// The plugin is enabled already.
    AlreadyEnabled(Plugin),
    /// The plugin is not enabled.
    AlreadyDisabled(Plugin),
    /// The plugin is a default one, which stays enabled.
    CannotDisableDefault(Plugin),
}

/// The plugins enabled in a guild whose stored set of optional plugins is
/// `stored`: those plus every default plugin.
pub open spec fn enabled_set(stored: Set<Plugin>) -> Set<Plugin> {
    stored.union(Set::new(|p: Plugin| is_default_plugin(p)))
}

/// The plugins of `ps` that belong to `s`, in the order of `ps`.
pub open spec fn kept_plugins(ps: Seq<Plugin>, s: Set<Plugin>) -> Seq<Plugin>
    decreases ps.len(),
{
    if ps.len() == 0 {
        seq![]
    } else if s.contains(ps.last()) {
        kept_plugins(ps.drop_last(), s).push(ps.last())
    } else {
        kept_plugins(ps.drop_last(), s)
    }
}

/// The plugins enabled in a guild, in declaration order.
pub open spec fn enabled_plugin_list(stored: Set<Plugin>) -> Seq<Plugin> {
    kept_plugins(all_plugins(), enabled_set(stored))
}

/// The commands enabled in a guild whose stored set is `stored`.
pub open spec fn enabled_command_set(stored: Set<Plugin>) -> Set<MetadataView> {
    Set::new(
        |m: MetadataView|
            exists|p: Plugin| #[trigger] enabled_set(stored).contains(p) && plugin_commands(p).contains(m),
    )
}

/// What enabling `p` does to the stored set.
pub open spec fn enable_outcome(stored: Set<Plugin>, p: Plugin) -> Result<Set<Plugin>, PluginError> {
    if enabled_set(stored).contains(p) {
        Err(PluginError::AlreadyEnabled(p))
    } else {
        Ok(stored.insert(p))
    }
}

/// What disabling `p` does to the stored set.
pub open spec fn disable_outcome(stored: Set<Plugin>, p: Plugin) -> Result<Set<Plugin>, PluginError> {
    if !enabled_set(stored).contains(p) {
        Err(PluginError::AlreadyDisabled(p))
    } else if is_default_plugin(p) {
        Err(PluginError::CannotDisableDefault(p))
    } else {
        Ok(stored.remove(p))
    }
}

/// The plugin settings of one guild. Only optional plugins are stored;
/// default plugins are enabled implicitly.
pub struct PluginManager {
    guild_id: u64,
    enabled_plugins: Vec<Plugin>,
}

impl PluginManager {
    /// The guild these settings belong to.
    pub closed spec fn guild(&self) -> u64 {
        self.guild_id
    }

    /// The guild these settings belong to.
    pub fn guild_id(&self) -> (r: u64)
        ensures
            r == self.guild(),
    {
        self.guild_id
    }

    /// The optional plugins that the guild has enabled.
    pub closed spec fn stored(&self) -> Set<Plugin> {
        self.enabled_plugins@.to_set()
    }

    /// Each stored plugin is optional and stored once.
    pub closed spec fn wf(&self) -> bool {
        &&& self.enabled_plugins@.no_duplicates()
        &&& forall|i: int| 0 <= i < self.enabled_plugins@.len() ==> !is_default_plugin(#[trigger] self.enabled_plugins@[i])
    }

    /// Settings of a guild that has enabled no optional plugin.
    pub fn new(guild_id: u64) -> (r: PluginManager)
        ensures
            r.wf(),
            r.guild() == guild_id,
            r.stored() == Set::<Plugin>::empty(),
    {
        let r = PluginManager { guild_id, enabled_plugins: Vec::new() };
        assert(r.stored() =~= Set::<Plugin>::empty());
        r
    }

    /// Settings from the stored plugin names of a guild; none if a name is
    /// not that of a plugin. Default plugins and repeated names are skipped.
    pub fn from_names(guild_id: u64, names: &Vec<String>) -> (r: Option<PluginManager>)
        ensures
            r is Some <==> forall|i: int| 0 <= i < names@.len() ==> (#[trigger] plugin_named(names@[i]@)) is Some,
            r matches Some(m) ==> {
                &&& m.wf()
                &&& m.guild() == guild_id
                &&& forall|p: Plugin| #[trigger] m.stored().contains(p) <==> !is_default_plugin(p) && exists|i: int|
                    0 <= i < names@.len() && plugin_named(names@[i]@) == Some(p)
            },
    {
        let mut m = PluginManager::new(guild_id);
        let mut i: usize = 0;
        while i < names.len()
            invariant
                0 <= i <= names.len(),
                m.wf(),
                m.guild() == guild_id,
                forall|k: int| 0 <= k < i ==> (#[trigger] plugin_named(names@[k]@)) is Some,
                forall|p: Plugin| #[trigger] m.stored().contains(p) <==> !is_default_plugin(p) && exists|k: int|
                    0 <= k < i && plugin_named(names@[k]@) == Some(p),
            decreases names.len() - i,
        {
            match Plugin::from_name(names[i].as_str()) {
                None => {
                    return None;
                },
                Some(p) => {
                    let ghost before = m.stored();
                    if !p.is_default() && !m.is_enabled(p) {
                        m.store(p);
                    }
                    assert forall|q: Plugin| #[trigger] m.stored().contains(q) <==> !is_default_plugin(q) && exists|k: int|
                        0 <= k < i + 1 && plugin_named(names@[k]@) == Some(q) by {
                        if m.stored().contains(q) && q != p {
                            assert(before.contains(q));
                        }
                        if !is_default_plugin(q) && exists|k: int| 0 <= k < i + 1 && plugin_named(names@[k]@) == Some(q) {
                            if q != p {
                                let k = choose|k: int| 0 <= k < i + 1 && plugin_named(names@[k]@) == Some(q);
                                assert(k < i);
                                assert(before.contains(q));
                            }
                        }
                    }
                },
            }
            i += 1;
        }
        Some(m)
    }

    fn store(&mut self, p: Plugin)
        requires
            old(self).wf(),
            !is_default_plugin(p),
            !old(self).stored().contains(p),
        ensures
            final(self).wf(),
            final(self).guild() == old(self).guild(),
            final(self).stored() == old(self).stored().insert(p),
    {
        let ghost before = self.enabled_plugins@;
        self.enabled_plugins.push(p);
        proof {
            assert(self.enabled_plugins@ == before.push(p));
            assert(!before.contains(p));
            assert(self.enabled_plugins@.to_set() =~= before.to_set().insert(p)) by {
                assert forall|q: Plugin| self.enabled_plugins@.to_set().contains(q) implies before.to_set().insert(q).contains(q) by {}
                assert forall|q: Plugin| #[trigger] before.to_set().insert(p).contains(q) implies self.enabled_plugins@.contains(q) by {
                    if q == p {
                        assert(self.enabled_plugins@[before.len() as int] == p);
                    } else {
                        let k = choose|k: int| 0 <= k < before.len() && before[k] == q;
                        assert(self.enabled_plugins@[k] == q);
                    }
                }
                assert forall|q: Plugin| #[trigger] self.enabled_plugins@.contains(q) implies before.to_set().insert(p).contains(q) by {
                    let k = choose|k: int| 0 <= k < self.enabled_plugins@.len() && self.enabled_plugins@[k] == q;
                    if k < before.len() {
                        assert(before[k] == q);
                    }
                }
            }
            assert(self.enabled_plugins@.no_duplicates()) by {
                assert forall|a: int, b: int| 0 <= a < b < self.enabled_plugins@.len() implies
                    self.enabled_plugins@[a] != self.enabled_plugins@[b] by {
                    if b == before.len() {
                        assert(before[a] == self.enabled_plugins@[a]);
                    }
                }
            }
        }
    }

    /// Whether `p` is enabled in the guild, stored or default.
    pub fn is_enabled(&self, p: Plugin) -> (r: bool)
        ensures
            r == enabled_set(self.stored()).contains(p),
    {
        if p.is_default() {
            return true;
        }
        let mut i: usize = 0;
        while i < self.enabled_plugins.len()
            invariant
                0 <= i <= self.enabled_plugins.len(),
                forall|k: int| 0 <= k < i ==> self.enabled_plugins@[k] != p,
            decreases self.enabled_plugins.len() - i,
        {
            if self.enabled_plugins[i] == p {
                assert(self.stored().contains(p));
                return true;
            }
            i += 1;
        }
        false
    }

    /// Enables an optional plugin for the guild.
    pub fn enable_plugin(&mut self, p: Plugin) -> (r: Result<(), PluginError>)
        requires
            old(self).wf(),
        ensures
            final(self).wf(),
            final(self).guild() == old(self).guild(),
            match enable_outcome(old(self).stored(), p) {
                Ok(s) => r is Ok && final(self).stored() == s,
                Err(e) => r == Err::<(), PluginError>(e) && final(self).stored() == old(self).stored(),
            },
    {
        if self.is_enabled(p) {
            return Err(PluginError::AlreadyEnabled(p));
        }
        self.store(p);
        Ok(())
    }

    /// Disables an optional plugin for the guild.
    pub fn disable_plugin(&mut self, p: Plugin) -> (r: Result<(), PluginError>)
        requires
            old(self).wf(),
        ensures
            final(self).wf(),
            final(self).guild() == old(self).guild(),
            match disable_outcome(old(self).stored(), p) {
                Ok(s) => r is Ok && final(self).stored() == s,
                Err(e) => r == Err::<(), PluginError>(e) && final(self).stored() == old(self).stored(),
            },
    {
        if !self.is_enabled(p) {
            return Err(PluginError::AlreadyDisabled(p));
        }
        if p.is_default() {
            return Err(PluginError::CannotDisableDefault(p));
        }
        let mut i: usize = 0;
        while i < self.enabled_plugins.len()
            invariant
                0 <= i <= self.enabled_plugins.len(),
                *self == *old(self),
                old(self).wf(),
                !is_default_plugin(p),
                enabled_set(old(self).stored()).contains(p),
                forall|k: int| 0 <= k < i ==> self.enabled_plugins@[k] != p,
            decreases self.enabled_plugins.len() - i,
        {
            if self.enabled_plugins[i] == p {
                let ghost before = self.enabled_plugins@;
                self.enabled_plugins.remove(i);
                proof {
                    let after = self.enabled_plugins@;
                    assert(after =~= before.remove(i as int));
                    assert forall|k: int| 0 <= k < after.len() implies #[trigger] after[k] == (if k < i { before[k] } else { before[k + 1] }) by {}
                    assert(after.to_set() =~= before.to_set().remove(p)) by {
                        assert forall|q: Plugin| #[trigger] after.contains(q) implies before.to_set().remove(p).contains(q) by {
                            let k = choose|k: int| 0 <= k < after.len() && after[k] == q;
                            let k2 = if k < i { k } else { k + 1 };
                            assert(before[k2] == q);
                            assert(k2 != i);
                            assert(before[i as int] == p);
                            assert(before.contains(q));
                        }
                        assert forall|q: Plugin| #[trigger] before.to_set().remove(p).contains(q) implies after.contains(q) by {
                            let k = choose|k: int| 0 <= k < before.len() && before[k] == q;
                            assert(k != i);
                            if k < i {
                                assert(after[k] == q);
                            } else {
                                assert(after[k - 1] == q);
                            }
                        }
                    }
                    assert(after.no_duplicates()) by {
                        assert forall|a: int, b: int| 0 <= a < b < after.len() implies after[a] != after[b] by {
                            let a2 = if a < i { a } else { a + 1 };
                            let b2 = if b < i { b } else { b + 1 };
                            assert(after[a] == before[a2]);
                            assert(after[b] == before[b2]);
                            assert(a2 < b2);
                            assert(before.no_duplicates());
                        }
                    }
                    assert forall|k: int| 0 <= k < after.len() implies !is_default_plugin(#[trigger] after[k]) by {
                        let k2 = if k < i { k } else { k + 1 };
                        assert(after[k] == before[k2]);
                        assert(!is_default_plugin(before[k2]));
                    }
                }
                return Ok(());
            }
            i += 1;
        }
        assert(!self.stored().contains(p));
        Err(PluginError::AlreadyDisabled(p))
    }

    /// The plugins enabled in the guild, stored or default, each once.
    pub fn get_enabled_plugins(&self) -> (r: Vec<Plugin>)
        ensures
            r@ == enabled_plugin_list(self.stored()),
            r@.to_set() == enabled_set(self.stored()),
            r@.no_duplicates(),
    {
        let mut r: Vec<Plugin> = Vec::new();
        let all = vec![Plugin::Moderation, Plugin::Information, Plugin::Plugins];
        assert(all@ =~= all_plugins());
        let mut i: usize = 0;
        while i < all.len()
            invariant
                0 <= i <= all.len(),
                all@ == all_plugins(),
                r@ == kept_plugins(all@.subrange(0, i as int), enabled_set(self.stored())),
                r@.no_duplicates(),
                forall|p: Plugin| #[trigger] r@.contains(p) <==> (enabled_set(self.stored()).contains(p) && exists|k: int|
                    0 <= k < i && all@[k] == p),
            decreases all.len() - i,
        {
            let p = all[i];
            proof {
                let next = all@.subrange(0, i as int + 1);
                assert(next.drop_last() =~= all@.subrange(0, i as int));
                assert(next.last() == p);
            }
            if self.is_enabled(p) {
                let ghost before = r@;
                r.push(p);
                proof {
                    assert(!before.contains(p)) by {
                        if before.contains(p) {
                            let k = choose|k: int| 0 <= k < i && all@[k] == p;
                            assert(all@[k] == all@[i as int]);
                        }
                    }
                    assert forall|a: int, b: int| 0 <= a < b < r@.len() implies r@[a] != r@[b] by {
                        if b == before.len() {
                            assert(before[a] == r@[a]);
                            assert(before.contains(r@[a]));
                        } else {
                            assert(before[a] == r@[a] && before[b] == r@[b]);
                        }
                    }
                    assert forall|q: Plugin| #[trigger] r@.contains(q) <==> (enabled_set(self.stored()).contains(q) && exists|k: int|
                        0 <= k < i + 1 && all@[k] == q) by {
                        if r@.contains(q) {
                            let k = choose|k: int| 0 <= k < r@.len() && r@[k] == q;
                            if k < before.len() {
                                assert(before[k] == q);
                                assert(before.contains(q));
                            }
                        }
                        if enabled_set(self.stored()).contains(q) && exists|k: int| 0 <= k < i + 1 && all@[k] == q {
                            if q == p {
                                assert(r@[before.len() as int] == q);
                            } else {
                                let k = choose|k: int| 0 <= k < i + 1 && all@[k] == q;
                                assert(k < i);
                                assert(before.contains(q));
                                let j = choose|j: int| 0 <= j < before.len() && before[j] == q;
                                assert(r@[j] == q);
                            }
                        }
                    }
                }
            } else {
                proof {
                    assert forall|q: Plugin| #[trigger] r@.contains(q) <==> (enabled_set(self.stored()).contains(q) && exists|k: int|
                        0 <= k < i + 1 && all@[k] == q) by {
                        if enabled_set(self.stored()).contains(q) && exists|k: int| 0 <= k < i + 1 && all@[k] == q {
                            let k = choose|k: int| 0 <= k < i + 1 && all@[k] == q;
                            if k == i {
                                assert(q == p);
                            }
                        }
                    }
                }
            }
            i += 1;
        }
        assert(all@.subrange(0, all@.len() as int) =~= all@);
        assert(r@.to_set() =~= enabled_set(self.stored())) by {
            assert forall|p: Plugin| #[trigger] enabled_set(self.stored()).contains(p) implies r@.contains(p) by {
                match p {
                    Plugin::Moderation => assert(all@[0] == p),
                    Plugin::Information => assert(all@[1] == p),
                    Plugin::Plugins => assert(all@[2] == p),
                }
            }
        }
        r
    }

    /// The commands enabled in the guild.
    pub fn get_enabled_commands(&self) -> (r: Vec<Metadata>)
        ensures
            metadata_views(r@) == commands_of_plugins(enabled_plugin_list(self.stored())),
            metadata_views(r@).no_duplicates(),
            metadata_views(r@).to_set() == enabled_command_set(self.stored()),
    {
        let plugins = self.get_enabled_plugins();
        let ghost ps = plugins@;
        let r = Plugin::commands_by_plugins(plugins);
        proof {
            lemma_commands_of_distinct_plugins(ps);
            assert forall|m: MetadataView| #[trigger] metadata_views(r@).to_set().contains(m) <==> enabled_command_set(self.stored()).contains(m) by {
                lemma_commands_of_plugins_contains(ps, m);
                if enabled_command_set(self.stored()).contains(m) {
                    let p = choose|p: Plugin| #[trigger] enabled_set(self.stored()).contains(p) && plugin_commands(p).contains(m);
                    assert(ps.to_set().contains(p));
                    assert(ps.contains(p));
                    assert(commands_of_plugins(ps).contains(m));
                }
                if metadata_views(r@).to_set().contains(m) {
                    assert(commands_of_plugins(ps).contains(m));
                    let p = choose|p: Plugin| #[trigger] ps.contains(p) && plugin_commands(p).contains(m);
                    assert(ps.to_set().contains(p));
                    assert(enabled_set(self.stored()).contains(p));
                }
            }
            assert(metadata_views(r@).to_set() =~= enabled_command_set(self.stored()));
        }
        r
    }

    /// The names of the optional plugins that the guild has enabled, as they
    /// are stored.
    pub fn enabled_plugin_names(&self) -> (r: Vec<&'static str>)
        ensures
            r@.map_values(|s: &'static str| s@).to_set() == self.stored().map(|p: Plugin| plugin_name(p)),
    {
        let mut r: Vec<&'static str> = Vec::new();
        let mut i: usize = 0;
        while i < self.enabled_plugins.len()
            invariant
                0 <= i <= self.enabled_plugins.len(),
                r@.len() == i,
                forall|k: int| 0 <= k < i ==> (#[trigger] r@[k])@ == plugin_name(self.enabled_plugins@[k]),
            decreases self.enabled_plugins.len() - i,
        {
            r.push(self.enabled_plugins[i].to_name());
            i += 1;
        }
        proof {
            let names = r@.map_values(|s: &'static str| s@);
            let target = self.stored().map(|p: Plugin| plugin_name(p));
            assert forall|n: Seq<char>| names.to_set().contains(n) implies target.contains(n) by {
                let k = choose|k: int| 0 <= k < names.len() && names[k] == n;
                assert(r@[k]@ == n);
                assert(self.stored().contains(self.enabled_plugins@[k]));
            }
            assert forall|n: Seq<char>| target.contains(n) implies names.to_set().contains(n) by {
                let p = choose|p: Plugin| self.stored().contains(p) && plugin_name(p) == n;
                let k = choose|k: int| 0 <= k < self.enabled_plugins@.len() && self.enabled_plugins@[k] == p;
                assert(names[k] == n);
            }
            assert(names.to_set() =~= target);
        }
        r
    }
}

/// The commands of a list as text: each as `` `/name` ``, separated by
/// commas.
pub open spec fn command_list_text(ds: Seq<MetadataView>) -> Seq<char>
    decreases ds.len(),
{
    if ds.len() == 0 {
        seq![]
    } else if ds.len() == 1 {
        "`/"@ + ds[0].name + "`"@
    } else {
        command_list_text(ds.drop_last()) + ", `/"@ + ds.last().name + "`"@
    }
}

/// The commands of a plugin as text, as in `` `/enable`, `/disable` ``.
pub fn enabled_commands_string(plugin: Plugin) -> (r: String)
    ensures
        r@ == command_list_text(plugin_commands(plugin)),
{
    let commands = plugin.get_commands();
    let ghost ds = metadata_views(commands@);
    let mut r = String::new();
    let mut i: usize = 0;
    assert(ds.subrange(0, 0) =~= Seq::<MetadataView>::empty());
    while i < commands.len()
        invariant
            0 <= i <= commands.len(),
            ds == metadata_views(commands@),
            r@ == command_list_text(ds.subrange(0, i as int)),
        decreases commands.len() - i,
    {
        let ghost prefix = ds.subrange(0, i as int + 1);
        assert(prefix.drop_last() =~= ds.subrange(0, i as int));
        assert(prefix.last() == commands@[i as int]@);
        if i == 0 {
            r.append("`/");
        } else {
            r.append(", `/");
        }
        r.append(commands[i].name.as_str());
        r.append("`");
        proof {
            if i == 0 {
                assert(prefix.len() == 1);
                assert(prefix[0] == prefix.last());
                assert(r@ =~= command_list_text(prefix));
            }
        }
        i += 1;
    }
    assert(ds.subrange(0, commands.len() as int) =~= ds);
    r
}

/// What went wrong with a plugin, in words.
pub open spec fn plugin_error_text(e: PluginError) -> Seq<char> {
    match e {
        PluginError::AlreadyEnabled(p) => "Plugin "@ + plugin_name(p) + " is already enabled for the current guild!"@,
        PluginError::AlreadyDisabled(p) => "Plugin "@ + plugin_name(p) + " is already disabled for the current guild!"@,
        PluginError::CannotDisableDefault(p) => "Plugin "@ + plugin_name(p) + " is a default plugin, and cannot be disabled!"@,
    }
}

/// The past participle of enabling or disabling.
pub open spec fn toggled(enable: bool) -> Seq<char> {
    if enable { "enabled"@ } else { "disabled"@ }
}

/// The report of enabling (`enable`) or disabling a plugin, given how it
/// went.
pub open spec fn toggle_report_view(p: Plugin, enable: bool, outcome: Result<(), PluginError>) -> ReportView {
    match outcome {
        Err(e) => error_report(
            "An error happened: `"@ + plugin_error_text(e) + "`"@,
            "The plugin `"@ + plugin_name(p) + "` might have been already "@ + toggled(enable) + "."@,
        ),
        Ok(()) => plain_report(
            EmbedKind::Success,
            "Plugin "@ + plugin_name(p) + " "@ + toggled(enable) + "!"@,
            "Successfully "@ + toggled(enable) + " plugin "@ + plugin_name(p) + "! Commands that were "@ + (if enable {
                "enabled for"@
            } else {
                "removed from"@
            }) + " your guild were: "@ + command_list_text(plugin_commands(p)),
        ),
    }
}

/// The report that a plugin needs setting up before it can be enabled.
pub open spec fn setup_required_view() -> ReportView {
    plain_report(
        EmbedKind::Info,
        "Dashboard setup required"@,
        "This plugin requires further setup with the dashboard UI."@,
    )
}

/// The report that a plugin needs setting up before it can be enabled.
pub fn setup_required_report() -> (r: Report)
    ensures
        r@ == setup_required_view(),
{
    create_info_embed(
        String::from_str("Dashboard setup required"),
        String::from_str("This plugin requires further setup with the dashboard UI."),
    )
}

/// The report of enabling (`enable`) or disabling a plugin, given how it
/// went.
pub fn toggle_report(plugin: Plugin, enable: bool, outcome: &Result<(), PluginError>) -> (r: Report)
    ensures
        r@ == toggle_report_view(plugin, enable, *outcome),
{
    let done = if enable { "enabled" } else { "disabled" };
    match outcome {
        Err(e) => {
            let mut error = String::from_str("An error happened: `");
            error.append(e.message().as_str());
            error.append("`");
            let mut cause = String::from_str("The plugin `");
            cause.append(plugin.to_name());
            cause.append("` might have been already ");
            cause.append(done);
            cause.append(".");
            create_error_embed(error, cause, None)
        },
        Ok(()) => {
            let mut title = String::from_str("Plugin ");
            title.append(plugin.to_name());
            title.append(" ");
            title.append(done);
            title.append("!");
            let mut body = String::from_str("Successfully ");
            body.append(done);
            body.append(" plugin ");
            body.append(plugin.to_name());
            body.append("! Commands that were ");
            body.append(if enable { "enabled for" } else { "removed from" });
            body.append(" your guild were: ");
            body.append(enabled_commands_string(plugin).as_str());
            create_success_embed(title, body)
        },
    }
}

impl PluginError {
    /// What went wrong, in words.
    pub fn message(&self) -> (r: String)
        ensures
            r@ == plugin_error_text(*self),
    {
        let mut r = String::from_str("Plugin ");
        match self {
            PluginError::AlreadyEnabled(p) => {
                r.append(p.to_name());
                r.append(" is already enabled for the current guild!");
            },
            PluginError::AlreadyDisabled(p) => {
                r.append(p.to_name());
                r.append(" is already disabled for the current guild!");
            },
            PluginError::CannotDisableDefault(p) => {
                r.append(p.to_name());
                r.append(" is a default plugin, and cannot be disabled!");
            },
        }
        r
    }
}

/// A command belongs to the commands of a list of plugins exactly when it
/// belongs to one of those plugins.
pub proof fn lemma_commands_of_plugins_contains(ps: Seq<Plugin>, m: MetadataView)
    ensures
        commands_of_plugins(ps).contains(m) <==> exists|p: Plugin| #[trigger] ps.contains(p) && plugin_commands(p).contains(m),
    decreases ps.len(),
{
    if ps.len() > 0 {
        let init = ps.drop_last();
        lemma_commands_of_plugins_contains(init, m);
        let a = commands_of_plugins(init);
        let b = plugin_commands(ps.last());
        assert(commands_of_plugins(ps) == a + b);
        if (a + b).contains(m) {
            let k = choose|k: int| 0 <= k < (a + b).len() && (a + b)[k] == m;
            if k < a.len() {
                assert(a[k] == m);
                assert(a.contains(m));
                let p = choose|p: Plugin| #[trigger] init.contains(p) && plugin_commands(p).contains(m);
                let j = choose|j: int| 0 <= j < init.len() && init[j] == p;
                assert(ps[j] == p);
                assert(ps.contains(p));
            } else {
                assert(b[k - a.len()] == m);
                assert(b.contains(m));
                assert(ps[ps.len() - 1] == ps.last());
                assert(ps.contains(ps.last()));
            }
        }
        if exists|p: Plugin| #[trigger] ps.contains(p) && plugin_commands(p).contains(m) {
            let p = choose|p: Plugin| #[trigger] ps.contains(p) && plugin_commands(p).contains(m);
            let j = choose|j: int| 0 <= j < ps.len() && ps[j] == p;
            if j < ps.len() - 1 {
                assert(init[j] == p);
                assert(init.contains(p));
                assert(a.contains(m));
                let k = choose|k: int| 0 <= k < a.len() && a[k] == m;
                assert((a + b)[k] == m);
            } else {
                assert(p == ps.last());
                assert(b.contains(m));
                let k = choose|k: int| 0 <= k < b.len() && b[k] == m;
                assert((a + b)[a.len() + k] == m);
            }
        }
    }
}

proof fn lemma_plugin_commands_distinct(p: Plugin)
    ensures
        plugin_commands(p).no_duplicates(),
        forall|k: int| 0 <= k < plugin_commands(p).len() ==> (#[trigger] plugin_commands(p)[k]).plugin == p,
{
    reveal_strlit("ban");
    reveal_strlit("kick");
    reveal_strlit("timeout");
    reveal_strlit("enable");
    reveal_strlit("disable");
    let cs = plugin_commands(p);
    assert forall|a: int, b: int| 0 <= a < b < cs.len() implies cs[a] != cs[b] by {
        assert(cs[a].name.len() != cs[b].name.len());
    }
}

/// The commands of distinct plugins are listed once each.
pub proof fn lemma_commands_of_distinct_plugins(ps: Seq<Plugin>)
    requires
        ps.no_duplicates(),
    ensures
        commands_of_plugins(ps).no_duplicates(),
    decreases ps.len(),
{
    if ps.len() > 0 {
        let init = ps.drop_last();
        assert(init.no_duplicates()) by {
            assert forall|a: int, b: int| 0 <= a < b < init.len() implies init[a] != init[b] by {
                assert(init[a] == ps[a] && init[b] == ps[b]);
            }
        }
        lemma_commands_of_distinct_plugins(init);
        lemma_plugin_commands_distinct(ps.last());
        let a = commands_of_plugins(init);
        let b = plugin_commands(ps.last());
        assert(commands_of_plugins(ps) == a + b);
        assert forall|x: int, y: int| 0 <= x < y < (a + b).len() implies (a + b)[x] != (a + b)[y] by {
            if x < a.len() && y >= a.len() {
                let m = a[x];
                assert(a.contains(m));
                lemma_commands_of_plugins_contains(init, m);
                let q = choose|q: Plugin| #[trigger] init.contains(q) && plugin_commands(q).contains(m);
                lemma_plugin_commands_distinct(q);
                let k = choose|k: int| 0 <= k < plugin_commands(q).len() && plugin_commands(q)[k] == m;
                assert(m.plugin == q);
                assert(b[y - a.len()].plugin == ps.last());
                let j = choose|j: int| 0 <= j < init.len() && init[j] == q;
                assert(ps[j] == q);
                assert(ps[ps.len() - 1] == ps.last());
            }
        }
    }
}

/// Enabling an optional plugin that is not enabled and then disabling it
/// again leaves the guild with the commands it had before.
pub proof fn lemma_enable_then_disable_restores(stored: Set<Plugin>, p: Plugin)
    requires
        !is_default_plugin(p),
        !enabled_set(stored).contains(p),
    ensures
        enable_outcome(stored, p) is Ok,
        disable_outcome(enable_outcome(stored, p)->Ok_0, p) is Ok,
        enabled_command_set(disable_outcome(enable_outcome(stored, p)->Ok_0, p)->Ok_0) == enabled_command_set(stored),
{
    let s1 = stored.insert(p);
    assert(enabled_set(s1).contains(p));
    assert(s1.remove(p) =~= stored);
}

/// Disabling a default plugin fails, whatever the guild has stored.
pub proof fn lemma_default_cannot_be_disabled(stored: Set<Plugin>, p: Plugin)
    requires
        is_default_plugin(p),
    ensures
        disable_outcome(stored, p) == Err::<Set<Plugin>, PluginError>(PluginError::CannotDisableDefault(p)),
{
    assert(enabled_set(stored).contains(p));
}

/// Once enabling a plugin has succeeded, enabling it again fails.
pub proof fn lemma_enable_twice_fails(stored: Set<Plugin>, p: Plugin)
    requires
        enable_outcome(stored, p) is Ok,
    ensures
        enable_outcome(enable_outcome(stored, p)->Ok_0, p) == Err::<Set<Plugin>, PluginError>(PluginError::AlreadyEnabled(p)),
{
    assert(enabled_set(stored.insert(p)).contains(p));
}

} // verus!
