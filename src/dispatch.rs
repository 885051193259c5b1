//! The checks an invocation passes before its command runs: the command's
//! plugin is enabled in the guild, its options are valid, and the user's
//! cooldown on it has run out.

use vstd::prelude::*;
use crate::command::Metadata;
use crate::cooldown::{get_remaining_cooldown, remaining_cooldown};
use crate::plugin::{Plugin, PluginManager, enabled_set, plugin_name};
use crate::report::{Report, ReportView, EmbedKind, plain_report, error_report, create_error_embed, create_warning_embed};
use crate::text::{decimal, decimal_string};
use crate::validate::{CommandOption, InvalidOptionError, validation_fault, fault_text};

verus! {

/// Why an invocation does not run.
pub enum DispatchError {
    /// The command's plugin is not enabled in the guild.
    PluginDisabled(Plugin),
    /// An option is not valid.
    InvalidOption(InvalidOptionError),
    /// The user waits this many more seconds before using the command again.
    CoolingDown(u64),
}

/// Checks an invocation of `command` with `options` at time `now`, given
/// the guild's plugin settings and the user's last use of the command.
pub fn check_invocation(
    plugins: &PluginManager,
    command: &Metadata,
    options: &[CommandOption],
    now: u64,
    last_use: Option<u64>,
) -> (r: Result<(), DispatchError>)
    ensures
        match r {
            Err(DispatchError::PluginDisabled(p)) => !enabled_set(plugins.stored()).contains(command.plugin) && p
                == command.plugin,
            Err(DispatchError::InvalidOption(e)) => enabled_set(plugins.stored()).contains(command.plugin)
                && validation_fault(command.validated_options@, options@) == Some(e@),
            Err(DispatchError::CoolingDown(left)) => enabled_set(plugins.stored()).contains(command.plugin)
                && validation_fault(command.validated_options@, options@) is None && left > 0 && left
                == remaining_cooldown(now, last_use, command.cooldown_secs),
            Ok(()) => enabled_set(plugins.stored()).contains(command.plugin) && validation_fault(
                command.validated_options@,
                options@,
            ) is None && remaining_cooldown(now, last_use, command.cooldown_secs) == 0,
        },
{
    if !plugins.is_enabled(command.plugin) {
        return Err(DispatchError::PluginDisabled(command.plugin));
    }
    match command.validated_options.validate(options) {
        Err(e) => {
            return Err(DispatchError::InvalidOption(e));
        },
        Ok(()) => {},
    }
    let left = get_remaining_cooldown(now, last_use, command.cooldown_secs);
    if left > 0 {
        Err(DispatchError::CoolingDown(left))
    } else {
        Ok(())
    }
}

/// The report that an invocation of `/invoked` does not run, and why.
pub open spec fn rejection_view(e: DispatchError, invoked: Seq<char>) -> ReportView {
    match e {
        DispatchError::PluginDisabled(p) => error_report(
            "/"@ + invoked + " is not enabled here."@,
            "The plugin "@ + plugin_name(p) + " is disabled for this guild."@,
        ),
        DispatchError::InvalidOption(o) => error_report(fault_text(o@), "An option of the command is not valid."@),
        DispatchError::CoolingDown(left) => plain_report(
            EmbedKind::Warn,
            "Slow down!"@,
            "You can use /"@ + invoked + " again in "@ + decimal(left as nat) + " seconds."@,
        ),
    }
}

impl DispatchError {
    /// The report that an invocation of `/invoked` does not run, and why.
    pub fn report(&self, invoked: &str) -> (r: Report)
        ensures
            r@ == rejection_view(*self, invoked@),
    {
        match self {
            DispatchError::PluginDisabled(p) => {
                let mut error = String::from_str("/");
                error.append(invoked);
                error.append(" is not enabled here.");
                let mut cause = String::from_str("The plugin ");
                cause.append(p.to_name());
                cause.append(" is disabled for this guild.");
                create_error_embed(error, cause, None)
            },
            DispatchError::InvalidOption(o) => create_error_embed(
                o.message(),
                String::from_str("An option of the command is not valid."),
                None,
            ),
            DispatchError::CoolingDown(left) => {
                let mut body = String::from_str("You can use /");
                body.append(invoked);
                body.append(" again in ");
                body.append(decimal_string(*left).as_str());
                body.append(" seconds.");
                create_warning_embed(String::from_str("Slow down!"), body)
            },
        }
    }
}

} // verus!
