//! Command dispatch and moderation core of a guild moderation bot: command
//! descriptors and their resolution, option validation, per-user cooldowns,
//! per-guild plugin enablement, and the moderation eligibility ladder with its
//! action pipeline.

pub mod command;
pub mod cooldown;
pub mod dispatch;
pub mod duration;
pub mod moderation;
pub mod plugin;
pub mod report;
pub mod text;
pub mod validate;

