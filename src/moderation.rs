//! Moderation: who may act on whom, and the pipeline that acknowledges a
//! moderation command, assesses eligibility, notifies the target, has the
//! platform perform the action and reports each outcome.
//!
//! The pipeline is a state machine. The caller performs each step it asks
//! for (a lookup, a direct message, a platform call), sends the report that
//! comes with it, and hands back what happened.

use vstd::prelude::*;
use crate::report::{
    Report, ReportView, EmbedKind, plain_report, add_field, error_report, create_info_embed,
    create_error_embed, create_warning_embed,
};
use crate::duration::{span_string, span_text};
use crate::text::{mention, mention_text};

verus! {

/// A moderation action.
#[derive(Clone, Copy, Debug, PartialEq, Eq, Structural)]
pub enum ModerationAction {
    /// Bans a member from the guild.
    Ban,
    /// Kicks a member from the guild.
    Kick,
    /// Times a member out for a while.
    Timeout,
}

pub open spec fn verb(a: ModerationAction) -> Seq<char> {
    match a {
        ModerationAction::Ban => "ban"@,
        ModerationAction::Kick => "kick"@,
        ModerationAction::Timeout => "timeout"@,
    }
}

pub open spec fn verb_past(a: ModerationAction) -> Seq<char> {
    match a {
        ModerationAction::Ban => "banned"@,
        ModerationAction::Kick => "kicked"@,
        ModerationAction::Timeout => "timed out"@,
    }
}

/// The title of the direct message that tells a member of an action.
pub open spec fn verb_title(a: ModerationAction) -> Seq<char> {
    match a {
        ModerationAction::Ban => "Banned!"@,
        ModerationAction::Kick => "Kicked!"@,
        ModerationAction::Timeout => "Timed out!"@,
    }
}

impl ModerationAction {
    /// Whether the action needs a duration.
    pub fn requires_duration(self) -> (r: bool)
        ensures
            r == (self == ModerationAction::Timeout),
    {
        match self {
            ModerationAction::Timeout => true,
            _ => false,
        }
    }

    /// The verb of the action, present tense.
    pub fn get_moderation_verb(self) -> (r: &'static str)
        ensures
            r@ == verb(self),
    {
        match self {
            ModerationAction::Ban => "ban",
            ModerationAction::Kick => "kick",
            ModerationAction::Timeout => "timeout",
        }
    }

    /// The verb of the action, past tense.
    pub fn get_moderation_verb_past(self) -> (r: &'static str)
        ensures
            r@ == verb_past(self),
    {
        match self {
            ModerationAction::Ban => "banned",
            ModerationAction::Kick => "kicked",
            ModerationAction::Timeout => "timed out",
        }
    }

    /// The verb of the action, past tense, capitalised and exclaimed.
    pub fn get_moderation_title(self) -> (r: &'static str)
        ensures
            r@ == verb_title(self),
    {
        match self {
            ModerationAction::Ban => "Banned!",
            ModerationAction::Kick => "Kicked!",
            ModerationAction::Timeout => "Timed out!",
        }
    }
}

/// Whether a moderator may act on a member, and if not, why.
#[derive(Clone, Copy, Debug, PartialEq, Eq, Structural)]
pub enum ModerationEligibility {
    /// The member may be moderated.
    Eligible,
    /// The member is an automated account, managed through its integration.
    TargetIsBot,
    /// The member is the moderator.
    TargetIsModeratorSelf,
    /// The member owns the guild.
    TargetIsGuildOwner,
    /// The member's highest role is at or above the moderator's.
    TargetOutranksActor,
}

/// What the guild says of a moderator and a member.
pub struct GuildStanding {
    /// The owner of the guild.
    pub owner_id: u64,
    /// The name of the guild.
    pub guild_name: String,
    /// Whether the member is an automated account.
    pub target_is_bot: bool,
    /// The moderator's position in the role hierarchy.
    pub actor_position: u64,
    /// The member's position in the role hierarchy.
    pub target_position: u64,
}

/// The eligibility ladder, rule by rule from the top: acting on oneself, on
/// a bot, on the owner, on someone who ranks at least as high (which does
/// not hold the owner back), and otherwise eligible.
pub open spec fn eligibility(actor: u64, target: u64, g: GuildStanding) -> ModerationEligibility {
    if actor == target {
        ModerationEligibility::TargetIsModeratorSelf
    } else if g.target_is_bot {
        ModerationEligibility::TargetIsBot
    } else if target == g.owner_id {
        ModerationEligibility::TargetIsGuildOwner
    } else if actor != g.owner_id && g.target_position >= g.actor_position {
        ModerationEligibility::TargetOutranksActor
    } else {
        ModerationEligibility::Eligible
    }
}

/// A member who owns the guild is reported as the owner even where the
/// member also outranks the moderator.
pub proof fn lemma_owner_before_rank(actor: u64, target: u64, g: GuildStanding)
    requires
        actor != target,
        !g.target_is_bot,
        target == g.owner_id,
        g.target_position >= g.actor_position,
    ensures
        eligibility(actor, target, g) == ModerationEligibility::TargetIsGuildOwner,
{
}

/// The error of an ineligibility report.
pub open spec fn ineligibility_error(
    e: ModerationEligibility,
    actor: u64,
    target: u64,
    a: ModerationAction,
) -> Seq<char> {
    match e {
        ModerationEligibility::TargetIsBot => mention_text(target) + " is a bot user, and cannot be "@
            + verb_past(a) + ". Please manage the integration attached to "@ + mention_text(target)
            + " instead."@,
        ModerationEligibility::TargetIsGuildOwner => mention_text(target) + " is a server owner, and cannot be "@
            + verb_past(a) + "."@,
        ModerationEligibility::TargetIsModeratorSelf => "You cannot "@ + verb(a) + " yourself, "@
            + mention_text(actor) + "."@,
        ModerationEligibility::TargetOutranksActor => mention_text(target) + " is higher in the hierarchy than "@
            + mention_text(actor) + ", and cannot be "@ + verb_past(a) + "."@,
        ModerationEligibility::Eligible => seq![],
    }
}

/// The cause given in an ineligibility report.
pub open spec fn ineligibility_cause(e: ModerationEligibility, a: ModerationAction) -> Seq<char> {
    match e {
        ModerationEligibility::TargetIsBot => "Bot users are attached to integrations, so it is better to manage them directly than to "@
            + verb(a) + " the bot users."@,
        ModerationEligibility::TargetIsGuildOwner => "Server owners are the highest in the hierarchy, so they cannot be "@
            + verb_past(a) + "."@,
        ModerationEligibility::TargetIsModeratorSelf => "You don't have higher permissions than yourself."@,
        ModerationEligibility::TargetOutranksActor => "You don't have higher permissions than the member you are trying to "@
            + verb(a) + "."@,
        ModerationEligibility::Eligible => seq![],
    }
}

impl ModerationEligibility {
    /// Whether `actor` may moderate `target`, from what the guild says of
    /// them.
    pub fn assess(actor: u64, target: u64, guild: &GuildStanding) -> (r: ModerationEligibility)
        ensures
            r == eligibility(actor, target, *guild),
    {
        if actor == target {
            ModerationEligibility::TargetIsModeratorSelf
        } else if guild.target_is_bot {
            ModerationEligibility::TargetIsBot
        } else if target == guild.owner_id {
            ModerationEligibility::TargetIsGuildOwner
        } else if actor != guild.owner_id && guild.target_position >= guild.actor_position {
            ModerationEligibility::TargetOutranksActor
        } else {
            ModerationEligibility::Eligible
        }
    }

    /// The report that `actor` may not moderate `target`, and why.
    pub fn create_ineligibility_embed(self, actor: u64, target: u64, action: ModerationAction) -> (r: Report)
        requires
            self != ModerationEligibility::Eligible,
        ensures
            r@ == error_report(ineligibility_error(self, actor, target, action), ineligibility_cause(self, action)),
    {
        let verb_present = action.get_moderation_verb();
        let verb_past = action.get_moderation_verb_past();
        let mut error = String::new();
        let mut cause = String::new();
        match self {
            ModerationEligibility::TargetIsBot => {
                error = mention(target);
                error.append(" is a bot user, and cannot be ");
                error.append(verb_past);
                error.append(". Please manage the integration attached to ");
                error.append(mention(target).as_str());
                error.append(" instead.");
                cause.append("Bot users are attached to integrations, so it is better to manage them directly than to ");
                cause.append(verb_present);
                cause.append(" the bot users.");
            },
            ModerationEligibility::TargetIsGuildOwner => {
                error = mention(target);
                error.append(" is a server owner, and cannot be ");
                error.append(verb_past);
                error.append(".");
                cause.append("Server owners are the highest in the hierarchy, so they cannot be ");
                cause.append(verb_past);
                cause.append(".");
            },
            ModerationEligibility::TargetIsModeratorSelf => {
                error.append("You cannot ");
                error.append(verb_present);
                error.append(" yourself, ");
                error.append(mention(actor).as_str());
                error.append(".");
                cause.append("You don't have higher permissions than yourself.");
            },
            _ => {
                error = mention(target);
                error.append(" is higher in the hierarchy than ");
                error.append(mention(actor).as_str());
                error.append(", and cannot be ");
                error.append(verb_past);
                error.append(".");
                cause.append("You don't have higher permissions than the member you are trying to ");
                cause.append(verb_present);
                cause.append(".");
            },
        }
        assert(error@ =~= ineligibility_error(self, actor, target, action));
        assert(cause@ =~= ineligibility_cause(self, action));
        create_error_embed(error, cause, None)
    }
}

/// The parameters of a moderation action.
pub struct ModerationParameters {
    /// The member to act on.
    pub user: u64,
    /// Why the action is taken.
    pub reason: String,
    /// How long the action lasts, in seconds; the timeout needs it, the
    /// others ignore it.
    pub duration: Option<u64>,
}

/// Why a moderation command ended without the action done.
pub enum ModerationError {
    /// What the guild says of the moderator and the member could not be
    /// found out.
    AssessmentFailed(String),
    /// The moderator may not act on the member.
    Ineligible(ModerationEligibility),
    /// The platform did not perform the action.
    ActionFailed(String),
}

/// A call on the chat platform that performs an action.
pub enum PlatformAction {
    /// Ban the member, removing their recent messages if asked.
    Ban { user: u64, reason: String, purge_messages: bool },
    /// Kick the member.
    Kick { user: u64, reason: String },
    /// Time the member out until the given UNIX time, in seconds.
    Timeout { user: u64, until: u64, reason: String },
}

/// What the pipeline asks its caller to do next.
pub enum NextStep {
    /// Find out what the guild says of the moderator and the member, and
    /// hand it to [`ModerationPipeline::on_assessment`].
    LookUpStanding,
    /// Send the member a direct message, and hand the outcome to
    /// [`ModerationPipeline::on_notified`].
    Notify { user: u64, message: Report },
    /// Have the platform perform the action, and hand the outcome to
    /// [`ModerationPipeline::on_action`].
    Perform(PlatformAction),
    /// Nothing more: the command ended so.
    Done(Result<(), ModerationError>),
}

/// A report to send, if any, and what to do next.
pub struct Step {
    pub report: Option<Report>,
    pub next: NextStep,
}

/// Where a moderation pipeline stands.
#[derive(Clone, Copy, Debug, PartialEq, Eq, Structural)]
pub enum ModerationStage {
    Assessing,
    Notifying,
    Acting,
    Finished,
}

/// One moderation command on its way through the pipeline.
pub struct ModerationPipeline {
    pub action: ModerationAction,
    pub params: ModerationParameters,
    /// The moderator who invoked the command.
    pub actor: u64,
    pub stage: ModerationStage,
}

/// The report that the command is being worked on.
pub open spec fn acknowledgement_report() -> ReportView {
    plain_report(EmbedKind::Info, "Wait a moment..."@, "Hang tight, I'm working on it."@)
}

/// The report that eligibility could not be assessed.
pub open spec fn assessment_failed_report(cause: Seq<char>) -> ReportView {
    error_report(
        "Failed to assess eligibility!"@,
        "The bot failed to assess the eligibility of the member for moderation: "@ + cause
            + ". To be safe, the bot will abort whatever moderation action that is being performed right now."@,
    )
}

/// The direct message that tells a member of an action.
pub open spec fn notice_report(a: ModerationAction, guild_name: Seq<char>) -> ReportView {
    plain_report(EmbedKind::Info, verb_title(a), "You have been "@ + verb_past(a) + " by guild "@ + guild_name + "."@)
}

/// The report of the direct message to the member.
pub open spec fn notification_report(user: u64, sent: Result<(), Seq<char>>) -> ReportView {
    match sent {
        Ok(()) => plain_report(EmbedKind::Info, "Notified!"@, mention_text(user) + " has been notified."@),
        Err(why) => add_field(
            plain_report(
                EmbedKind::Warn,
                "Notification failed!"@,
                "The bot failed to send "@ + mention_text(user) + " a DM. Please notify them manually."@,
            ),
            "Failure reason"@,
            why,
            false,
        ),
    }
}

/// The duration shown in the report of an action.
pub open spec fn duration_text(d: Option<u64>) -> Seq<char> {
    match d {
        None => "Not applicable"@,
        Some(secs) => span_text(secs as nat),
    }
}

/// The report of the action.
pub open spec fn action_report(
    a: ModerationAction,
    user: u64,
    reason: Seq<char>,
    duration: Option<u64>,
    done: Result<(), Seq<char>>,
) -> ReportView {
    match done {
        Ok(()) => add_field(
            add_field(
                add_field(
                    add_field(
                        plain_report(
                            EmbedKind::Info,
                            "Success!"@,
                            mention_text(user) + " has been successfully "@ + verb_past(a) + "."@,
                        ),
                        "Action"@,
                        verb(a),
                        true,
                    ),
                    "Member"@,
                    mention_text(user),
                    true,
                ),
                "Duration"@,
                duration_text(duration),
                true,
            ),
            "Reason"@,
            reason,
            false,
        ),
        Err(why) => error_report("The bot failed to "@ + verb(a) + " "@ + mention_text(user) + "."@, why),
    }
}

/// An outcome with its message as characters.
pub open spec fn outcome(r: Result<(), String>) -> Result<(), Seq<char>> {
    match r {
        Ok(()) => Ok(()),
        Err(s) => Err(s@),
    }
}

/// When a timeout that starts at `now` and lasts `secs` ends; the latest
/// representable time if that lies beyond.
pub open spec fn timeout_end(now: u64, secs: u64) -> u64 {
    if now + secs > u64::MAX { u64::MAX } else { (now + secs) as u64 }
}

/// Whether `call` is the platform call that performs action `a` with the
/// given parameters at time `now`.
pub open spec fn performs(call: PlatformAction, a: ModerationAction, p: ModerationParameters, now: u64) -> bool {
    match (a, call) {
        (ModerationAction::Ban, PlatformAction::Ban { user, reason, purge_messages }) => user == p.user && reason@
            == p.reason@ && purge_messages,
        (ModerationAction::Kick, PlatformAction::Kick { user, reason }) => user == p.user && reason@ == p.reason@,
        (ModerationAction::Timeout, PlatformAction::Timeout { user, until, reason }) => match p.duration {
            Some(secs) => user == p.user && reason@ == p.reason@ && until == timeout_end(now, secs),
            None => false,
        },
        _ => false,
    }
}

fn copy_string(s: &String) -> (r: String)
    ensures
        r@ == s@,
{
    String::from_str(s.as_str())
}

/// Builds [`ModerationParameters`]; each field must be given.
pub struct ModerationParametersBuilder {
    pub user: Option<u64>,
    pub reason: Option<String>,
    pub duration: Option<Option<u64>>,
}

impl ModerationParametersBuilder {
    pub fn user(self, user: u64) -> (r: ModerationParametersBuilder)
        ensures
            r == (ModerationParametersBuilder { user: Some(user), ..self }),
    {
        ModerationParametersBuilder { user: Some(user), ..self }
    }

    pub fn reason(self, reason: String) -> (r: ModerationParametersBuilder)
        ensures
            r == (ModerationParametersBuilder { reason: Some(reason), ..self }),
    {
        ModerationParametersBuilder { reason: Some(reason), ..self }
    }

    pub fn duration(self, duration: Option<u64>) -> (r: ModerationParametersBuilder)
        ensures
            r == (ModerationParametersBuilder { duration: Some(duration), ..self }),
    {
        ModerationParametersBuilder { duration: Some(duration), ..self }
    }

    /// The parameters, or the name of the first field not given.
    pub fn build(self) -> (r: Result<ModerationParameters, &'static str>)
        ensures
            match r {
                Ok(p) => self.user == Some(p.user) && self.reason == Some(p.reason) && self.duration == Some(
                    p.duration,
                ),
                Err(f) => if self.user is None {
                    f@ == "user"@
                } else if self.reason is None {
                    f@ == "reason"@
                } else {
                    self.duration is None && f@ == "duration"@
                },
            },
    {
        let ModerationParametersBuilder { user, reason, duration } = self;
        let user = match user {
            Some(u) => u,
            None => return Err("user"),
        };
        let reason = match reason {
            Some(r) => r,
            None => return Err("reason"),
        };
        let duration = match duration {
            Some(d) => d,
            None => return Err("duration"),
        };
        Ok(ModerationParameters { user, reason, duration })
    }
}

impl ModerationParameters {
    /// A builder with nothing given yet.
    pub fn builder() -> (r: ModerationParametersBuilder)
        ensures
            r.user is None,
            r.reason is None,
            r.duration is None,
    {
        ModerationParametersBuilder { user: None, reason: None, duration: None }
    }

    /// A copy of these parameters.
    pub fn duplicate(&self) -> (r: ModerationParameters)
        ensures
            r.user == self.user,
            r.reason@ == self.reason@,
            r.duration == self.duration,
    {
        ModerationParameters { user: self.user, reason: copy_string(&self.reason), duration: self.duration }
    }
}

impl ModerationPipeline {
    /// Starts a moderation command: asks for the acknowledgement to be sent
    /// and the guild to be looked up.
    pub fn start(action: ModerationAction, params: ModerationParameters, actor: u64) -> (r: (ModerationPipeline, Step))
        requires
            action == ModerationAction::Timeout ==> params.duration is Some,
        ensures
            r.0.action == action,
            r.0.params == params,
            r.0.actor == actor,
            r.0.stage == ModerationStage::Assessing,
            r.1.report matches Some(rep) && rep@ == acknowledgement_report(),
            r.1.next is LookUpStanding,
    {
        let report = create_info_embed(
            String::from_str("Wait a moment..."),
            String::from_str("Hang tight, I'm working on it."),
        );
        (
            ModerationPipeline { action, params, actor, stage: ModerationStage::Assessing },
            Step { report: Some(report), next: NextStep::LookUpStanding },
        )
    }

    /// Takes what the guild says of the moderator and the member, or why
    /// that could not be found out. An eligible member is to be notified;
    /// otherwise the command ends here, with no message to the member and no
    /// action.
    pub fn on_assessment(&mut self, standing: Result<GuildStanding, String>) -> (r: Step)
        requires
            old(self).stage == ModerationStage::Assessing,
        ensures
            final(self).action == old(self).action,
            final(self).params == old(self).params,
            final(self).actor == old(self).actor,
            match standing {
                Err(cause) => {
                    &&& final(self).stage == ModerationStage::Finished
                    &&& r.report matches Some(rep) && rep@ == assessment_failed_report(cause@)
                    &&& r.next matches NextStep::Done(Err(ModerationError::AssessmentFailed(c))) && c@ == cause@
                },
                Ok(g) => {
                    let e = eligibility(old(self).actor, old(self).params.user, g);
                    if e == ModerationEligibility::Eligible {
                        &&& final(self).stage == ModerationStage::Notifying
                        &&& r.report is None
                        &&& r.next matches NextStep::Notify { user, message } && user == old(self).params.user
                            && message@ == notice_report(old(self).action, g.guild_name@)
                    } else {
                        &&& final(self).stage == ModerationStage::Finished
                        &&& r.report matches Some(rep) && rep@ == error_report(
                            ineligibility_error(e, old(self).actor, old(self).params.user, old(self).action),
                            ineligibility_cause(e, old(self).action),
                        )
                        &&& r.next matches NextStep::Done(Err(ModerationError::Ineligible(x))) && x == e
                    }
                },
            },
    {
        match standing {
            Err(cause) => {
                self.stage = ModerationStage::Finished;
                let mut detail = String::from_str(
                    "The bot failed to assess the eligibility of the member for moderation: ",
                );
                detail.append(cause.as_str());
                detail.append(
                    ". To be safe, the bot will abort whatever moderation action that is being performed right now.",
                );
                let report = create_error_embed(String::from_str("Failed to assess eligibility!"), detail, None);
                Step { report: Some(report), next: NextStep::Done(Err(ModerationError::AssessmentFailed(cause))) }
            },
            Ok(g) => {
                let e = ModerationEligibility::assess(self.actor, self.params.user, &g);
                if e == ModerationEligibility::Eligible {
                    self.stage = ModerationStage::Notifying;
                    let mut body = String::from_str("You have been ");
                    body.append(self.action.get_moderation_verb_past());
                    body.append(" by guild ");
                    body.append(g.guild_name.as_str());
                    body.append(".");
                    let message = create_info_embed(String::from_str(self.action.get_moderation_title()), body);
                    Step { report: None, next: NextStep::Notify { user: self.params.user, message } }
                } else {
                    self.stage = ModerationStage::Finished;
                    let report = e.create_ineligibility_embed(self.actor, self.params.user, self.action);
                    Step { report: Some(report), next: NextStep::Done(Err(ModerationError::Ineligible(e))) }
                }
            },
        }
    }

    /// Takes the outcome of the direct message to the member, which does
    /// not stop the command, and the time now; asks for the action.
    pub fn on_notified(&mut self, sent: Result<(), String>, now: u64) -> (r: Step)
        requires
            old(self).stage == ModerationStage::Notifying,
            old(self).action == ModerationAction::Timeout ==> old(self).params.duration is Some,
        ensures
            final(self).action == old(self).action,
            final(self).params == old(self).params,
            final(self).actor == old(self).actor,
            final(self).stage == ModerationStage::Acting,
            r.report matches Some(rep) && rep@ == notification_report(old(self).params.user, outcome(sent)),
            r.next matches NextStep::Perform(call) && performs(call, old(self).action, old(self).params, now),
    {
        self.stage = ModerationStage::Acting;
        let user = self.params.user;
        let report = match sent {
            Ok(()) => {
                let mut body = mention(user);
                body.append(" has been notified.");
                create_info_embed(String::from_str("Notified!"), body)
            },
            Err(why) => {
                let mut body = String::from_str("The bot failed to send ");
                body.append(mention(user).as_str());
                body.append(" a DM. Please notify them manually.");
                create_warning_embed(String::from_str("Notification failed!"), body).with_field(
                    String::from_str("Failure reason"),
                    why,
                    false,
                )
            },
        };
        let reason = copy_string(&self.params.reason);
        let call = match self.action {
            ModerationAction::Ban => PlatformAction::Ban { user, reason, purge_messages: true },
            ModerationAction::Kick => PlatformAction::Kick { user, reason },
            ModerationAction::Timeout => {
                let secs = match self.params.duration {
                    Some(secs) => secs,
                    None => 0,
                };
                let until = now.saturating_add(secs);
                PlatformAction::Timeout { user, until, reason }
            },
        };
        Step { report: Some(report), next: NextStep::Perform(call) }
    }

    /// Takes the outcome of the action and reports it; the command ends.
    pub fn on_action(&mut self, done: Result<(), String>) -> (r: Step)
        requires
            old(self).stage == ModerationStage::Acting,
        ensures
            final(self).action == old(self).action,
            final(self).params == old(self).params,
            final(self).actor == old(self).actor,
            final(self).stage == ModerationStage::Finished,
            r.report matches Some(rep) && rep@ == action_report(
                old(self).action,
                old(self).params.user,
                old(self).params.reason@,
                old(self).params.duration,
                outcome(done),
            ),
            match done {
                Ok(()) => r.next matches NextStep::Done(Ok(())),
                Err(why) => r.next matches NextStep::Done(Err(ModerationError::ActionFailed(c))) && c@ == why@,
            },
    {
        self.stage = ModerationStage::Finished;
        let user = self.params.user;
        match done {
            Ok(()) => {
                let mut body = mention(user);
                body.append(" has been successfully ");
                body.append(self.action.get_moderation_verb_past());
                body.append(".");
                let duration = match self.params.duration {
                    None => String::from_str("Not applicable"),
                    Some(secs) => span_string(secs),
                };
                let report = create_info_embed(String::from_str("Success!"), body).with_field(
                    String::from_str("Action"),
                    String::from_str(self.action.get_moderation_verb()),
                    true,
                ).with_field(String::from_str("Member"), mention(user), true).with_field(
                    String::from_str("Duration"),
                    duration,
                    true,
                ).with_field(String::from_str("Reason"), copy_string(&self.params.reason), false);
                Step { report: Some(report), next: NextStep::Done(Ok(())) }
            },
            Err(why) => {
                let mut error = String::from_str("The bot failed to ");
                error.append(self.action.get_moderation_verb());
                error.append(" ");
                error.append(mention(user).as_str());
                error.append(".");
                let report = create_error_embed(error, copy_string(&why), None);
                Step { report: Some(report), next: NextStep::Done(Err(ModerationError::ActionFailed(why))) }
            },
        }
    }
}

} // verus!
