use aegistrate::duration::span_string;
use aegistrate::moderation::{
    GuildStanding, ModerationAction, ModerationEligibility, ModerationError, ModerationParameters,
    ModerationPipeline, ModerationStage, NextStep, PlatformAction,
};
use aegistrate::report::EmbedKind;
use aegistrate::validate::duration_secs;

fn standing(owner_id: u64, target_is_bot: bool, actor_position: u64, target_position: u64) -> GuildStanding {
    GuildStanding { owner_id, guild_name: "Harbour".to_string(), target_is_bot, actor_position, target_position }
}

fn params(user: u64, reason: &str, duration: Option<u64>) -> ModerationParameters {
    ModerationParameters { user, reason: reason.to_string(), duration }
}

#[test]
fn owner_who_outranks_is_reported_as_owner() {
    let g = standing(2, false, 5, 10);
    assert_eq!(ModerationEligibility::assess(1, 2, &g), ModerationEligibility::TargetIsGuildOwner);
}

#[test]
fn eligibility_ladder() {
    assert_eq!(
        ModerationEligibility::assess(1, 1, &standing(1, true, 5, 1)),
        ModerationEligibility::TargetIsModeratorSelf
    );
    assert_eq!(ModerationEligibility::assess(1, 2, &standing(2, true, 5, 9)), ModerationEligibility::TargetIsBot);
    assert_eq!(
        ModerationEligibility::assess(1, 2, &standing(3, false, 5, 5)),
        ModerationEligibility::TargetOutranksActor
    );
    assert_eq!(ModerationEligibility::assess(1, 2, &standing(3, false, 5, 4)), ModerationEligibility::Eligible);
    assert_eq!(ModerationEligibility::assess(1, 2, &standing(1, false, 0, 9)), ModerationEligibility::Eligible);
}

#[test]
fn timeout_on_a_higher_member_is_refused() {
    let duration = duration_secs("30m");
    assert_eq!(duration, Some(1800));
    let (mut pipeline, step) =
        ModerationPipeline::start(ModerationAction::Timeout, params(2, "No reason provided.", duration), 1);
    assert!(matches!(step.next, NextStep::LookUpStanding));
    assert_eq!(step.report.unwrap().title, "Wait a moment...");
    let step = pipeline.on_assessment(Ok(standing(3, false, 5, 10)));
    assert_eq!(pipeline.stage, ModerationStage::Finished);
    assert!(matches!(
        step.next,
        NextStep::Done(Err(ModerationError::Ineligible(ModerationEligibility::TargetOutranksActor)))
    ));
    let report = step.report.unwrap();
    assert_eq!(report.kind, EmbedKind::Error);
    assert_eq!(report.description, "<@2> is higher in the hierarchy than <@1>, and cannot be timed out.");
    assert_eq!(report.fields[0].name, "Cause");
    assert_eq!(
        report.fields[0].value,
        "You don't have higher permissions than the member you are trying to timeout."
    );
}

#[test]
fn owner_bans_a_member() {
    let (mut pipeline, _) = ModerationPipeline::start(ModerationAction::Ban, params(2, "spam", None), 1);
    let step = pipeline.on_assessment(Ok(standing(1, false, 0, 7)));
    assert!(step.report.is_none());
    match step.next {
        NextStep::Notify { user, message } => {
            assert_eq!(user, 2);
            assert_eq!(message.title, "Banned!");
            assert_eq!(message.description, "You have been banned by guild Harbour.");
        },
        _ => panic!("the member is to be notified first"),
    }
    let step = pipeline.on_notified(Err("Cannot send messages to this user".to_string()), 1_700_000_000);
    let report = step.report.unwrap();
    assert_eq!(report.kind, EmbedKind::Warn);
    assert_eq!(report.description, "The bot failed to send <@2> a DM. Please notify them manually.");
    assert_eq!(report.fields[0].value, "Cannot send messages to this user");
    match step.next {
        NextStep::Perform(PlatformAction::Ban { user, reason, purge_messages }) => {
            assert_eq!(user, 2);
            assert_eq!(reason, "spam");
            assert!(purge_messages);
        },
        _ => panic!("a ban is to be issued"),
    }
    let step = pipeline.on_action(Ok(()));
    assert!(matches!(step.next, NextStep::Done(Ok(()))));
    let report = step.report.unwrap();
    assert_eq!(report.title, "Success!");
    assert_eq!(report.description, "<@2> has been successfully banned.");
    let fields: Vec<(String, String, bool)> =
        report.fields.into_iter().map(|f| (f.name, f.value, f.inline)).collect();
    assert_eq!(
        fields,
        vec![
            ("Action".to_string(), "ban".to_string(), true),
            ("Member".to_string(), "<@2>".to_string(), true),
            ("Duration".to_string(), "Not applicable".to_string(), true),
            ("Reason".to_string(), "spam".to_string(), false),
        ]
    );
}

#[test]
fn timeout_ends_after_its_duration() {
    let (mut pipeline, _) = ModerationPipeline::start(ModerationAction::Timeout, params(4, "flood", Some(1800)), 1);
    let _ = pipeline.on_assessment(Ok(standing(1, false, 9, 2)));
    let step = pipeline.on_notified(Ok(()), 1_000);
    assert_eq!(step.report.unwrap().description, "<@4> has been notified.");
    match step.next {
        NextStep::Perform(PlatformAction::Timeout { user, until, reason }) => {
            assert_eq!((user, until, reason.as_str()), (4, 2_800, "flood"));
        },
        _ => panic!("a timeout is to be issued"),
    }
    let report = pipeline.on_action(Ok(())).report.unwrap();
    assert_eq!(report.fields[2].value, "30m");
}

#[test]
fn failed_assessment_aborts() {
    let (mut pipeline, _) = ModerationPipeline::start(ModerationAction::Kick, params(2, "r", None), 1);
    let step = pipeline.on_assessment(Err("guild not cached".to_string()));
    match step.next {
        NextStep::Done(Err(ModerationError::AssessmentFailed(cause))) => assert_eq!(cause, "guild not cached"),
        _ => panic!("the command ends"),
    }
    let report = step.report.unwrap();
    assert_eq!(report.description, "Failed to assess eligibility!");
    assert!(report.fields[0].value.contains("guild not cached"));
}

#[test]
fn failed_action_is_reported() {
    let (mut pipeline, _) = ModerationPipeline::start(ModerationAction::Kick, params(2, "r", None), 1);
    let _ = pipeline.on_assessment(Ok(standing(1, false, 0, 3)));
    let step = pipeline.on_notified(Ok(()), 5);
    assert!(matches!(step.next, NextStep::Perform(PlatformAction::Kick { user: 2, .. })));
    let step = pipeline.on_action(Err("Missing Permissions".to_string()));
    match step.next {
        NextStep::Done(Err(ModerationError::ActionFailed(cause))) => assert_eq!(cause, "Missing Permissions"),
        _ => panic!("the failure is returned"),
    }
    let report = step.report.unwrap();
    assert_eq!(report.description, "The bot failed to kick <@2>.");
    assert_eq!(report.fields[0].value, "Missing Permissions");
}

#[test]
fn ineligibility_texts() {
    let r = ModerationEligibility::TargetIsBot.create_ineligibility_embed(1, 9, ModerationAction::Kick);
    assert_eq!(
        r.description,
        "<@9> is a bot user, and cannot be kicked. Please manage the integration attached to <@9> instead."
    );
    let r = ModerationEligibility::TargetIsModeratorSelf.create_ineligibility_embed(1, 1, ModerationAction::Ban);
    assert_eq!(r.description, "You cannot ban yourself, <@1>.");
    let r = ModerationEligibility::TargetIsGuildOwner.create_ineligibility_embed(1, 3, ModerationAction::Ban);
    assert_eq!(r.fields[0].value, "Server owners are the highest in the hierarchy, so they cannot be banned.");
}

#[test]
fn verbs() {
    assert!(ModerationAction::Timeout.requires_duration());
    assert!(!ModerationAction::Ban.requires_duration());
    assert_eq!(ModerationAction::Timeout.get_moderation_verb(), "timeout");
    assert_eq!(ModerationAction::Timeout.get_moderation_verb_past(), "timed out");
    assert_eq!(ModerationAction::Kick.get_moderation_title(), "Kicked!");
}

#[test]
fn span_texts() {
    assert_eq!(span_string(0), "0s");
    assert_eq!(span_string(3661), "1h1m1s");
    assert_eq!(span_string(86_430), "1d30s");
    assert_eq!(span_string(2_419_200), "28d");
}

#[test]
fn parameters_builder_needs_every_field() {
    assert_eq!(ModerationParameters::builder().user(3).build().err(), Some("reason"));
    let built = ModerationParameters::builder()
        .user(3)
        .reason("spam".to_string())
        .duration(None)
        .build()
        .ok()
        .unwrap();
    assert_eq!((built.user, built.reason.as_str(), built.duration), (3, "spam", None));
}
