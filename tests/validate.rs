use aegistrate::command::{Ban, Timeout};
use aegistrate::validate::{
    duration_in_range, duration_nanos, duration_secs, judge_date, judge_duration, zero_digits_string, CommandOption,
    InvalidOptionError, OptionValue, ValidatedOptions,
};

fn text(name: &str, value: &str) -> CommandOption {
    CommandOption { name: name.to_string(), value: OptionValue::String(value.to_string()) }
}

fn user(name: &str, id: u64, is_member: bool) -> CommandOption {
    CommandOption { name: name.to_string(), value: OptionValue::User { id, is_member } }
}

fn durations(names: &[&str]) -> ValidatedOptions {
    ValidatedOptions::builder()
        .durations(names.iter().map(|n| n.to_string()).collect())
        .build()
}

#[test]
fn twenty_nine_days_is_too_long() {
    let spec = durations(&["duration"]);
    assert_eq!(
        spec.validate(&[text("duration", "29d")]),
        Err(InvalidOptionError::DurationTooLong("29d".to_string()))
    );
}

#[test]
fn twenty_eight_days_is_allowed() {
    let spec = durations(&["duration"]);
    assert_eq!(spec.validate(&[text("duration", "28d")]), Ok(()));
    assert_eq!(spec.validate(&[text("duration", "1h + 30m")]), Ok(()));
}

#[test]
fn unreadable_duration_is_rejected() {
    let spec = durations(&["duration"]);
    assert_eq!(
        spec.validate(&[text("duration", "soon")]),
        Err(InvalidOptionError::NotDuration("soon".to_string()))
    );
    assert_eq!(
        spec.validate(&[CommandOption { name: "duration".to_string(), value: OptionValue::Integer(5) }]),
        Err(InvalidOptionError::NotDuration("not a string".to_string()))
    );
}

#[test]
fn enormous_duration_is_too_long_without_parsing() {
    assert!(!duration_in_range("99999999999999999999y"));
    assert!(!duration_in_range("600y"));
    assert!(duration_in_range("500y"));
    assert!(duration_in_range("1000ms"));
    let spec = durations(&["duration"]);
    assert_eq!(
        spec.validate(&[text("duration", "600y")]),
        Err(InvalidOptionError::DurationTooLong("600y".to_string()))
    );
}

#[test]
fn duration_spans() {
    assert_eq!(duration_nanos("1h"), Some(3_600_000_000_000));
    assert_eq!(duration_secs("30m"), Some(1800));
    assert_eq!(duration_secs("1m*10"), Some(600));
    assert_eq!(duration_secs("3m31"), Some(211));
    assert_eq!(duration_secs("later"), None);
}

#[test]
fn judged_durations() {
    let limit = 28 * 24 * 60 * 60 * 1_000_000_000u64;
    assert_eq!(judge_duration("x", true, Some(limit), true), None);
    assert_eq!(
        judge_duration("x", true, Some(limit + 1), true),
        Some(InvalidOptionError::DurationTooLong("x".to_string()))
    );
    assert_eq!(judge_duration("x", true, None, true), Some(InvalidOptionError::NotDuration("x".to_string())));
    assert_eq!(
        judge_duration("x", false, None, true),
        Some(InvalidOptionError::DurationTooLong("x".to_string()))
    );
    assert_eq!(
        judge_duration("x", false, None, false),
        Some(InvalidOptionError::NotDuration("x".to_string()))
    );
    assert_eq!(judge_date("x", true), None);
    assert_eq!(judge_date("x", false), Some(InvalidOptionError::NotDate("x".to_string())));
}

#[test]
fn large_counts_of_small_units_are_read_exactly() {
    let spec = durations(&["duration"]);
    assert!(duration_in_range("400000000ms"));
    assert_eq!(spec.validate(&[text("duration", "400000000ms")]), Ok(()));
    assert_eq!(spec.validate(&[text("duration", "2000000000ms")]), Ok(()));
    assert_eq!(spec.validate(&[text("duration", "20000000000ns")]), Ok(()));
    assert_eq!(spec.validate(&[text("duration", "20000000000US")]), Ok(()));
    assert_eq!(duration_secs("400000000ms"), Some(400_000));
    assert_eq!(duration_secs("2Mon"), Some(2 * 30 * 86_400));
}

#[test]
fn malformed_enormous_text_is_not_a_duration() {
    let spec = durations(&["duration"]);
    assert!(!duration_in_range("99999999999999999999x"));
    assert_eq!(
        spec.validate(&[text("duration", "99999999999999999999x")]),
        Err(InvalidOptionError::NotDuration("99999999999999999999x".to_string()))
    );
    assert_eq!(
        spec.validate(&[text("duration", "99999999999999999999ns")]),
        Err(InvalidOptionError::DurationTooLong("99999999999999999999ns".to_string()))
    );
    assert_eq!(zero_digits_string("1h30m+5s"), "0h00m+0s");
}

#[test]
fn dates_are_checked() {
    let spec = ValidatedOptions::builder().dates(vec!["on".to_string()]).build();
    assert_eq!(spec.validate_dates(&[text("on", "2023-01-15")]), Ok(()));
    assert_eq!(
        spec.validate_dates(&[text("on", "2023-13-45")]),
        Err(InvalidOptionError::NotDate("2023-13-45".to_string()))
    );
    assert_eq!(
        spec.validate_dates(&[text("on", "tomorrow")]),
        Err(InvalidOptionError::NotDate("tomorrow".to_string()))
    );
}

#[test]
fn members_must_belong_to_the_guild() {
    let ban = Ban.metadata();
    assert_eq!(ban.validated_options.validate(&[user("member", 5, true)]), Ok(()));
    assert_eq!(
        ban.validated_options.validate_guild_members(&[user("member", 5, false)]),
        Err(InvalidOptionError::NotGuildMember(5))
    );
}

#[test]
fn unlisted_and_absent_options_are_skipped() {
    let timeout = Timeout.metadata();
    assert_eq!(timeout.validated_options.validate(&[]), Ok(()));
    assert_eq!(timeout.validated_options.validate(&[text("reason", "29d"), user("other", 1, false)]), Ok(()));
}

#[test]
fn first_failure_in_kind_order() {
    let spec = ValidatedOptions::builder()
        .dates(vec!["on".to_string()])
        .durations(vec!["for".to_string()])
        .guild_members(vec!["who".to_string()])
        .build();
    let options = [user("who", 3, false), text("for", "nope"), text("on", "never")];
    assert_eq!(spec.validate(&options), Err(InvalidOptionError::NotDate("never".to_string())));
    let options = [user("who", 3, false), text("for", "nope"), text("on", "2020-02-29")];
    assert_eq!(spec.validate(&options), Err(InvalidOptionError::NotDuration("nope".to_string())));
    let options = [user("who", 3, false), text("for", "5m"), text("on", "2020-02-29")];
    assert_eq!(spec.validate(&options), Err(InvalidOptionError::NotGuildMember(3)));
}

#[test]
fn option_error_messages() {
    assert_eq!(InvalidOptionError::NotGuildMember(12).message(), "Not a member of the current guild: 12");
    assert_eq!(
        InvalidOptionError::DurationTooLong("29d".to_string()).message(),
        "Time duration is too long (more than 28 days): 29d"
    );
}
