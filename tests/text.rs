use aegistrate::duration::SimpleDuration;
use aegistrate::report::{create_error_embed, EmbedKind};
use aegistrate::text::{
    append_date_helptext, append_duration_helptext, decimal_string, mention, yes_no, yes_no_eval, yes_no_str,
};

#[test]
fn decimal_rendering() {
    assert_eq!(decimal_string(0), "0");
    assert_eq!(decimal_string(1_203), "1203");
    assert_eq!(decimal_string(u64::MAX), "18446744073709551615");
    assert_eq!(mention(42), "<@42>");
}

#[test]
fn ternaries() {
    assert_eq!(yes_no(true, 1, 2), 1);
    assert_eq!(yes_no(false, 1, 2), 2);
    assert_eq!(yes_no_eval(false, || "a", || "b"), "b");
    assert_eq!(yes_no_str(true, None, None), "Yes");
    assert_eq!(yes_no_str(false, None, None), "No");
    assert_eq!(yes_no_str(false, None, Some("Nope")), "Nope");
}

#[test]
fn help_texts() {
    assert_eq!(
        append_duration_helptext("How long."),
        "How long. For example: 1d, 2h, 3m, 4s, 1h + 30m, etc. Spaces in between the duration and the unit \
         are optional. Duration must not be more than 28 days from now."
    );
    assert_eq!(
        append_date_helptext("When."),
        "When. Format: YYYY-MM-DD. For example: 1234-56-78, 1970-01-01, etc. Date must be valid."
    );
}

#[test]
fn human_durations() {
    assert_eq!(SimpleDuration::Hours(3).human_fmt(), "3 hours");
    assert_eq!(SimpleDuration::Months(0).human_fmt(), "0 months");
    assert_eq!(SimpleDuration::Seconds(90).human_fmt(), "90 seconds");
}

#[test]
fn error_reports() {
    let r = create_error_embed("boom".to_string(), "why".to_string(), Some("try again".to_string()));
    assert_eq!(r.kind, EmbedKind::Error);
    assert_eq!(r.title, "Error!");
    assert_eq!(r.description, "boom");
    assert_eq!(r.fields.len(), 2);
    assert_eq!(r.fields[1].name, "Hint");
    assert_eq!(EmbedKind::Warn.get_color(), 0xFE_E7_5C);
}
