use aegistrate::cooldown::{cooled_down, get_remaining_cooldown, use_last, user_cmd_key_str};

#[test]
fn remaining_counts_down_then_stops() {
    assert_eq!(get_remaining_cooldown(1_003, Some(1_000), 10), 7);
    assert_eq!(get_remaining_cooldown(1_010, Some(1_000), 10), 0);
    assert_eq!(get_remaining_cooldown(1_015, Some(1_000), 10), 0);
    assert_eq!(get_remaining_cooldown(1_000, Some(1_000), 0), 0);
}

#[test]
fn no_record_means_ready() {
    assert_eq!(get_remaining_cooldown(5, None, 10), 0);
    assert!(cooled_down(5, None, 10));
}

#[test]
fn future_record_waits_the_whole_cooldown() {
    assert_eq!(get_remaining_cooldown(100, Some(200), 10), 10);
    assert!(!cooled_down(100, Some(200), 10));
}

#[test]
fn cooldown_keys() {
    assert_eq!(user_cmd_key_str(42, "ban"), "42:ban");
    assert_eq!(user_cmd_key_str(0, "ping"), "0:ping");
    let record = use_last(18_446_744_073_709_551_615, "kick", 1_700_000_000);
    assert_eq!(record.name_and_user, "18446744073709551615:kick");
    assert_eq!(record.timestamp, 1_700_000_000);
}
