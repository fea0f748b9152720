use runtrue_persistence::cron::{
    civil_date_from_unix_days_pg, cron_field_matches_pg, cron_matches_unix_ms_pg, next_fire_pg,
    previous_fire_pg, valid_cron_field_pg, validate_cron_pg,
};
use runtrue_persistence::error::ControlPlaneError;
use runtrue_persistence::schedule::{
    plan_cursor_write, CursorWrite,
    parse_catch_up_policy, reconcile_schedule_cursor, validate_schedule_cursor, CatchUpPolicy,
    ScheduleTriggerCursor,
};

const JAN_1_2024: u64 = 1_704_067_200_000;
const HOUR: u64 = 3_600_000;
const MINUTE: u64 = 60_000;

#[test]
fn cron_fields_follow_the_numeric_grammar() {
    assert!(valid_cron_field_pg("*", 0, 59));
    assert!(valid_cron_field_pg("*/15", 0, 59));
    assert!(valid_cron_field_pg("1,5,10-20/2", 0, 59));
    assert!(!valid_cron_field_pg("60", 0, 59));
    assert!(!valid_cron_field_pg("*/0", 0, 59));
    assert!(!valid_cron_field_pg("20-10", 0, 59));
    assert!(!valid_cron_field_pg("MON", 0, 6));
    assert!(!valid_cron_field_pg("", 0, 59));
    assert!(cron_field_matches_pg("*/15", 45, 0, 59));
    assert!(!cron_field_matches_pg("*/15", 46, 0, 59));
    assert!(cron_field_matches_pg("10-20/5", 15, 0, 59));
    assert!(!cron_field_matches_pg("10-20/5", 16, 0, 59));
    assert!(cron_field_matches_pg("1,3", 3, 0, 59));
}

#[test]
fn cron_expressions_are_validated() {
    assert_eq!(validate_cron_pg("0 * * * *"), Ok(()));
    assert_eq!(validate_cron_pg("  5  4 1 1 0 "), Ok(()));
    assert_eq!(
        validate_cron_pg("0 * * *"),
        Err(ControlPlaneError::InvalidInput(
            "schedule cron must be a five-field UTC numeric expression"
        ))
    );
    assert_eq!(
        validate_cron_pg(&"1 ".repeat(65)),
        Err(ControlPlaneError::InvalidInput("UTC cron is too long"))
    );
}

#[test]
fn civil_dates_from_days() {
    assert_eq!(civil_date_from_unix_days_pg(0), Ok((1, 1)));
    assert_eq!(civil_date_from_unix_days_pg(19_723), Ok((1, 1)));
    assert_eq!(civil_date_from_unix_days_pg(19_782), Ok((2, 29)));
    assert_eq!(civil_date_from_unix_days_pg(19_783), Ok((3, 1)));
    assert_eq!(civil_date_from_unix_days_pg(11_016), Ok((2, 29)));
}

#[test]
fn cron_matches_minutes() {
    assert_eq!(cron_matches_unix_ms_pg("0 0 1 1 *", JAN_1_2024), Ok(true));
    assert_eq!(cron_matches_unix_ms_pg("0 0 1 1 *", JAN_1_2024 + MINUTE), Ok(false));
    // 2024-01-01 is a Monday
    assert_eq!(cron_matches_unix_ms_pg("0 0 * * 1", JAN_1_2024 + 59_999), Ok(true));
    assert_eq!(cron_matches_unix_ms_pg("0 0 * * 2", JAN_1_2024), Ok(false));
    // both day fields restricted: either one matches
    assert_eq!(cron_matches_unix_ms_pg("0 0 13 * 1", JAN_1_2024), Ok(true));
    assert!(cron_matches_unix_ms_pg("x", JAN_1_2024).is_err());
}

#[test]
fn next_and_previous_fires() {
    assert_eq!(next_fire_pg("0 * * * *", JAN_1_2024), Ok(JAN_1_2024 + HOUR));
    assert_eq!(next_fire_pg("*/15 * * * *", JAN_1_2024), Ok(JAN_1_2024 + 15 * MINUTE));
    assert_eq!(next_fire_pg("0 9 * * 1", JAN_1_2024), Ok(JAN_1_2024 + 9 * HOUR));
    assert_eq!(next_fire_pg("30 12 29 2 *", JAN_1_2024), Ok(1_709_209_800_000));
    assert_eq!(next_fire_pg("0 0 13 * 5", JAN_1_2024), Ok(1_704_412_800_000));
    assert_eq!(previous_fire_pg("0 0 * * *", JAN_1_2024 + HOUR), Ok(JAN_1_2024));
    assert_eq!(previous_fire_pg("0 0 * * *", JAN_1_2024), Ok(JAN_1_2024));
    assert_eq!(
        next_fire_pg("0 0 31 2 *", JAN_1_2024),
        Err(ControlPlaneError::InvalidInput(
            "UTC cron has no fire within the bounded search horizon"
        ))
    );
    assert_eq!(
        previous_fire_pg("0 0 1 1 *", 0),
        Ok(0)
    );
    assert_eq!(
        previous_fire_pg("5 0 1 1 *", 0),
        Err(ControlPlaneError::InvalidInput(
            "UTC cron has no prior fire within the bounded search horizon"
        ))
    );
}

fn cursor(policy: &str, maximum: u64) -> ScheduleTriggerCursor {
    ScheduleTriggerCursor {
        tenant_id: "tenant".into(),
        repository_id: "repository".into(),
        workflow_identity: "nightly.yml".into(),
        schedule_key: "hourly".into(),
        cron_utc: "0 * * * *".into(),
        catch_up_policy: policy.into(),
        maximum_catch_up: maximum,
        next_fire_unix_ms: JAN_1_2024 + HOUR,
        last_fire_unix_ms: Some(JAN_1_2024),
        version: 1,
        updated_unix_ms: JAN_1_2024,
    }
}

#[test]
fn schedule_cursors_are_validated() {
    assert_eq!(validate_schedule_cursor(&cursor("skip", 0)), Ok(()));
    assert_eq!(parse_catch_up_policy("all-bounded"), Some(CatchUpPolicy::AllBounded));
    assert_eq!(parse_catch_up_policy("never"), None);
    let bounds = Err(ControlPlaneError::InvalidInput("invalid durable schedule cursor bounds"));
    assert_eq!(validate_schedule_cursor(&cursor("never", 0)), bounds);
    assert_eq!(validate_schedule_cursor(&cursor("all-bounded", 0)), bounds);
    assert_eq!(validate_schedule_cursor(&cursor("latest", 101)), bounds);
    let mut behind = cursor("skip", 0);
    behind.last_fire_unix_ms = Some(behind.next_fire_unix_ms);
    assert_eq!(validate_schedule_cursor(&behind), bounds);
}

#[test]
fn catch_up_policies_emit_their_fires() {
    let now = JAN_1_2024 + 4 * HOUR + 10 * MINUTE;
    let skip = reconcile_schedule_cursor(&cursor("skip", 0), now).unwrap();
    assert_eq!(skip.fires, Vec::<u64>::new());
    assert_eq!(skip.next_fire_unix_ms, JAN_1_2024 + 5 * HOUR);
    assert_eq!(skip.last_fire_unix_ms, Some(JAN_1_2024));
    let latest = reconcile_schedule_cursor(&cursor("latest", 0), now).unwrap();
    assert_eq!(latest.fires, vec![JAN_1_2024 + 4 * HOUR]);
    assert_eq!(latest.next_fire_unix_ms, JAN_1_2024 + 5 * HOUR);
    assert_eq!(latest.last_fire_unix_ms, Some(JAN_1_2024 + 4 * HOUR));
    let bounded = reconcile_schedule_cursor(&cursor("all-bounded", 3), now).unwrap();
    assert_eq!(
        bounded.fires,
        vec![JAN_1_2024 + HOUR, JAN_1_2024 + 2 * HOUR, JAN_1_2024 + 3 * HOUR]
    );
    assert_eq!(bounded.next_fire_unix_ms, JAN_1_2024 + 4 * HOUR);
    let all = reconcile_schedule_cursor(&cursor("all-bounded", 100), now).unwrap();
    assert_eq!(all.fires.len(), 4);
    assert_eq!(all.next_fire_unix_ms, JAN_1_2024 + 5 * HOUR);
    let mut off = cursor("skip", 0);
    off.next_fire_unix_ms += MINUTE;
    assert_eq!(
        reconcile_schedule_cursor(&off, now),
        Err(ControlPlaneError::CorruptState(
            "durable schedule cursor is not on its UTC cron"
        ))
    );
}

#[test]
fn cursor_writes_advance_versions() {
    let mut c = cursor("skip", 0);
    c.version = 1;
    assert_eq!(plan_cursor_write(&c, None), Ok(CursorWrite::Insert));
    c.version = 2;
    assert_eq!(plan_cursor_write(&c, None), Err(ControlPlaneError::IdempotencyConflict));
    assert_eq!(plan_cursor_write(&c, Some(1)), Ok(CursorWrite::Update { expected: 1 }));
    assert_eq!(plan_cursor_write(&c, Some(2)), Err(ControlPlaneError::IdempotencyConflict));
    c.next_fire_unix_ms = u64::MAX;
    assert_eq!(
        plan_cursor_write(&c, Some(1)),
        Err(ControlPlaneError::IntegerRange { field: "next fire" })
    );
}
