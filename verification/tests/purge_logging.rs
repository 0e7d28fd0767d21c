use colhidor::logging::{contains_text, log_to_file, start_log_session, ComponentErrorLog, SESSION_MARKER};
use colhidor::purge::{
    get_timestamp_oclock, hourly_event_timestamp, hours_before, keep_top_per_bucket, log_step,
    migration_plan, next_oclock, process_buckets_query, timestamp_oclock, total_bucket_start, total_buckets_query, MigrationPlan, HOUR_MS, TOP_PROCESSES_PER_BUCKET,
};

#[test]
fn next_oclock_moves_to_the_following_hour() {
    assert_eq!(next_oclock(0), HOUR_MS);
    assert_eq!(next_oclock(1), HOUR_MS);
    assert_eq!(next_oclock(HOUR_MS - 1), HOUR_MS);
    assert_eq!(next_oclock(HOUR_MS), 2 * HOUR_MS);
    assert_eq!(next_oclock(1_700_000_123_456), 1_700_002_800_000);
}

#[test]
fn timestamp_oclock_floors_to_the_hour() {
    assert_eq!(timestamp_oclock(1_700_000_123_456), 1_699_999_200_000);
    assert_eq!(timestamp_oclock(HOUR_MS), HOUR_MS);
    assert_eq!(timestamp_oclock(0), 0);
    assert_eq!(get_timestamp_oclock() % HOUR_MS, 0);
}

#[test]
fn hours_before_and_hourly_timestamps() {
    assert_eq!(hours_before(10 * HOUR_MS, 3), 7 * HOUR_MS);
    assert_eq!(hours_before(HOUR_MS, 2), -HOUR_MS);
    assert_eq!(hourly_event_timestamp(5 * HOUR_MS + 17, 5 * HOUR_MS + 17), 5 * HOUR_MS);
    assert_eq!(hourly_event_timestamp(6 * HOUR_MS, 5 * HOUR_MS + 17), 6 * HOUR_MS);
}

#[test]
fn keep_top_per_bucket_groups_and_limits() {
    let rows = vec![(1, 'a'), (1, 'b'), (1, 'c'), (2, 'd'), (3, 'e'), (3, 'f')];
    let buckets = keep_top_per_bucket(rows, 2);
    assert_eq!(buckets, vec![(1, vec!['a', 'b']), (2, vec!['d']), (3, vec!['e', 'f'])]);
    let none = keep_top_per_bucket(vec![(1, 'a'), (2, 'b')], 0);
    assert_eq!(none, vec![(1, vec![]), (2, vec![])]);
    let many: Vec<(i64, u32)> = (0..25).map(|i| (7, i)).collect();
    let kept = keep_top_per_bucket(many, TOP_PROCESSES_PER_BUCKET);
    assert_eq!(kept.len(), 1);
    assert_eq!(kept[0].1, (0..10).collect::<Vec<u32>>());
    assert!(keep_top_per_bucket(Vec::<(i64, u8)>::new(), 3).is_empty());
}

#[test]
fn purge_step_messages() {
    assert_eq!(log_step("Purge", Ok(())), None);
    assert_eq!(log_step("Purge", Err("disk full".to_string())), Some("✗ Purge failed: disk full".to_string()));
}

#[test]
fn migration_plans() {
    assert_eq!(migration_plan(0), MigrationPlan { migrate: true, v1_to_v2: true });
    assert_eq!(migration_plan(1), MigrationPlan { migrate: true, v1_to_v2: true });
    assert_eq!(migration_plan(2), MigrationPlan { migrate: false, v1_to_v2: false });
    assert_eq!(migration_plan(5), MigrationPlan { migrate: false, v1_to_v2: false });
}

#[test]
fn log_line_format() {
    assert_eq!(log_to_file("2024-01-02 03:04:05", "hello"), "[2024-01-02 03:04:05] hello");
}

#[test]
fn contains_text_agrees_with_str_contains() {
    for (hay, needle) in [("abc", ""), ("abc", "b"), ("abc", "abcd"), ("", "a"), ("héllo", "él"), ("x >>> session start <<< y", SESSION_MARKER)] {
        assert_eq!(contains_text(hay, needle), hay.contains(needle));
    }
}

#[test]
fn session_trim_keeps_the_last_two_sessions() {
    let marker = format!("[t] {}", SESSION_MARKER);
    let lines: Vec<String> = vec![
        marker.clone(),
        "one".to_string(),
        marker.clone(),
        "two".to_string(),
        marker.clone(),
        "three".to_string(),
    ];
    assert_eq!(start_log_session(&lines), Some(format!("{m}\ntwo\n{m}\nthree\n", m = marker)));
    let single = vec![marker.clone(), "only".to_string()];
    assert_eq!(start_log_session(&single), None);
    assert_eq!(start_log_session(&Vec::new()), None);
}

#[test]
fn component_errors_are_logged_three_times() {
    let mut log = ComponentErrorLog::new();
    assert_eq!(log.log_component_error("CPU", "read failed"), Some("✗ [CPU] read failed (2 log(s) remaining)".to_string()));
    assert_eq!(log.log_component_error("CPU", "read failed"), Some("✗ [CPU] read failed (1 log(s) remaining)".to_string()));
    assert_eq!(log.log_component_error("GPU", "gone"), Some("✗ [GPU] gone (2 log(s) remaining)".to_string()));
    assert_eq!(log.log_component_error("CPU", "read failed"), Some("✗ [CPU] read failed (further errors suppressed)".to_string()));
    assert_eq!(log.log_component_error("CPU", "read failed"), None);
    assert_eq!(log.log_component_error("CPU", "other"), None);
    assert!(log.log_component_error("GPU", "gone").is_some());
}

#[test]
fn total_buckets_follow_the_first_sample_then_the_hours() {
    let first = 5 * HOUR_MS + 1_234;
    let end = next_oclock(first);
    assert_eq!(end, 6 * HOUR_MS);
    assert_eq!(total_bucket_start(first, first, end), first);
    assert_eq!(total_bucket_start(6 * HOUR_MS - 1, first, end), first);
    assert_eq!(total_bucket_start(6 * HOUR_MS, first, end), 6 * HOUR_MS);
    assert_eq!(total_bucket_start(7 * HOUR_MS + 59, first, end), 7 * HOUR_MS);
    assert!(total_buckets_query().contains("GROUP BY bucket_start ORDER BY bucket_start"));
    assert!(process_buckets_query().contains("ORDER BY bucket_start, process_energy_uj DESC"));
}
