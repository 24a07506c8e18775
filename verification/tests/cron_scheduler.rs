use chrono::{DateTime, Duration as ChronoDuration, Local};
use runtime::cron_scheduler::{
    cron_field_count, due_at, due_job_events, is_due, job_fires, last_run_secs, parse_cron_schedule, triggered_events, CronEntry,
    CronSchedulerEvent, SchedulerState, Timestamp,
};

fn instant(t: &DateTime<Local>) -> Timestamp {
    Timestamp { secs: t.timestamp(), nanos: t.timestamp_subsec_nanos() }
}

fn entry(id: &str, schedule: &str, enabled: bool, last: Option<u64>) -> CronEntry {
    CronEntry { cron_id: id.into(), schedule: schedule.into(), prompt: format!("run {}", id), enabled, last_run_at: last }
}

#[test]
fn scheduler_starts_and_stops() {
    let mut scheduler = SchedulerState::new();
    assert!(!scheduler.is_running());

    assert!(scheduler.start().is_ok());
    assert!(scheduler.is_running());

    // Starting again should fail
    assert!(scheduler.start().is_err());

    assert!(scheduler.stop().is_ok());
    assert!(!scheduler.is_running());

    // Stopping again should fail
    assert!(scheduler.stop().is_err());
}

#[test]
fn scheduler_error_texts() {
    let mut scheduler = SchedulerState::new();
    assert_eq!(scheduler.stop(), Err("Scheduler is not running".to_string()));
    scheduler.start().unwrap();
    assert_eq!(scheduler.start(), Err("Scheduler is already running".to_string()));
}

#[test]
fn due_at_compares_instants() {
    let now = Timestamp { secs: 100, nanos: 500 };
    assert!(due_at(Some(Timestamp { secs: 99, nanos: 999 }), now));
    assert!(due_at(Some(Timestamp { secs: 100, nanos: 500 }), now));
    assert!(!due_at(Some(Timestamp { secs: 100, nanos: 501 }), now));
    assert!(!due_at(None, now));
}

#[test]
fn triggered_events_follow_flags() {
    let entries = vec![entry("a", "x", true, None), entry("b", "y", true, None), entry("c", "z", true, None)];
    let events = triggered_events(&entries, &vec![true, false, true]);
    let ids: Vec<String> = events
        .iter()
        .map(|e| match e {
            CronSchedulerEvent::JobTriggered { cron_id, .. } => cron_id.clone(),
            _ => panic!("unexpected event"),
        })
        .collect();
    assert_eq!(ids, vec!["a".to_string(), "c".to_string()]);
}

#[test]
fn disabled_and_invalid_jobs_never_fire() {
    let now = Timestamp { secs: i64::MAX / 2, nanos: 0 };
    let entries = vec![
        entry("off", "* * * * * *", false, None),
        entry("bad", "not a cron", true, None),
        entry("short", "* * *", true, None),
    ];
    assert!(due_job_events(&entries, now).is_empty());
}

#[test]
fn every_second_job_fires_once_due() {
    // a six-field schedule that fires every second
    let now = Timestamp { secs: 4_000_000_000, nanos: 0 };
    let entries = vec![entry("tick", "* * * * * *", true, Some(1_700_000_000))];
    let events = due_job_events(&entries, now);
    assert_eq!(events.len(), 1);
    match &events[0] {
        CronSchedulerEvent::JobTriggered { cron_id, schedule, prompt } => {
            assert_eq!(cron_id, "tick");
            assert_eq!(schedule, "* * * * * *");
            assert_eq!(prompt, "run tick");
        },
        _ => panic!("unexpected event"),
    }
}

#[test]
fn job_not_due_before_its_time() {
    let schedule: cron::Schedule = "0 0 0 1 1 * 2099".parse().unwrap();
    let now = Timestamp { secs: 1_700_000_000, nanos: 0 };
    assert!(!is_due(&schedule, now, Some(1_699_999_000)));
}

#[test]
fn never_run_job_counts_from_the_epoch() {
    let every_second: cron::Schedule = "* * * * * *".parse().unwrap();
    let far_future = Timestamp { secs: 4_000_000_000, nanos: 0 };
    assert!(is_due(&every_second, far_future, None));
    let long_ago = Timestamp { secs: 0, nanos: 0 };
    assert!(!is_due(&every_second, long_ago, None));
}

#[test]
fn parses_valid_cron_schedules() {
    // Every minute
    assert!(parse_cron_schedule("* * * * *").is_ok());
    // Every hour
    assert!(parse_cron_schedule("0 * * * *").is_ok());
    // Every day at midnight
    assert!(parse_cron_schedule("0 0 * * *").is_ok());
}

#[test]
fn rejects_invalid_cron_schedules() {
    assert!(parse_cron_schedule("not a cron").is_err());
    assert!(parse_cron_schedule("* * *").is_err()); // Too few fields
}

#[test]
fn is_due_never_run_with_past_time() {
    let schedule = parse_cron_schedule("* * * * *").unwrap();
    let now = Local::now();
    // Never run, and next time is in the past (every minute schedule)
    assert!(is_due(&schedule, instant(&now), None));
}

#[test]
fn is_due_after_last_run() {
    let schedule = parse_cron_schedule("* * * * *").unwrap();
    let now = Local::now();
    let two_hours_ago = (now - ChronoDuration::hours(2)).timestamp() as u64;
    // Last run was 2 hours ago, should be due now
    assert!(is_due(&schedule, instant(&now), Some(two_hours_ago)));
}

#[test]
fn is_due_not_yet_time() {
    let schedule = parse_cron_schedule("0 0 1 1 *").unwrap(); // Jan 1 midnight
    let now = Local::now();
    let one_hour_ago = (now - ChronoDuration::hours(1)).timestamp() as u64;
    // Last run was 1 hour ago, next run is far in future
    assert!(!is_due(&schedule, instant(&now), Some(one_hour_ago)));
}

#[test]
fn five_field_expressions_get_a_seconds_field() {
    assert_eq!(cron_field_count("* * * * *"), 5);
    assert_eq!(cron_field_count("  0\t0 *  * *\n"), 5);
    assert_eq!(cron_field_count("@hourly"), 1);
    assert_eq!(cron_field_count(""), 0);
    let five = parse_cron_schedule("30 4 * * *").unwrap();
    let six: cron::Schedule = "0 30 4 * * *".parse().unwrap();
    assert_eq!(five.to_string(), "0 30 4 * * *");
    assert_eq!(six.to_string(), "0 30 4 * * *");
    // Six fields are read as they stand, seconds first.
    assert_eq!(parse_cron_schedule("15 30 4 * * *").unwrap().to_string(), "15 30 4 * * *");
    assert!(parse_cron_schedule("@daily").is_ok());
}

#[test]
fn last_run_outside_the_scheduled_years_is_never_due() {
    let every_second = parse_cron_schedule("* * * * * *").unwrap();
    let far_future = Timestamp { secs: 4_000_000_000, nanos: 0 };
    // 2101-01-03 UTC and later: no year that cron schedules follows.
    assert!(!is_due(&every_second, far_future, Some(4_134_153_600)));
    assert!(!is_due(&every_second, far_future, Some(8_210_266_876_799)));
    assert!(!is_due(&every_second, far_future, Some(1u64 << 63)));
    // A last run just before the epoch, read as a negative number, is still asked about.
    assert!(is_due(&every_second, far_future, Some(u64::MAX)));
}

#[test]
fn last_run_seconds_by_range() {
    assert_eq!(last_run_secs(None), Some(0));
    assert_eq!(last_run_secs(Some(1_700_000_000)), Some(1_700_000_000));
    assert_eq!(last_run_secs(Some(4_134_153_599)), Some(4_134_153_599));
    assert_eq!(last_run_secs(Some(4_134_153_600)), None);
    assert_eq!(last_run_secs(Some(1u64 << 63)), None);
    assert_eq!(last_run_secs(Some(u64::MAX)), Some(-1));
    assert_eq!(last_run_secs(Some(u64::MAX - (1u64 << 40) + 2)), Some(-(1i64 << 40) + 1));
    assert_eq!(last_run_secs(Some(u64::MAX - (1u64 << 40) + 1)), None);
}

#[test]
fn job_fires_decisions() {
    let now = Timestamp { secs: 1_000, nanos: 0 };
    let before = Some(Timestamp { secs: 999, nanos: 0 });
    let after = Some(Timestamp { secs: 1_001, nanos: 0 });
    let on = entry("a", "* * * * *", true, Some(500));
    assert!(job_fires(&on, true, before, now));
    assert!(!job_fires(&on, true, after, now));
    assert!(!job_fires(&on, true, None, now));
    assert!(!job_fires(&on, false, before, now));
    assert!(!job_fires(&entry("b", "* * * * *", false, Some(500)), true, before, now));
    assert!(!job_fires(&entry("c", "* * * * *", true, Some(1u64 << 62)), true, before, now));
    assert!(job_fires(&entry("d", "* * * * *", true, None), true, before, now));
}
