use index_count_tracking::scheduler::{get_days, ReportConfig, ReportScheduler, ReportType, SchedulerAction};
use index_count_tracking::time::{
    calc_struct_to_strkor, calc_time_window, convert_data_to_str_human, convert_date_to_str, convert_local_from_utc,
    convert_utc_from_local, convert_utc_from_str, minus_h, TimeError, UtcTime,
};
use index_count_tracking::report::report_window;

const NOW: i64 = 1714554000; // 2024-05-01T09:00:00Z

#[test]
fn disabled_week_report_never_fires() {
    for expr in ["0 0 9 * * Mon", "not a cron expression", ""] {
        let cfg = ReportConfig { enabled: false, cron_schedule: expr.to_string() };
        let s = ReportScheduler::start(&cfg).expect("a disabled cadence always starts");
        for now in [0i64, NOW, NOW + 86400 * 7] {
            assert_eq!(s.next_action(now), SchedulerAction::Park);
            assert_eq!(s.decide(now, Some(now + 10)), SchedulerAction::Park);
        }
    }
}

#[test]
fn invalid_cron_of_enabled_cadence_is_fatal() {
    let cfg = ReportConfig { enabled: true, cron_schedule: "every day".to_string() };
    assert!(ReportScheduler::start(&cfg).is_err());
}

#[test]
fn enabled_cadence_sleeps_until_a_later_instant() {
    let cfg = ReportConfig::default();
    assert!(cfg.enabled);
    assert_eq!(cfg.cron_schedule, "0 0 9 * * *");
    let s = ReportScheduler::start(&cfg).expect("valid cron");
    match s.next_action(NOW) {
        SchedulerAction::SleepUntil(t) => {
            assert!(t > NOW);
            assert!(t <= NOW + 86400 + 3600);
        },
        other => panic!("expected a firing instant, got {:?}", other),
    }
}

#[test]
fn decide_covers_every_case() {
    let s = ReportScheduler::start(&ReportConfig::default()).expect("valid cron");
    assert_eq!(s.decide(NOW, Some(NOW + 5)), SchedulerAction::SleepUntil(NOW + 5));
    assert_eq!(s.decide(NOW, Some(NOW)), SchedulerAction::Recompute);
    assert_eq!(s.decide(NOW, None), SchedulerAction::Exhausted);
}

#[test]
fn cadence_lengths() {
    assert_eq!(get_days(ReportType::Day), 1);
    assert_eq!(get_days(ReportType::Week), 7);
    assert_eq!(get_days(ReportType::Month), 30);
    assert_eq!(get_days(ReportType::Year), 365);
    let end = UtcTime { secs: NOW };
    assert_eq!(report_window(end, ReportType::Week).secs, NOW - 7 * 86400);
}

#[test]
fn utc_text_round_trip() {
    let t = convert_utc_from_str("2024-05-01T09:00:00Z").expect("valid instant");
    assert_eq!(t.secs, NOW);
    assert_eq!(convert_date_to_str(t, 0), "2024-05-01T09:00:00Z");
    assert_eq!(convert_data_to_str_human(t, 0), "2024.05.01 09:00:00");
    assert_eq!(convert_date_to_str(t, 9 * 3600), "2024-05-01T18:00:00Z");
    assert_eq!(convert_utc_from_str("2024-05-01T18:00:00+09:00").map(|x| x.secs), Ok(NOW));
}

#[test]
fn bad_instants_are_rejected() {
    assert_eq!(convert_utc_from_str("yesterday"), Err(TimeError::Unparsable));
    assert_eq!(convert_utc_from_str("+12000-01-01T00:00:00Z"), Err(TimeError::OutOfRange));
    assert_eq!(calc_struct_to_strkor("+12000-01-01T00:00:00Z"), Err(TimeError::OutOfRange));
    assert_eq!(calc_struct_to_strkor("nope"), Err(TimeError::Unparsable));
    let local = calc_struct_to_strkor("2024-05-01T09:00:00Z").expect("valid instant");
    assert_eq!(local.len(), 20);
    assert!(local.ends_with('Z'));
}

#[test]
fn window_arithmetic() {
    let t = UtcTime { secs: NOW };
    assert_eq!(calc_time_window(t, 60).secs, NOW - 60);
    assert_eq!(minus_h(t, 24).secs, NOW - 86400);
    let local = convert_local_from_utc(t);
    assert_eq!(convert_utc_from_local(local), t);
    assert!(local.offset_secs.abs() < 86400);
}

#[test]
fn first_and_last_days_of_the_calendar() {
    let first = convert_utc_from_str("0001-01-01T00:00:00Z").expect("year 1 is handled");
    assert_eq!(first.secs, -62135596800);
    assert_eq!(convert_date_to_str(first, 0), "0001-01-01T00:00:00Z");
    let last = convert_utc_from_str("9999-12-31T23:59:59Z").expect("year 9999 is handled");
    assert_eq!(last.secs, 253402300799);
    assert_eq!(convert_date_to_str(last, 0), "9999-12-31T23:59:59Z");
    assert!(calc_struct_to_strkor("0001-01-01T00:00:00Z").is_ok());
    assert!(calc_struct_to_strkor("9999-12-31T23:59:59Z").is_ok());
}

#[test]
fn valid_cron_of_enabled_cadence_starts() {
    let cfg = ReportConfig { enabled: true, cron_schedule: "0 30 8 * * Mon".to_string() };
    assert!(matches!(ReportScheduler::start(&cfg), Ok(ReportScheduler::Enabled(_))));
}
