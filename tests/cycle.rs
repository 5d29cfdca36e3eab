use index_count_tracking::detector::Detection;
use index_count_tracking::model::{AlertIndex, IndexConfig, LogIndexResult};
use index_count_tracking::monitor::{
    get_alert_infos_from_log_index, alarm_history_records, detect_abnormal_index_changes, next_phase, plan_sampling, MonitorEvent, MonitorPhase,
    SampleOutcome,
};

fn cfg(name: &str) -> IndexConfig {
    IndexConfig { index_name: name.to_string(), allowable_fluctuation_range: 3000, agg_term_sec: 60 }
}

#[test]
fn failing_index_does_not_stop_the_others() {
    let indices = vec![cfg("orders"), cfg("users"), cfg("items")];
    let ts = "2024-05-01T09:00:00Z".to_string();
    let counts = vec![Ok(120), Err("connection refused".to_string()), Ok(7)];
    let previous = vec![Some(100), Some(50), None];
    let out = plan_sampling(&indices, &counts, &previous, &ts);
    assert_eq!(out.len(), 3);
    match &out[0] {
        SampleOutcome::Persist(s) => {
            assert_eq!((s.index_name.as_str(), s.cnt, s.prev_cnt, s.cur_prev_diff), ("orders", 120, 100, 20));
            assert_eq!(s.timestamp, ts);
        },
        other => panic!("expected a sample, got {:?}", other),
    }
    match &out[1] {
        SampleOutcome::Skipped { index_name, reason } => {
            assert_eq!(index_name, "users");
            assert_eq!(reason, "connection refused");
        },
        other => panic!("expected a skip, got {:?}", other),
    }
    match &out[2] {
        SampleOutcome::Persist(s) => assert_eq!((s.cnt, s.prev_cnt, s.cur_prev_diff), (7, 0, 7)),
        other => panic!("expected a sample, got {:?}", other),
    }
    // the next cycle tries the failed index again
    let counts = vec![Ok(121), Ok(55), Ok(7)];
    let out = plan_sampling(&indices, &counts, &previous, &ts);
    assert!(out.iter().all(|o| matches!(o, SampleOutcome::Persist(_))));
}

fn result(name: &str, anomalous: bool, fluct: u64) -> LogIndexResult {
    let history = vec![AlertIndex::new(name.to_string(), 99, 0, "t".to_string())];
    LogIndexResult::from_detection(name.to_string(), Detection { fluctuation_hundredths: fluct, anomalous }, history)
}

#[test]
fn only_anomalies_are_kept_in_order() {
    let all = vec![result("a", true, 4000), result("b", false, 10), result("c", true, 5000)];
    let kept = detect_abnormal_index_changes(all);
    assert_eq!(kept.iter().map(|r| r.index_name.as_str()).collect::<Vec<_>>(), vec!["a", "c"]);
    assert!(kept.iter().all(|r| r.alert_index_format.is_some()));
    assert!(detect_abnormal_index_changes(vec![]).is_empty());
}

#[test]
fn one_audit_record_per_alert() {
    let kept = vec![result("a", true, 4000), result("c", true, 5000)];
    let ts = "2024-05-01T09:00:05Z".to_string();
    let recs = alarm_history_records(&kept, &ts);
    assert_eq!(recs.len(), 2);
    assert_eq!((recs[1].index_name.as_str(), recs[1].index_cnt, recs[1].fluctuation_val), ("c", 99, 5000));
    assert_eq!(recs[0].timestamp, ts);
}

#[test]
fn cycle_phases() {
    assert_eq!(next_phase(MonitorPhase::Idle, MonitorEvent::Tick), MonitorPhase::Sampling);
    assert_eq!(next_phase(MonitorPhase::Sampling, MonitorEvent::SamplingDone { failed: true }), MonitorPhase::Idle);
    assert_eq!(next_phase(MonitorPhase::Sampling, MonitorEvent::SamplingDone { failed: false }), MonitorPhase::Detecting);
    assert_eq!(next_phase(MonitorPhase::Detecting, MonitorEvent::Detected { anomalies: 0 }), MonitorPhase::Idle);
    assert_eq!(next_phase(MonitorPhase::Detecting, MonitorEvent::Detected { anomalies: 2 }), MonitorPhase::LoggingHistory);
    assert_eq!(next_phase(MonitorPhase::Detecting, MonitorEvent::DetectionFailed), MonitorPhase::Idle);
    assert_eq!(next_phase(MonitorPhase::LoggingHistory, MonitorEvent::HistoryLogged), MonitorPhase::Alerting);
    assert_eq!(next_phase(MonitorPhase::Alerting, MonitorEvent::AlertSent), MonitorPhase::Idle);
    assert_eq!(next_phase(MonitorPhase::Sampling, MonitorEvent::AlertSent), MonitorPhase::Sampling);
}

#[test]
fn evaluation_keeps_history_only_for_alerts() {
    let h = vec![AlertIndex::new("orders".to_string(), 150, 140, "t2".to_string())];
    let r = get_alert_infos_from_log_index(&cfg("orders"), 100, 150, h);
    assert!(r.alert_yn);
    assert_eq!((r.fluctuation_val, r.cur_cnt), (4000, 150));
    assert_eq!(r.alert_index_format.map(|v| v.len()), Some(1));
    let h = vec![AlertIndex::new("orders".to_string(), 110, 100, "t2".to_string())];
    let r = get_alert_infos_from_log_index(&cfg("orders"), 100, 110, h);
    assert!(!r.alert_yn);
    assert_eq!((r.fluctuation_val, r.cur_cnt), (952, 0));
    assert!(r.alert_index_format.is_none());
}

#[test]
fn failed_evaluation_is_skipped() {
    let evaluations = vec![
        Ok(result("a", true, 4000)),
        Err("timeout".to_string()),
        Ok(result("c", false, 10)),
        Ok(result("d", true, 3100)),
    ];
    let kept = index_count_tracking::monitor::collect_alerts(evaluations);
    assert_eq!(kept.iter().map(|r| r.index_name.as_str()).collect::<Vec<_>>(), vec!["a", "d"]);
    assert!(index_count_tracking::monitor::collect_alerts(vec![Err("x".to_string())]).is_empty());
}
