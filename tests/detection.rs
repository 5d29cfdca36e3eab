use index_count_tracking::detector::detect;
use index_count_tracking::model::{AlertIndex, IndexConfig, LogIndexResult};
use index_count_tracking::monitor::evaluate_window;
use index_count_tracking::text::{decimal_text, hundredths_text, quoted_text};

fn orders_config() -> IndexConfig {
    IndexConfig { index_name: "orders".to_string(), allowable_fluctuation_range: 3000, agg_term_sec: 60 }
}

fn sample(cnt: u64, ts: &str) -> AlertIndex {
    AlertIndex::new("orders".to_string(), cnt, 0, ts.to_string())
}

#[test]
fn orders_window_over_threshold_alerts() {
    let cfg = orders_config();
    let d = evaluate_window(&cfg, 100, 150);
    assert_eq!(d.fluctuation_hundredths, 4000);
    assert!(d.anomalous);
    let history = vec![sample(150, "2024-05-01T09:01:00Z"), sample(100, "2024-05-01T09:00:10Z")];
    let r = LogIndexResult::from_detection(cfg.index_name.clone(), d, history);
    assert!(r.alert_yn);
    assert_eq!(hundredths_text(r.fluctuation_val), "40.00");
    let h = r.alert_index_format.expect("history present");
    assert_eq!(h.len(), 2);
    assert_eq!(h[0].timestamp, "2024-05-01T09:01:00Z");
    assert_eq!(h[1].timestamp, "2024-05-01T09:00:10Z");
    assert_eq!(r.cur_cnt, 150);
}

#[test]
fn orders_window_under_threshold_is_quiet() {
    let cfg = orders_config();
    let d = evaluate_window(&cfg, 100, 110);
    assert_eq!(d.fluctuation_hundredths, 952);
    assert_eq!(hundredths_text(d.fluctuation_hundredths), "9.52");
    assert!(!d.anomalous);
    let r = LogIndexResult::from_detection(cfg.index_name.clone(), d, vec![sample(110, "t")]);
    assert!(!r.alert_yn);
    assert!(r.alert_index_format.is_none());
    assert_eq!(r.cur_cnt, 0);
}

#[test]
fn rounding_to_two_decimals() {
    // |7 - 5| / 6 * 100 = 33.333...
    let d = detect(5, 7, 10000);
    assert_eq!(d.fluctuation_hundredths, 3333);
    assert_eq!(hundredths_text(d.fluctuation_hundredths), "33.33");
    // 2 / 3 * 100 = 66.666... rounds up
    let d = detect(1, 2, 10000);
    assert_eq!(d.fluctuation_hundredths, 6667);
    assert_eq!(hundredths_text(d.fluctuation_hundredths), "66.67");
}

#[test]
fn detect_is_symmetric() {
    for (a, b) in [(100u64, 150u64), (0, 9), (7, 1_000_000), (3, 3)] {
        assert_eq!(detect(a, b, 3000), detect(b, a, 3000));
    }
}

#[test]
fn flat_window_never_alerts() {
    for x in [0u64, 1, 500, u64::MAX] {
        for t in [0u64, 1, 3000, u64::MAX] {
            let d = detect(x, x, t);
            assert_eq!(d.fluctuation_hundredths, 0);
            assert!(!d.anomalous);
        }
    }
}

#[test]
fn empty_window_reads_zero() {
    let d = detect(0, 0, 0);
    assert_eq!(d.fluctuation_hundredths, 0);
    assert!(!d.anomalous);
}

#[test]
fn index_created_mid_window_is_bounded() {
    let d = detect(0, 1000, 3000);
    assert_eq!(d.fluctuation_hundredths, 20000);
    assert!(d.anomalous);
    let d = detect(0, 1000, u64::MAX);
    assert!(!d.anomalous);
}

#[test]
fn threshold_is_inclusive() {
    assert!(detect(100, 150, 4000).anomalous);
    assert!(!detect(100, 150, 4001).anomalous);
}

#[test]
fn sample_keeps_difference() {
    let s = AlertIndex::new("a".to_string(), 10, 25, "t".to_string());
    assert_eq!(s.cur_prev_diff, 15);
    let s = AlertIndex::new("a".to_string(), 25, 10, "t".to_string());
    assert_eq!(s.cur_prev_diff, 15);
    let s = AlertIndex::new("a".to_string(), u64::MAX, 0, "t".to_string());
    assert_eq!(s.cur_prev_diff, u64::MAX);
}

#[test]
fn decimal_and_quoting() {
    assert_eq!(decimal_text(0), "0");
    assert_eq!(decimal_text(1234567890), "1234567890");
    assert_eq!(decimal_text(u64::MAX), "18446744073709551615");
    assert_eq!(hundredths_text(5), "0.05");
    assert_eq!(quoted_text("a\"b\\c\n"), "\"a\\\"b\\\\c\\u000a\"");
    assert_eq!(quoted_text("é"), "\"é\"");
}
