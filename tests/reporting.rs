use index_count_tracking::model::{AlertIndex, IndexConfig, LogIndexResult};
use index_count_tracking::detector::Detection;
use index_count_tracking::notify::{chart_output_path, NotificationServiceImpl};
use index_count_tracking::report::{
    calc_start_end_index_cnt, calculate_y_range, generate_alarm_index_details, generate_alram_index_diff_details,
    total_count, IndexDailyStats, IndexStatus, ReportSummary,
};
use index_count_tracking::response::{AlarmReportInfos, IndexCountAggResult, IndexNameCount};
use index_count_tracking::config::{get_report_config_info, initialize_server_config, AlarmLogIndex, ElasticServerConfig, RdbConfig, SmtpConfig, SystemConfig, TelegramConfig};
use index_count_tracking::scheduler::{ReportConfig, ReportType};
use index_count_tracking::report_html::{generate_index_detail_rows, generate_index_diff_detail_rows, grouped_text};

fn agg(name: &str, cnt: u64) -> IndexCountAggResult {
    IndexCountAggResult { index_name: name.to_string(), doc_count: 1, cnt, timestamp: "t".to_string() }
}

fn cfg(name: &str) -> IndexConfig {
    IndexConfig { index_name: name.to_string(), allowable_fluctuation_range: 3000, agg_term_sec: 60 }
}

#[test]
fn totals_and_their_difference() {
    let start = vec![agg("a", 100), agg("b", 50)];
    let end = vec![agg("a", 130), agg("b", 40)];
    assert_eq!(total_count(&start), 150);
    assert_eq!(total_count(&end), 170);
    assert_eq!(calc_start_end_index_cnt(&start, &end), 20);
    assert_eq!(calc_start_end_index_cnt(&end, &start), 20);
    assert_eq!(total_count(&vec![]), 0);
    let big = vec![agg("a", u64::MAX), agg("b", u64::MAX)];
    assert_eq!(total_count(&big), 2 * (u64::MAX as u128));
}

#[test]
fn detail_rows_skip_unreported_indices() {
    let indices = vec![cfg("a"), cfg("b"), cfg("c")];
    let start = vec![agg("a", 200), agg("c", 0)];
    let end = vec![agg("c", 5), agg("a", 150)];
    let alarms = AlarmReportInfos {
        buckets: vec![IndexNameCount { name: "a".to_string(), count: 3 }],
        distinct_count_u64: 1,
    };
    let rows = generate_alarm_index_details(&indices, &alarms, &start, &end);
    assert_eq!(rows.len(), 2);
    assert_eq!(rows[0].index_name, "a");
    assert_eq!((rows[0].start_index_cnt, rows[0].end_index_cnt, rows[0].difference), (200, 150, 50));
    assert_eq!(rows[0].difference_percent, 2500);
    assert_eq!(rows[0].alarm_cnt, 3);
    assert_eq!(rows[1].index_name, "c");
    assert_eq!((rows[1].difference, rows[1].difference_percent, rows[1].alarm_cnt), (5, 0, 0));
}

#[test]
fn swing_rows() {
    let indices = vec![cfg("a"), cfg("b")];
    let rows = generate_alram_index_diff_details(&indices, &vec![(100, 150), (0, 3)]);
    assert_eq!((rows[0].min_index_cnt, rows[0].max_index_cnt, rows[0].difference, rows[0].difference_percent), (100, 150, 50, 5000));
    assert_eq!((rows[1].difference, rows[1].difference_percent), (3, 30000));
}

#[test]
fn daily_stats_and_summary() {
    let a = IndexDailyStats::new("a".to_string(), 200, 150, 0);
    assert_eq!((a.change, a.change_percentage, a.status), (-50, -2500, IndexStatus::Normal));
    let b = IndexDailyStats::new("b".to_string(), 0, 10, 3);
    assert_eq!((b.change, b.change_percentage, b.status), (10, 0, IndexStatus::Warning));
    let c = IndexDailyStats::new("c".to_string(), 3, 4, 11);
    assert_eq!((c.change_percentage, c.status), (3333, IndexStatus::Critical));
    let s = ReportSummary::calculate(&vec![a, b, c]);
    assert_eq!(s.total_indices, 3);
    assert_eq!((s.total_documents_start, s.total_documents_end, s.total_change), (203, 164, -39));
    assert_eq!((s.indices_with_alerts, s.total_alerts), (2, 14));
}

#[test]
fn chart_ranges() {
    assert_eq!(calculate_y_range(&vec![]), (0, 100));
    assert_eq!(calculate_y_range(&vec![100, 300, 200]), (80, 320));
    assert_eq!(calculate_y_range(&vec![5, 5]), (4, 6));
    assert_eq!(calculate_y_range(&vec![0, 3]), (0, 4));
    assert_eq!(chart_output_path(168, "orders"), "./pics/168_line_chart_orders.png");
}

#[test]
fn alert_html() {
    let svc = NotificationServiceImpl::new(vec!["ops@example.com".to_string()]);
    let h = vec![
        AlertIndex::new("orders".to_string(), 150, 100, "2024-05-01T09:01:00Z".to_string()),
        AlertIndex::new("orders".to_string(), 100, 100, "2024-05-01T09:00:00Z".to_string()),
    ];
    let html = svc.generate_history_table_html(&h);
    assert_eq!(html, "<div style=\"color: #555; font-size: 14px; line-height: 1.5;\"><div>2024-05-01T09:01:00Z -> 150</div><div>2024-05-01T09:00:00Z -> 100</div></div>");
    let r = LogIndexResult::from_detection("orders".to_string(), Detection { fluctuation_hundredths: 4000, anomalous: true }, h);
    let quiet = LogIndexResult::from_detection("users".to_string(), Detection { fluctuation_hundredths: 1, anomalous: false }, vec![]);
    let rows = svc.generate_alert_rows(&vec![r, quiet]);
    assert!(rows.starts_with("<tr>"));
    assert!(rows.contains(">orders</td>"));
    assert!(rows.contains(">150</td>"));
    assert!(rows.contains("color: red;\">40.00%</td>"));
    assert!(!rows.contains("users"));
    assert_eq!(svc.generate_alert_rows(&vec![]), "");
}

#[test]
fn report_settings_per_cadence() {
    let es = ElasticServerConfig { elastic_host: vec![], elastic_id: None, elastic_pw: None, elastic_cluster_name: "c".to_string() };
    let week = ReportConfig { enabled: false, cron_schedule: "0 0 9 * * Mon".to_string() };
    let total = initialize_server_config(
        es.clone(),
        es,
        RdbConfig { host: "h".to_string(), port: 1433, database: "d".to_string(), user_id: "u".to_string(), user_pw: "p".to_string() },
        TelegramConfig { bot_token: "t".to_string(), chat_room_id: "r".to_string() },
        SystemConfig { monitor_index_name: "mon".to_string(), message_chunk_size: 10, ticker_sec: 5 },
        SmtpConfig { smtp_name: "s".to_string(), credential_id: "i".to_string(), credential_pw: "p".to_string(), async_process_yn: false },
        AlarmLogIndex { index_name: "alarm".to_string() },
        ReportConfig::default(),
        week,
        ReportConfig::default(),
        ReportConfig::default(),
    );
    assert!(!get_report_config_info(&total, ReportType::Week).enabled);
    assert!(get_report_config_info(&total, ReportType::Day).enabled);
}

#[test]
fn chat_messages_are_chunked() {
    let mk = |name: &str| {
        let h = vec![AlertIndex::new(name.to_string(), 5, 1, "2024-05-01T09:00:00Z".to_string())];
        LogIndexResult::from_detection(name.to_string(), Detection { fluctuation_hundredths: 4000, anomalous: true }, h)
    };
    let results = vec![mk("a"), mk("b"), mk("c")];
    let msgs = index_count_tracking::notify::telegram_alert_messages(&results, 2);
    assert_eq!(msgs.len(), 2);
    assert_eq!(
        msgs[1],
        "🚨 [Index Count Alert] 🚨\n\n📌 c 📌\n📊 Index: c\n💾 Count: 5\n🕐 Time: 2024-05-01T09:00:00Z\n\n⚠️ Please check the index status immediately!"
    );
    assert!(msgs[0].contains("📌 a 📌") && msgs[0].contains("📌 b 📌"));
    assert!(index_count_tracking::notify::telegram_alert_messages(&vec![], 3).is_empty());
}

#[test]
fn chart_points_follow_samples() {
    let h = vec![
        AlertIndex::new("orders".to_string(), 10, 0, "2024-05-01T09:00:00Z".to_string()),
        AlertIndex::new("orders".to_string(), u64::MAX, 0, "2024-05-01T09:00:05Z".to_string()),
    ];
    let (labels, values) = index_count_tracking::report::chart_series(&h);
    assert_eq!(labels, vec!["2024-05-01T09:00:00Z".to_string(), "2024-05-01T09:00:05Z".to_string()]);
    assert_eq!(values, vec![10, i64::MAX]);
}

#[test]
fn report_samples_in_local_time() {
    let h = vec![
        AlertIndex::new("orders".to_string(), 10, 4, "2024-05-01T09:00:00Z".to_string()),
        AlertIndex::new("orders".to_string(), 11, 10, "not a time".to_string()),
    ];
    let local = index_count_tracking::report::localize_samples(&h);
    assert_eq!(local.len(), 2);
    assert_eq!(local[0].cnt, 10);
    assert_eq!(local[0].cur_prev_diff, 6);
    assert_eq!(local[0].timestamp.len(), 20);
    assert!(local[0].timestamp.starts_with("2024-05-0"));
    assert_eq!(local[1].timestamp, "not a time");
}

#[test]
fn daily_report_totals() {
    let stats = vec![
        IndexDailyStats::new("a".to_string(), 10, 20, 1),
        IndexDailyStats::new("b".to_string(), 5, 5, 0),
    ];
    let r = index_count_tracking::report::DailyReport::new("2024-05-01".to_string(), stats);
    assert_eq!(r.date, "2024-05-01");
    assert_eq!(r.index_stats.len(), 2);
    assert_eq!((r.summary.total_documents_start, r.summary.total_documents_end, r.summary.total_change), (15, 25, 10));
    assert_eq!((r.summary.indices_with_alerts, r.summary.total_alerts), (1, 1));
}

#[test]
fn local_hours_back() {
    let t = index_count_tracking::time::convert_local_from_utc(index_count_tracking::time::UtcTime { secs: 1714554000 });
    let earlier = index_count_tracking::time::minus_h_local(t, 24);
    assert_eq!(earlier.utc_secs, 1714554000 - 86400);
}

#[test]
fn headline_figures() {
    let start = vec![agg("a", 100), agg("b", 50)];
    let end = vec![agg("a", 90)];
    let alarms = AlarmReportInfos {
        buckets: vec![
            IndexNameCount { name: "a".to_string(), count: 4 },
            IndexNameCount { name: "b".to_string(), count: 2 },
        ],
        distinct_count_u64: 2,
    };
    let t = index_count_tracking::report::report_totals(&start, &end, &alarms);
    assert_eq!((t.start_total, t.end_total, t.total_difference), (150, 90, 60));
    assert_eq!((t.alarmed_indices, t.total_alarms), (2, 6));
}

#[test]
fn report_rows_group_thousands() {
    assert_eq!(grouped_text(0), "0");
    assert_eq!(grouped_text(999), "999");
    assert_eq!(grouped_text(1000), "1,000");
    assert_eq!(grouped_text(1234567), "1,234,567");
    assert_eq!(grouped_text(1002003), "1,002,003");
    let indices = vec![cfg("a")];
    let start = vec![agg("a", 1200)];
    let end = vec![agg("a", 1500)];
    let alarms = AlarmReportInfos { buckets: vec![], distinct_count_u64: 0 };
    let details = generate_alarm_index_details(&indices, &alarms, &start, &end);
    let cell = "<td style=\"border: 1px solid #ddd; padding: 12px; text-align: left; background-color: #fff;\">";
    let expected = format!(
        "<tr>{c}a</td>{c}1,200</td>{c}1,500</td>{c}300</td>{c}25.00%</td>{c}0</td></tr>",
        c = cell
    );
    assert_eq!(generate_index_detail_rows(&details), expected);
    let swings = generate_alram_index_diff_details(&indices, &vec![(1000, 2500)]);
    let expected = format!("<tr>{c}a</td>{c}1,000</td>{c}2,500</td>{c}1,500</td>{c}150.00%</td></tr>", c = cell);
    assert_eq!(generate_index_diff_detail_rows(&swings), expected);
    assert_eq!(generate_index_detail_rows(&vec![]), "");
}
