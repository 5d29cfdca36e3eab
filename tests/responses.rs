use index_count_tracking::json::{parse_u64, parse_whole, Json};
use index_count_tracking::queries::{
    alarm_query, boundary_query, doc_count_query, window_agg_query, window_samples_query, AggKind, SortOrder,
    SortSpec,
};
use index_count_tracking::response::{
    parse_agg_value, parse_alarm_report, parse_boundary_counts, parse_doc_count, parse_hits,
    IndexCountAggResult, IndexNameCount, SchemaError,
};

fn s(v: &str) -> Json {
    Json::Str(v.to_string())
}

fn n(v: &str) -> Json {
    Json::Number(v.to_string())
}

fn obj(members: Vec<(&str, Json)>) -> Json {
    Json::Object(members.into_iter().map(|(k, v)| (k.to_string(), v)).collect())
}

#[test]
fn doc_count_is_read_exactly() {
    let resp = obj(vec![("hits", obj(vec![("total", obj(vec![("value", n("12345")), ("relation", s("eq"))]))]))]);
    assert_eq!(parse_doc_count(&resp), Ok(12345));
}

#[test]
fn doc_count_missing_or_invalid_is_schema_error() {
    let missing = obj(vec![("hits", obj(vec![]))]);
    assert_eq!(parse_doc_count(&missing), Err(SchemaError));
    let negative = obj(vec![("hits", obj(vec![("total", obj(vec![("value", n("-1"))]))]))]);
    assert_eq!(parse_doc_count(&negative), Err(SchemaError));
    let text = obj(vec![("hits", obj(vec![("total", obj(vec![("value", s("12"))]))]))]);
    assert_eq!(parse_doc_count(&text), Err(SchemaError));
}

#[test]
fn aggregation_values_default_to_zero() {
    let resp = obj(vec![("aggregations", obj(vec![
        ("max_value_in_range", obj(vec![("value", n("150.0"))])),
        ("min_value_in_range", obj(vec![("value", Json::Null)])),
        ("odd", obj(vec![("value", n("1.5"))])),
    ]))]);
    assert_eq!(parse_agg_value(&resp, "max_value_in_range"), 150);
    assert_eq!(parse_agg_value(&resp, "min_value_in_range"), 0);
    assert_eq!(parse_agg_value(&resp, "odd"), 0);
    assert_eq!(parse_agg_value(&resp, "absent"), 0);
}

#[test]
fn number_texts() {
    assert_eq!(parse_u64("0"), Some(0));
    assert_eq!(parse_u64("18446744073709551615"), Some(u64::MAX));
    assert_eq!(parse_u64("18446744073709551616"), None);
    assert_eq!(parse_u64(""), None);
    assert_eq!(parse_u64("1e3"), None);
    assert_eq!(parse_whole("42"), Some(42));
    assert_eq!(parse_whole("42.000"), Some(42));
    assert_eq!(parse_whole("42."), None);
    assert_eq!(parse_whole(".0"), None);
    assert_eq!(parse_whole("42.01"), None);
}

fn hit(id: &str, name: &str, cnt: &str, ts: &str) -> Json {
    obj(vec![
        ("_id", s(id)),
        ("_source", obj(vec![
            ("index_name", s(name)),
            ("cnt", n(cnt)),
            ("prev_cnt", n("90")),
            ("cur_prev_diff", n("10")),
            ("timestamp", s(ts)),
        ])),
    ])
}

#[test]
fn hits_are_read_in_order() {
    let resp = obj(vec![("hits", obj(vec![("hits", Json::Array(vec![
        hit("b", "orders", "150", "2024-05-01T09:01:00Z"),
        hit("a", "orders", "100", "2024-05-01T09:00:00Z"),
    ]))]))]);
    let v = parse_hits(&resp).expect("valid hits");
    assert_eq!(v.len(), 2);
    assert_eq!(v[0].doc_id, "b");
    assert_eq!(v[0].alert_index.cnt, 150);
    assert_eq!(v[0].alert_index.prev_cnt, 90);
    assert_eq!(v[0].alert_index.cur_prev_diff, 60);
    assert_eq!(v[1].alert_index.timestamp, "2024-05-01T09:00:00Z");
}

#[test]
fn one_bad_hit_fails_the_response() {
    let resp = obj(vec![("hits", obj(vec![("hits", Json::Array(vec![
        hit("b", "orders", "150", "t"),
        hit("a", "orders", "lots", "t"),
    ]))]))]);
    assert!(parse_hits(&resp).is_err());
    assert!(parse_hits(&obj(vec![])).is_err());
}

fn count_bucket(key: &str, cnt: &str) -> Json {
    obj(vec![
        ("key", s(key)),
        ("doc_count", n("7")),
        ("est_cnt", obj(vec![("top", Json::Array(vec![obj(vec![
            ("sort", Json::Array(vec![s("2024-05-01T00:00:00Z")])),
            ("metrics", obj(vec![("cnt", n(cnt)), ("timestamp", s("2024-05-01T00:00:00Z"))])),
        ])]))])),
    ])
}

#[test]
fn boundary_buckets_are_read() {
    let resp = obj(vec![("aggregations", obj(vec![("per_index", obj(vec![("buckets", Json::Array(vec![
        count_bucket("orders", "100"),
        count_bucket("users", "40"),
    ]))]))]))]);
    let v = parse_boundary_counts(&resp, "per_index").expect("valid buckets");
    assert_eq!(v.len(), 2);
    assert_eq!(v[1].index_name, "users");
    assert_eq!(v[1].cnt, 40);
    assert_eq!(v[0].doc_count, 7);
    let again = parse_boundary_counts(&resp, "per_index").expect("valid buckets");
    assert_eq!(again.iter().map(|x| x.cnt).sum::<u64>(), v.iter().map(|x| x.cnt).sum::<u64>());
}

#[test]
fn bucket_without_metrics_is_schema_error() {
    let b = obj(vec![("key", s("orders")), ("doc_count", n("7")), ("est_cnt", obj(vec![("top", Json::Array(vec![]))]))]);
    assert!(IndexCountAggResult::from_agg_bucket(&b).is_err());
    let b = obj(vec![("key", s("orders"))]);
    assert!(IndexNameCount::from_agg_bucket(&b).is_err());
    let b = obj(vec![("key", s("orders")), ("doc_count", n("3"))]);
    let c = IndexNameCount::from_agg_bucket(&b).expect("valid bucket");
    assert_eq!((c.name.as_str(), c.count), ("orders", 3));
}

#[test]
fn alarm_report_is_read() {
    let resp = obj(vec![("aggregations", obj(vec![
        ("index_names", obj(vec![("buckets", Json::Array(vec![
            obj(vec![("key", s("orders")), ("doc_count", n("4"))]),
            obj(vec![("key", s("users")), ("doc_count", n("1"))]),
        ]))])),
        ("distinct_count", obj(vec![("value", n("2"))])),
    ]))]);
    let r = parse_alarm_report(&resp).expect("valid report");
    assert_eq!(r.distinct_count_u64, 2);
    assert_eq!(r.buckets.len(), 2);
    assert_eq!(r.buckets[0].count, 4);
    let no_distinct = obj(vec![("aggregations", obj(vec![("index_names", obj(vec![("buckets", Json::Array(vec![]))]))]))]);
    assert!(parse_alarm_report(&no_distinct).is_err());
}

#[test]
fn query_texts_are_valid_json() {
    let q = doc_count_query();
    assert_eq!(q, "{\"size\":0,\"track_total_hits\":true,\"query\":{\"match_all\":{}}}");
    let q = window_agg_query("orders", "2024-05-01T08:59:00Z", "2024-05-01T09:00:00Z", "max_value_in_range", AggKind::Max);
    assert_eq!(q, "{\"size\":0,\"query\":{\"bool\":{\"filter\":[{\"range\":{\"timestamp\":{\"gte\":\"2024-05-01T08:59:00Z\",\"lte\":\"2024-05-01T09:00:00Z\"}}},{\"term\":{\"index_name.keyword\":\"orders\"}}]}},\"aggs\":{\"max_value_in_range\":{\"max\":{\"field\":\"cnt\"}}}}");
    for q in [
        window_samples_query("orders", "a", "b", 100, SortOrder::Desc),
        boundary_query("a", "b", SortOrder::Asc),
        alarm_query("a", "b"),
    ] {
        assert!(serde_json::from_str::<serde_json::Value>(&q).is_ok(), "{}", q);
    }
    assert!(window_samples_query("orders", "a", "b", 100, SortOrder::Desc).ends_with("\"sort\":[{\"timestamp\":{\"order\":\"desc\"}}],\"size\":100}"));
    let sort = SortSpec { field: "timestamp".to_string(), order: SortOrder::Asc };
    assert_eq!(sort.to_es_json(), "{\"timestamp\":{\"order\":\"asc\"}}");
}

#[test]
fn first_hit_or_schema_error() {
    let resp = obj(vec![("hits", obj(vec![("hits", Json::Array(vec![
        hit("z", "orders", "3", "2024-05-01T09:00:00Z"),
        hit("y", "orders", "2", "2024-05-01T08:59:55Z"),
    ]))]))]);
    let f = index_count_tracking::response::parse_first_hit(&resp).expect("a hit");
    assert_eq!((f.doc_id.as_str(), f.alert_index.cnt), ("z", 3));
    let empty = obj(vec![("hits", obj(vec![("hits", Json::Array(vec![]))]))]);
    assert_eq!(index_count_tracking::response::parse_first_hit(&empty).map(|f| f.doc_id), Err(SchemaError));
}
