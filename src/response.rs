//! Reading search-engine responses into domain records.
//!
//! A response that lacks a field or holds one of the wrong type is a schema
//! error: retrying cannot mend it, so it is always handed back.
use vstd::prelude::*;
use crate::json::{
    spec_as_array, spec_as_str, spec_as_u64, spec_as_whole, spec_field, spec_get, Json,
};
use crate::model::AlertIndex;
use crate::model::AlertIndexFormat;

verus! {

/// A response does not have the shape that the query asked for.
#[derive(Clone, Copy, Debug, PartialEq, Eq)]
pub struct SchemaError;

/// Per-index count near a window boundary, read from one aggregation bucket.
#[derive(Clone, Debug)]
pub struct IndexCountAggResult {
    pub index_name: String,
    pub doc_count: u64,
    pub cnt: u64,
    pub timestamp: String,
}

/// Number of alarm records of one index.
#[derive(Clone, Debug)]
pub struct IndexNameCount {
    pub name: String,
    pub count: u64,
}

/// Alarm counts per index, and the number of distinct alarmed indices.
#[derive(Clone, Debug)]
pub struct AlarmReportInfos {
    pub buckets: Vec<IndexNameCount>,
    pub distinct_count_u64: u64,
}

/// `hits.total.value` of a search response.
pub open spec fn spec_doc_count(resp: Json) -> Option<u64> {
    spec_as_u64(spec_field(spec_field(spec_get(resp, "hits"@), "total"@), "value"@))
}

/// `aggregations.<name>.value` of a response, read as a whole number.
pub open spec fn spec_agg_value(resp: Json, agg_name: Seq<char>) -> Option<u64> {
    spec_as_whole(spec_field(spec_field(spec_get(resp, "aggregations"@), agg_name), "value"@))
}

/// The source document of a hit holds a well-typed sample.
pub open spec fn spec_hit_ok(hit: Json) -> bool {
    let src = spec_get(hit, "_source"@);
    &&& spec_as_str(spec_get(hit, "_id"@)) is Some
    &&& spec_as_str(spec_field(src, "index_name"@)) is Some
    &&& spec_as_u64(spec_field(src, "cnt"@)) is Some
    &&& spec_as_str(spec_field(src, "timestamp"@)) is Some
}

/// `f` holds what `hit` holds; a missing or invalid `prev_cnt` reads as `0`.
pub open spec fn spec_hit_matches(hit: Json, f: AlertIndexFormat) -> bool {
    let src = spec_get(hit, "_source"@);
    let prev = spec_as_u64(spec_field(src, "prev_cnt"@));
    &&& f.doc_id@ == spec_as_str(spec_get(hit, "_id"@))->Some_0@
    &&& f.alert_index.index_name@ == spec_as_str(spec_field(src, "index_name"@))->Some_0@
    &&& f.alert_index.cnt == spec_as_u64(spec_field(src, "cnt"@))->Some_0
    &&& f.alert_index.prev_cnt == (if prev is Some { prev->Some_0 } else { 0 })
    &&& f.alert_index.timestamp@ == spec_as_str(spec_field(src, "timestamp"@))->Some_0@
    &&& f.alert_index.wf()
}

/// `hits.hits` of a search response.
pub open spec fn spec_hits(resp: Json) -> Option<Seq<Json>> {
    spec_as_array(spec_field(spec_get(resp, "hits"@), "hits"@))
}

/// The first entry of `est_cnt.top` of a bucket, whose `metrics` are read.
pub open spec fn spec_metrics(bucket: Json) -> Option<Json> {
    let top = spec_as_array(spec_field(spec_get(bucket, "est_cnt"@), "top"@));
    if top is Some && top->Some_0.len() > 0 {
        spec_get(top->Some_0[0], "metrics"@)
    } else {
        None
    }
}

pub open spec fn spec_count_bucket_ok(bucket: Json) -> bool {
    let m = spec_metrics(bucket);
    &&& spec_as_str(spec_get(bucket, "key"@)) is Some
    &&& spec_as_u64(spec_get(bucket, "doc_count"@)) is Some
    &&& spec_as_u64(spec_field(m, "cnt"@)) is Some
    &&& spec_as_str(spec_field(m, "timestamp"@)) is Some
}

pub open spec fn spec_count_bucket_matches(bucket: Json, r: IndexCountAggResult) -> bool {
    let m = spec_metrics(bucket);
    &&& r.index_name@ == spec_as_str(spec_get(bucket, "key"@))->Some_0@
    &&& r.doc_count == spec_as_u64(spec_get(bucket, "doc_count"@))->Some_0
    &&& r.cnt == spec_as_u64(spec_field(m, "cnt"@))->Some_0
    &&& r.timestamp@ == spec_as_str(spec_field(m, "timestamp"@))->Some_0@
}

pub open spec fn spec_name_bucket_ok(bucket: Json) -> bool {
    &&& spec_as_str(spec_get(bucket, "key"@)) is Some
    &&& spec_as_u64(spec_get(bucket, "doc_count"@)) is Some
}

pub open spec fn spec_name_bucket_matches(bucket: Json, r: IndexNameCount) -> bool {
    &&& r.name@ == spec_as_str(spec_get(bucket, "key"@))->Some_0@
    &&& r.count == spec_as_u64(spec_get(bucket, "doc_count"@))->Some_0
}

/// `aggregations.<name>.buckets` of a response.
pub open spec fn spec_buckets(resp: Json, agg_name: Seq<char>) -> Option<Seq<Json>> {
    spec_as_array(spec_field(spec_field(spec_get(resp, "aggregations"@), agg_name), "buckets"@))
}

spec fn opt_json(v: Option<&Json>) -> Option<Json> {
    match v {
        Some(j) => Some(*j),
        None => None,
    }
}

fn field<'a>(v: Option<&'a Json>, key: &str) -> (r: Option<&'a Json>)
    ensures
        match r {
            Some(x) => spec_field(opt_json(v), key@) == Some(*x),
            None => spec_field(opt_json(v), key@).is_none(),
        },
{
    match v {
        Some(j) => j.get(key),
        None => None,
    }
}

fn str_of(v: Option<&Json>) -> (r: Option<String>)
    ensures
        match r {
            Some(s) => spec_as_str(opt_json(v)) is Some
                && s@ == spec_as_str(opt_json(v))->Some_0@,
            None => spec_as_str(opt_json(v)).is_none(),
        },
{
    match v {
        Some(j) => match j.as_str() {
            Some(s) => Some(s.clone()),
            None => None,
        },
        None => None,
    }
}

fn u64_of(v: Option<&Json>) -> (r: Option<u64>)
    ensures
        r == spec_as_u64(opt_json(v)),
{
    match v {
        Some(j) => j.as_u64(),
        None => None,
    }
}

/// Reads the exact document count of a count query.
pub fn parse_doc_count(resp: &Json) -> (r: Result<u64, SchemaError>)
    ensures
        match spec_doc_count(*resp) {
            Some(v) => r == Ok::<u64, SchemaError>(v),
            None => r == Err::<u64, SchemaError>(SchemaError),
        },
{
    match u64_of(field(field(resp.get("hits"), "total"), "value")) {
        Some(v) => Ok(v),
        None => Err(SchemaError),
    }
}

/// Reads a single-value aggregation; a missing or invalid value reads as `0`.
pub fn parse_agg_value(resp: &Json, agg_name: &str) -> (r: u64)
    ensures
        r == (match spec_agg_value(*resp, agg_name@) {
            Some(v) => v,
            None => 0,
        }),
{
    match field(field(resp.get("aggregations"), agg_name), "value") {
        Some(j) => match j.as_whole() {
            Some(v) => v,
            None => 0,
        },
        None => 0,
    }
}

/// Reads one search hit into a sample with its document id.
pub fn parse_hit(hit: &Json) -> (r: Result<AlertIndexFormat, SchemaError>)
    ensures
        r is Ok <==> spec_hit_ok(*hit),
        r matches Ok(f) ==> spec_hit_matches(*hit, f),
{
    let src: Option<&Json> = hit.get("_source");
    let id: Option<String> = str_of(hit.get("_id"));
    let name: Option<String> = str_of(field(src, "index_name"));
    let cnt: Option<u64> = u64_of(field(src, "cnt"));
    let ts: Option<String> = str_of(field(src, "timestamp"));
    let prev: u64 = match u64_of(field(src, "prev_cnt")) {
        Some(p) => p,
        None => 0,
    };
    match (id, name, cnt, ts) {
        (Some(id), Some(name), Some(cnt), Some(ts)) => {
            let sample: AlertIndex = AlertIndex::new(name, cnt, prev, ts);
            Ok(AlertIndexFormat::from_search_hit(id, sample))
        },
        _ => Err(SchemaError),
    }
}

/// Reads every hit of a search response, in the order of the response.
pub fn parse_hits(resp: &Json) -> (r: Result<Vec<AlertIndexFormat>, SchemaError>)
    ensures
        r is Ok <==> (spec_hits(*resp) is Some
            && forall|i: int| 0 <= i < spec_hits(*resp)->Some_0.len() ==> spec_hit_ok(#[trigger] spec_hits(*resp)->Some_0[i])),
        r matches Ok(v) ==> v@.len() == spec_hits(*resp)->Some_0.len()
            && forall|i: int| 0 <= i < v@.len() ==> spec_hit_matches(spec_hits(*resp)->Some_0[i], #[trigger] v@[i]),
{
    let arr: &Vec<Json> = match field(resp.get("hits"), "hits") {
        Some(h) => match h.as_array() {
            Some(a) => a,
            None => return Err(SchemaError),
        },
        None => return Err(SchemaError),
    };
    let ghost hits = spec_hits(*resp)->Some_0;
    assert(hits == arr@);
    let mut out: Vec<AlertIndexFormat> = Vec::new();
    let mut i: usize = 0;
    while i < arr.len()
        invariant
            hits == arr@,
            spec_hits(*resp) == Some(hits),
            i <= arr@.len(),
            out@.len() == i,
            forall|k: int| 0 <= k < i ==> spec_hit_ok(hits[k]),
            forall|k: int| 0 <= k < i ==> spec_hit_matches(hits[k], #[trigger] out@[k]),
        decreases arr@.len() - i,
    {
        match parse_hit(&arr[i]) {
            Ok(f) => out.push(f),
            Err(e) => {
                assert(!spec_hit_ok(spec_hits(*resp)->Some_0[i as int]));
                return Err(e);
            },
        }
        i = i + 1;
    }
    Ok(out)
}

/// Reads the first hit of a search response; an empty result is a schema
/// error too.
pub fn parse_first_hit(resp: &Json) -> (r: Result<AlertIndexFormat, SchemaError>)
    ensures
        r is Ok <==> (spec_hits(*resp) is Some && spec_hits(*resp)->Some_0.len() > 0
            && spec_hit_ok(spec_hits(*resp)->Some_0[0])),
        r matches Ok(f) ==> spec_hit_matches(spec_hits(*resp)->Some_0[0], f),
{
    match field(resp.get("hits"), "hits") {
        Some(h) => match h.as_array() {
            Some(arr) => if arr.len() > 0 { parse_hit(&arr[0]) } else { Err(SchemaError) },
            None => Err(SchemaError),
        },
        None => Err(SchemaError),
    }
}

impl IndexCountAggResult {
    /// Reads a terms bucket whose `est_cnt` sub-aggregation holds the
    /// sample nearest to a window boundary.
    pub fn from_agg_bucket(bucket: &Json) -> (r: Result<IndexCountAggResult, SchemaError>)
        ensures
            r is Ok <==> spec_count_bucket_ok(*bucket),
            r matches Ok(v) ==> spec_count_bucket_matches(*bucket, v),
    {
        let name: Option<String> = str_of(bucket.get("key"));
        let doc_count: Option<u64> = u64_of(bucket.get("doc_count"));
        let metrics: Option<&Json> = match field(bucket.get("est_cnt"), "top") {
            Some(t) => match t.as_array() {
                Some(top) => if top.len() > 0 { top[0].get("metrics") } else { None },
                None => None,
            },
            None => None,
        };
        let cnt: Option<u64> = u64_of(field(metrics, "cnt"));
        let ts: Option<String> = str_of(field(metrics, "timestamp"));
        match (name, doc_count, cnt, ts) {
            (Some(index_name), Some(doc_count), Some(cnt), Some(timestamp)) =>
                Ok(IndexCountAggResult { index_name, doc_count, cnt, timestamp }),
            _ => Err(SchemaError),
        }
    }
}

impl IndexNameCount {
    /// Reads a terms bucket: its key and its number of documents.
    pub fn from_agg_bucket(bucket: &Json) -> (r: Result<IndexNameCount, SchemaError>)
        ensures
            r is Ok <==> spec_name_bucket_ok(*bucket),
            r matches Ok(v) ==> spec_name_bucket_matches(*bucket, v),
    {
        let name: Option<String> = str_of(bucket.get("key"));
        let count: Option<u64> = u64_of(bucket.get("doc_count"));
        match (name, count) {
            (Some(name), Some(count)) => Ok(IndexNameCount { name, count }),
            _ => Err(SchemaError),
        }
    }
}

fn buckets_of<'a>(resp: &'a Json, agg_name: &str) -> (r: Option<&'a Vec<Json>>)
    ensures
        match r {
            Some(a) => spec_buckets(*resp, agg_name@) == Some(a@),
            None => spec_buckets(*resp, agg_name@).is_none(),
        },
{
    match field(field(resp.get("aggregations"), agg_name), "buckets") {
        Some(b) => b.as_array(),
        None => None,
    }
}

/// Reads the per-index counts of a boundary aggregation named `agg_name`.
pub fn parse_boundary_counts(resp: &Json, agg_name: &str) -> (r: Result<Vec<IndexCountAggResult>, SchemaError>)
    ensures
        r is Ok <==> (spec_buckets(*resp, agg_name@) is Some
            && forall|i: int| 0 <= i < spec_buckets(*resp, agg_name@)->Some_0.len()
                ==> spec_count_bucket_ok(#[trigger] spec_buckets(*resp, agg_name@)->Some_0[i])),
        r matches Ok(v) ==> v@.len() == spec_buckets(*resp, agg_name@)->Some_0.len()
            && forall|i: int| 0 <= i < v@.len()
                ==> spec_count_bucket_matches(spec_buckets(*resp, agg_name@)->Some_0[i], #[trigger] v@[i]),
{
    let arr: &Vec<Json> = match buckets_of(resp, agg_name) {
        Some(a) => a,
        None => return Err(SchemaError),
    };
    let ghost bs = arr@;
    let mut out: Vec<IndexCountAggResult> = Vec::new();
    let mut i: usize = 0;
    while i < arr.len()
        invariant
            bs == arr@,
            spec_buckets(*resp, agg_name@) == Some(bs),
            i <= arr@.len(),
            out@.len() == i,
            forall|k: int| 0 <= k < i ==> spec_count_bucket_ok(bs[k]),
            forall|k: int| 0 <= k < i ==> spec_count_bucket_matches(bs[k], #[trigger] out@[k]),
        decreases arr@.len() - i,
    {
        match IndexCountAggResult::from_agg_bucket(&arr[i]) {
            Ok(v) => out.push(v),
            Err(e) => {
                assert(!spec_count_bucket_ok(spec_buckets(*resp, agg_name@)->Some_0[i as int]));
                return Err(e);
            },
        }
        i = i + 1;
    }
    Ok(out)
}

/// `aggregations.distinct_count.value` of an alarm report response.
pub open spec fn spec_distinct_count(resp: Json) -> Option<u64> {
    spec_as_u64(spec_field(spec_field(spec_get(resp, "aggregations"@), "distinct_count"@), "value"@))
}

/// Reads the alarm counts per index (`index_names` buckets) and the number
/// of distinct alarmed indices (`distinct_count`).
pub fn parse_alarm_report(resp: &Json) -> (r: Result<AlarmReportInfos, SchemaError>)
    ensures
        r is Ok <==> (spec_buckets(*resp, "index_names"@) is Some
            && spec_distinct_count(*resp) is Some
            && forall|i: int| 0 <= i < spec_buckets(*resp, "index_names"@)->Some_0.len()
                ==> spec_name_bucket_ok(#[trigger] spec_buckets(*resp, "index_names"@)->Some_0[i])),
        r matches Ok(v) ==> v.distinct_count_u64 == spec_distinct_count(*resp)->Some_0
            && v.buckets@.len() == spec_buckets(*resp, "index_names"@)->Some_0.len()
            && forall|i: int| 0 <= i < v.buckets@.len()
                ==> spec_name_bucket_matches(spec_buckets(*resp, "index_names"@)->Some_0[i], #[trigger] v.buckets@[i]),
{
    let arr: &Vec<Json> = match buckets_of(resp, "index_names") {
        Some(a) => a,
        None => return Err(SchemaError),
    };
    let distinct: u64 = match u64_of(field(field(resp.get("aggregations"), "distinct_count"), "value")) {
        Some(d) => d,
        None => return Err(SchemaError),
    };
    let ghost bs = arr@;
    let mut out: Vec<IndexNameCount> = Vec::new();
    let mut i: usize = 0;
    while i < arr.len()
        invariant
            bs == arr@,
            spec_buckets(*resp, "index_names"@) == Some(bs),
            spec_distinct_count(*resp) == Some(distinct),
            i <= arr@.len(),
            out@.len() == i,
            forall|k: int| 0 <= k < i ==> spec_name_bucket_ok(bs[k]),
            forall|k: int| 0 <= k < i ==> spec_name_bucket_matches(bs[k], #[trigger] out@[k]),
        decreases arr@.len() - i,
    {
        match IndexNameCount::from_agg_bucket(&arr[i]) {
            Ok(v) => out.push(v),
            Err(e) => {
                assert(!spec_name_bucket_ok(spec_buckets(*resp, "index_names"@)->Some_0[i as int]));
                return Err(e);
            },
        }
        i = i + 1;
    }
    Ok(AlarmReportInfos { buckets: out, distinct_count_u64: distinct })
}

} // verus!
