//! Bodies of the queries sent to the search engine, as JSON text.
use vstd::prelude::*;
use vstd::string::*;
use crate::text::{decimal_text, quoted_text, spec_decimal, spec_quoted};

verus! {

/// Direction of a sort.
#[derive(Clone, Copy, Debug, PartialEq, Eq)]
pub enum SortOrder {
    Asc,
    Desc,
}

pub open spec fn spec_order_word(o: SortOrder) -> Seq<char> {
    match o {
        SortOrder::Asc => "\"asc\""@,
        SortOrder::Desc => "\"desc\""@,
    }
}

fn order_word(o: SortOrder) -> (r: &'static str)
    ensures
        r@ == spec_order_word(o),
{
    match o {
        SortOrder::Asc => "\"asc\"",
        SortOrder::Desc => "\"desc\"",
    }
}

/// A sort on one field.
#[derive(Clone, Debug)]
pub struct SortSpec {
    pub field: String,
    pub order: SortOrder,
}

pub open spec fn spec_sort_json(field: Seq<char>, o: SortOrder) -> Seq<char> {
    "{"@ + spec_quoted(field) + ":{\"order\":"@ + spec_order_word(o) + "}}"@
}

impl SortSpec {
    /// The sort clause: `{"<field>":{"order":"<asc|desc>"}}`.
    pub fn to_es_json(&self) -> (r: String)
        ensures
            r@ == spec_sort_json(self.field@, self.order),
    {
        let mut s: String = String::from_str("{");
        s.append(quoted_text(self.field.as_str()).as_str());
        s.append(":{\"order\":");
        s.append(order_word(self.order));
        s.append("}}");
        s
    }
}

/// Kind of a single-value aggregation over the `cnt` field.
#[derive(Clone, Copy, Debug, PartialEq, Eq)]
pub enum AggKind {
    Min,
    Max,
}

pub open spec fn spec_agg_word(k: AggKind) -> Seq<char> {
    match k {
        AggKind::Min => "\"min\""@,
        AggKind::Max => "\"max\""@,
    }
}

fn agg_word(k: AggKind) -> (r: &'static str)
    ensures
        r@ == spec_agg_word(k),
{
    match k {
        AggKind::Min => "\"min\"",
        AggKind::Max => "\"max\"",
    }
}

/// Exact count of every document of an index.
pub open spec fn spec_doc_count_query() -> Seq<char> {
    "{\"size\":0,\"track_total_hits\":true,\"query\":{\"match_all\":{}}}"@
}

pub fn doc_count_query() -> (r: String)
    ensures
        r@ == spec_doc_count_query(),
{
    String::from_str("{\"size\":0,\"track_total_hits\":true,\"query\":{\"match_all\":{}}}")
}

/// Range on `timestamp`, both ends included.
pub open spec fn spec_range(gte: Seq<char>, lte: Seq<char>) -> Seq<char> {
    "{\"range\":{\"timestamp\":{\"gte\":"@ + spec_quoted(gte) + ",\"lte\":"@ + spec_quoted(lte) + "}}}"@
}

fn range_text(gte: &str, lte: &str) -> (r: String)
    ensures
        r@ == spec_range(gte@, lte@),
{
    let mut s: String = String::from_str("{\"range\":{\"timestamp\":{\"gte\":");
    s.append(quoted_text(gte).as_str());
    s.append(",\"lte\":");
    s.append(quoted_text(lte).as_str());
    s.append("}}}");
    s
}

/// Samples of one index whose timestamp lies in `[gte, lte]`.
pub open spec fn spec_window_filter(index_name: Seq<char>, gte: Seq<char>, lte: Seq<char>) -> Seq<char> {
    "{\"bool\":{\"filter\":["@ + spec_range(gte, lte) + ",{\"term\":{\"index_name.keyword\":"@
        + spec_quoted(index_name) + "}}]}}"@
}

fn window_filter(index_name: &str, gte: &str, lte: &str) -> (r: String)
    ensures
        r@ == spec_window_filter(index_name@, gte@, lte@),
{
    let mut s: String = String::from_str("{\"bool\":{\"filter\":[");
    s.append(range_text(gte, lte).as_str());
    s.append(",{\"term\":{\"index_name.keyword\":");
    s.append(quoted_text(index_name).as_str());
    s.append("}}]}}");
    s
}

pub open spec fn spec_window_agg_query(
    index_name: Seq<char>,
    gte: Seq<char>,
    lte: Seq<char>,
    agg_name: Seq<char>,
    kind: AggKind,
) -> Seq<char> {
    "{\"size\":0,\"query\":"@ + spec_window_filter(index_name, gte, lte) + ",\"aggs\":{"@
        + spec_quoted(agg_name) + ":{"@ + spec_agg_word(kind) + ":{\"field\":\"cnt\"}}}}"@
}

/// The smallest or largest count of one index inside a window, as the
/// aggregation named `agg_name`.
pub fn window_agg_query(index_name: &str, gte: &str, lte: &str, agg_name: &str, kind: AggKind) -> (r: String)
    ensures
        r@ == spec_window_agg_query(index_name@, gte@, lte@, agg_name@, kind),
{
    let mut s: String = String::from_str("{\"size\":0,\"query\":");
    s.append(window_filter(index_name, gte, lte).as_str());
    s.append(",\"aggs\":{");
    s.append(quoted_text(agg_name).as_str());
    s.append(":{");
    s.append(agg_word(kind));
    s.append(":{\"field\":\"cnt\"}}}}");
    s
}

pub open spec fn spec_window_samples_query(
    index_name: Seq<char>,
    gte: Seq<char>,
    lte: Seq<char>,
    size: nat,
    order: SortOrder,
) -> Seq<char> {
    "{\"query\":"@ + spec_window_filter(index_name, gte, lte) + ",\"sort\":["@
        + spec_sort_json("timestamp"@, order) + "],\"size\":"@ + spec_decimal(size) + "}"@
}

/// At most `size` samples of one index inside a window, sorted by time.
pub fn window_samples_query(index_name: &str, gte: &str, lte: &str, size: u64, order: SortOrder) -> (r: String)
    ensures
        r@ == spec_window_samples_query(index_name@, gte@, lte@, size as nat, order),
{
    let sort: SortSpec = SortSpec { field: String::from_str("timestamp"), order };
    let mut s: String = String::from_str("{\"query\":");
    s.append(window_filter(index_name, gte, lte).as_str());
    s.append(",\"sort\":[");
    s.append(sort.to_es_json().as_str());
    s.append("],\"size\":");
    s.append(decimal_text(size).as_str());
    s.append("}");
    s
}

/// Largest number of indices that one terms aggregation reports.
pub const MAX_INDEX_BUCKETS: u64 = 10000;

pub open spec fn spec_boundary_query(gte: Seq<char>, lte: Seq<char>, order: SortOrder) -> Seq<char> {
    "{\"size\":0,\"query\":"@ + spec_range(gte, lte)
        + ",\"aggs\":{\"per_index\":{\"terms\":{\"field\":\"index_name.keyword\",\"size\":"@
        + spec_decimal(MAX_INDEX_BUCKETS as nat)
        + "},\"aggs\":{\"est_cnt\":{\"top_metrics\":{\"metrics\":[{\"field\":\"cnt\"},{\"field\":\"timestamp\"}],\"sort\":"@
        + spec_sort_json("timestamp"@, order) + ",\"size\":1}}}}}}"@
}

/// For every index, the sample nearest to one end of a window: the
/// earliest with `Asc`, the latest with `Desc`. The buckets are named
/// `per_index`.
pub fn boundary_query(gte: &str, lte: &str, order: SortOrder) -> (r: String)
    ensures
        r@ == spec_boundary_query(gte@, lte@, order),
{
    let sort: SortSpec = SortSpec { field: String::from_str("timestamp"), order };
    let mut s: String = String::from_str("{\"size\":0,\"query\":");
    s.append(range_text(gte, lte).as_str());
    s.append(",\"aggs\":{\"per_index\":{\"terms\":{\"field\":\"index_name.keyword\",\"size\":");
    s.append(decimal_text(MAX_INDEX_BUCKETS).as_str());
    s.append("},\"aggs\":{\"est_cnt\":{\"top_metrics\":{\"metrics\":[{\"field\":\"cnt\"},{\"field\":\"timestamp\"}],\"sort\":");
    s.append(sort.to_es_json().as_str());
    s.append(",\"size\":1}}}}}}");
    s
}

pub open spec fn spec_alarm_query(gte: Seq<char>, lte: Seq<char>) -> Seq<char> {
    "{\"size\":0,\"query\":"@ + spec_range(gte, lte)
        + ",\"aggs\":{\"index_names\":{\"terms\":{\"field\":\"index_name.keyword\",\"size\":"@
        + spec_decimal(MAX_INDEX_BUCKETS as nat)
        + "}},\"distinct_count\":{\"cardinality\":{\"field\":\"index_name.keyword\"}}}}"@
}

/// Alarm records per index inside a window (`index_names`), and the number
/// of distinct alarmed indices (`distinct_count`).
pub fn alarm_query(gte: &str, lte: &str) -> (r: String)
    ensures
        r@ == spec_alarm_query(gte@, lte@),
{
    let mut s: String = String::from_str("{\"size\":0,\"query\":");
    s.append(range_text(gte, lte).as_str());
    s.append(",\"aggs\":{\"index_names\":{\"terms\":{\"field\":\"index_name.keyword\",\"size\":");
    s.append(decimal_text(MAX_INDEX_BUCKETS).as_str());
    s.append("}},\"distinct_count\":{\"cardinality\":{\"field\":\"index_name.keyword\"}}}}");
    s
}

} // verus!
