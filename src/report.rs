//! Assembly of the numbers of a periodic report.
use vstd::prelude::*;
use vstd::seq_lib::{commutative_foldl, lemma_fold_left_permutation};
use crate::detector::abs_diff;
use crate::model::IndexConfig;
use crate::response::{AlarmReportInfos, IndexCountAggResult, IndexNameCount};
use crate::scheduler::{get_days, spec_days, ReportType};
use crate::model::AlertIndex;
use crate::time::{calc_struct_to_strkor, formatted_utc, in_range, iso_pattern, parsed_utc_secs, minus_h, UtcTime, MIN_EPOCH_SECS};

verus! {

/// Sum of the counts of a boundary aggregation.
pub open spec fn sum_cnt(s: Seq<IndexCountAggResult>) -> nat
    decreases s.len(),
{
    if s.len() == 0 { 0 } else { sum_cnt(s.drop_last()) + s.last().cnt as nat }
}

/// Total of the per-index counts.
pub fn total_count(results: &Vec<IndexCountAggResult>) -> (r: u128)
    ensures
        r == sum_cnt(results@),
{
    let mut acc: u128 = 0;
    let mut i: usize = 0;
    while i < results.len()
        invariant
            i <= results@.len(),
            acc == sum_cnt(results@.take(i as int)),
            acc <= i * 0xffff_ffff_ffff_ffffu128,
        decreases results@.len() - i,
    {
        proof {
            assert(results@.take(i as int + 1).drop_last() =~= results@.take(i as int));
        }
        assert(acc + results[i as int].cnt <= (i + 1) * 0xffff_ffff_ffff_ffffu128) by (nonlinear_arith)
            requires acc <= i * 0xffff_ffff_ffff_ffffu128, results[i as int].cnt <= 0xffff_ffff_ffff_ffffu64;
        acc = acc + results[i].cnt as u128;
        i = i + 1;
    }
    assert(results@.take(i as int) =~= results@);
    acc
}

/// Absolute difference between the total at the start of a window and the
/// total at its end.
pub fn calc_start_end_index_cnt(
    start_time_all_index_cnt: &Vec<IndexCountAggResult>,
    end_time_all_index_cnt: &Vec<IndexCountAggResult>,
) -> (r: u128)
    ensures
        r == abs_diff(sum_cnt(start_time_all_index_cnt@) as int, sum_cnt(end_time_all_index_cnt@) as int),
{
    let s: u128 = total_count(start_time_all_index_cnt);
    let e: u128 = total_count(end_time_all_index_cnt);
    if s >= e { s - e } else { e - s }
}

/// Totals depend on the counts alone: two runs of the boundary aggregation
/// over the same closed range that answer the same counts report the same
/// totals.
pub proof fn lemma_boundary_totals_idempotent(a: Seq<IndexCountAggResult>, b: Seq<IndexCountAggResult>)
    requires
        a.len() == b.len(),
        forall|i: int| 0 <= i < a.len() ==> a[i].cnt == b[i].cnt,
    ensures
        sum_cnt(a) == sum_cnt(b),
    decreases a.len(),
{
    if a.len() > 0 {
        lemma_boundary_totals_idempotent(a.drop_last(), b.drop_last());
    }
}

/// Sum of the alarm counts of every bucket.
pub open spec fn sum_alarms(s: Seq<IndexNameCount>) -> nat
    decreases s.len(),
{
    if s.len() == 0 { 0 } else { sum_alarms(s.drop_last()) + s.last().count as nat }
}

/// Headline figures of a report.
#[derive(Clone, Copy, Debug, PartialEq, Eq)]
pub struct ReportTotals {
    pub start_total: u128,
    pub end_total: u128,
    /// `|end_total - start_total|`.
    pub total_difference: u128,
    /// Number of distinct indices that raised an alarm.
    pub alarmed_indices: u64,
    pub total_alarms: u128,
}

/// The headline figures of a report from the counts at both ends of its
/// window and the alarm buckets.
pub fn report_totals(
    start: &Vec<IndexCountAggResult>,
    end: &Vec<IndexCountAggResult>,
    alarms: &AlarmReportInfos,
) -> (r: ReportTotals)
    ensures
        r.start_total == sum_cnt(start@),
        r.end_total == sum_cnt(end@),
        r.total_difference == abs_diff(sum_cnt(start@) as int, sum_cnt(end@) as int),
        r.alarmed_indices == alarms.distinct_count_u64,
        r.total_alarms == sum_alarms(alarms.buckets@),
{
    let mut total_alarms: u128 = 0;
    let mut i: usize = 0;
    while i < alarms.buckets.len()
        invariant
            i <= alarms.buckets@.len(),
            total_alarms == sum_alarms(alarms.buckets@.take(i as int)),
            total_alarms <= i * 0xffff_ffff_ffff_ffffu128,
        decreases alarms.buckets@.len() - i,
    {
        proof {
            assert(alarms.buckets@.take(i as int + 1).drop_last() =~= alarms.buckets@.take(i as int));
        }
        assert(total_alarms + alarms.buckets[i as int].count <= (i + 1) * 0xffff_ffff_ffff_ffffu128) by (nonlinear_arith)
            requires
                total_alarms <= i * 0xffff_ffff_ffff_ffffu128,
                alarms.buckets[i as int].count <= 0xffff_ffff_ffff_ffffu64,
        ;
        total_alarms = total_alarms + alarms.buckets[i].count as u128;
        i = i + 1;
    }
    assert(alarms.buckets@.take(i as int) =~= alarms.buckets@);
    ReportTotals {
        start_total: total_count(start),
        end_total: total_count(end),
        total_difference: calc_start_end_index_cnt(start, end),
        alarmed_indices: alarms.distinct_count_u64,
        total_alarms,
    }
}

/// The counts of a boundary aggregation, in bucket order.
pub open spec fn counts_of(s: Seq<IndexCountAggResult>) -> Seq<int> {
    s.map_values(|x: IndexCountAggResult| x.cnt as int)
}

pub open spec fn add_count() -> spec_fn(int, int) -> int {
    |acc: int, c: int| acc + c
}

proof fn lemma_sum_is_fold(s: Seq<IndexCountAggResult>)
    ensures
        sum_cnt(s) as int == counts_of(s).fold_left(0, add_count()),
    decreases s.len(),
{
    if s.len() > 0 {
        lemma_sum_is_fold(s.drop_last());
        assert(counts_of(s).drop_last() =~= counts_of(s.drop_last()));
    }
}

/// Totals do not depend on the order of the buckets: two runs of the
/// boundary aggregation over the same closed range that report the same
/// counts, in any order, give the same totals and the same difference.
pub proof fn lemma_boundary_totals_order_free(
    s1: Seq<IndexCountAggResult>,
    s2: Seq<IndexCountAggResult>,
    e1: Seq<IndexCountAggResult>,
    e2: Seq<IndexCountAggResult>,
)
    requires
        counts_of(s1).to_multiset() == counts_of(s2).to_multiset(),
        counts_of(e1).to_multiset() == counts_of(e2).to_multiset(),
    ensures
        sum_cnt(s1) == sum_cnt(s2),
        sum_cnt(e1) == sum_cnt(e2),
        abs_diff(sum_cnt(s1) as int, sum_cnt(e1) as int) == abs_diff(sum_cnt(s2) as int, sum_cnt(e2) as int),
{
    assert(commutative_foldl(add_count()));
    lemma_sum_is_fold(s1);
    lemma_sum_is_fold(s2);
    lemma_sum_is_fold(e1);
    lemma_sum_is_fold(e2);
    lemma_fold_left_permutation(counts_of(s1), counts_of(s2), add_count(), 0);
    lemma_fold_left_permutation(counts_of(e1), counts_of(e2), add_count(), 0);
}

/// Count of the first result for the index `name`.
pub open spec fn spec_find_cnt(s: Seq<IndexCountAggResult>, name: Seq<char>) -> Option<u64>
    decreases s.len(),
{
    if s.len() == 0 {
        None
    } else if s[0].index_name@ == name {
        Some(s[0].cnt)
    } else {
        spec_find_cnt(s.drop_first(), name)
    }
}

/// Alarm count of the first bucket for the index `name`, `0` when none.
pub open spec fn spec_find_alarms(s: Seq<IndexNameCount>, name: Seq<char>) -> u64
    decreases s.len(),
{
    if s.len() == 0 {
        0
    } else if s[0].name@ == name {
        s[0].count
    } else {
        spec_find_alarms(s.drop_first(), name)
    }
}

fn find_cnt(s: &Vec<IndexCountAggResult>, name: &String) -> (r: Option<u64>)
    ensures
        r == spec_find_cnt(s@, name@),
{
    let mut i: usize = 0;
    assert(s@.subrange(0, s@.len() as int) =~= s@);
    while i < s.len()
        invariant
            i <= s@.len(),
            spec_find_cnt(s@, name@) == spec_find_cnt(s@.subrange(i as int, s@.len() as int), name@),
        decreases s@.len() - i,
    {
        assert(s@.subrange(i as int, s@.len() as int).drop_first() =~= s@.subrange(i as int + 1, s@.len() as int));
        if s[i].index_name == *name {
            return Some(s[i].cnt);
        }
        i = i + 1;
    }
    None
}

fn find_alarms(s: &Vec<IndexNameCount>, name: &String) -> (r: u64)
    ensures
        r == spec_find_alarms(s@, name@),
{
    let mut i: usize = 0;
    assert(s@.subrange(0, s@.len() as int) =~= s@);
    while i < s.len()
        invariant
            i <= s@.len(),
            spec_find_alarms(s@, name@) == spec_find_alarms(s@.subrange(i as int, s@.len() as int), name@),
        decreases s@.len() - i,
    {
        assert(s@.subrange(i as int, s@.len() as int).drop_first() =~= s@.subrange(i as int + 1, s@.len() as int));
        if s[i].name == *name {
            return s[i].count;
        }
        i = i + 1;
    }
    0
}

/// A change relative to a base, in hundredths of a percent, rounded half
/// up; `0` when the base is `0`.
pub open spec fn spec_change_hundredths(diff: int, base: int) -> int {
    if base <= 0 { 0 } else { (20000 * diff + base) / (2 * base) }
}

fn change_hundredths(diff: u64, base: u64) -> (r: u128)
    ensures
        r == spec_change_hundredths(diff as int, base as int),
{
    if base == 0 {
        0
    } else {
        assert(20000 * (diff as u128) + base as u128 <= 20001 * 0xffff_ffff_ffff_ffffu128) by (nonlinear_arith)
            requires diff <= 0xffff_ffff_ffff_ffffu64, base <= 0xffff_ffff_ffff_ffffu64;
        (20000 * (diff as u128) + base as u128) / (2 * base as u128)
    }
}

/// One row of the per-index table of a report.
#[derive(Clone, Debug)]
pub struct AlarmIndexDetailInfo {
    pub index_name: String,
    pub start_index_cnt: u64,
    pub end_index_cnt: u64,
    pub difference: u64,
    /// Change relative to the start count, in hundredths of a percent.
    pub difference_percent: u128,
    pub alarm_cnt: u64,
}

/// Name, start count, end count and alarm count of a row.
pub type DetailView = (Seq<char>, u64, u64, u64);

pub open spec fn detail_view(r: AlarmIndexDetailInfo) -> DetailView {
    (r.index_name@, r.start_index_cnt, r.end_index_cnt, r.alarm_cnt)
}

/// The derived columns of a row agree with its counts.
pub open spec fn detail_consistent(r: AlarmIndexDetailInfo) -> bool {
    &&& r.difference == abs_diff(r.start_index_cnt as int, r.end_index_cnt as int)
    &&& r.difference_percent == spec_change_hundredths(r.difference as int, r.start_index_cnt as int)
}

/// The row of one configured index: present when both boundaries report it.
pub open spec fn spec_detail(
    cfg: IndexConfig,
    start: Seq<IndexCountAggResult>,
    end: Seq<IndexCountAggResult>,
    alarms: Seq<IndexNameCount>,
) -> Option<DetailView> {
    let s = spec_find_cnt(start, cfg.index_name@);
    let e = spec_find_cnt(end, cfg.index_name@);
    if s is Some && e is Some {
        Some((cfg.index_name@, s->Some_0, e->Some_0, spec_find_alarms(alarms, cfg.index_name@)))
    } else {
        None
    }
}

/// Rows of the configured indices, in configuration order.
pub open spec fn spec_details(
    cfgs: Seq<IndexConfig>,
    start: Seq<IndexCountAggResult>,
    end: Seq<IndexCountAggResult>,
    alarms: Seq<IndexNameCount>,
) -> Seq<DetailView>
    decreases cfgs.len(),
{
    if cfgs.len() == 0 {
        Seq::empty()
    } else {
        let prefix = spec_details(cfgs.drop_last(), start, end, alarms);
        match spec_detail(cfgs.last(), start, end, alarms) {
            Some(v) => prefix.push(v),
            None => prefix,
        }
    }
}

/// The per-index rows of a report: one per configured index that both
/// boundaries report; an index missing from either is left out.
pub fn generate_alarm_index_details(
    index_list: &Vec<IndexConfig>,
    alarm_report_infos: &AlarmReportInfos,
    start_time_all_index_info: &Vec<IndexCountAggResult>,
    end_time_all_index_info: &Vec<IndexCountAggResult>,
) -> (r: Vec<AlarmIndexDetailInfo>)
    ensures
        r@.map_values(|x: AlarmIndexDetailInfo| detail_view(x)) == spec_details(
            index_list@, start_time_all_index_info@, end_time_all_index_info@, alarm_report_infos.buckets@),
        forall|i: int| 0 <= i < r@.len() ==> detail_consistent(#[trigger] r@[i]),
{
    let ghost st = start_time_all_index_info@;
    let ghost en = end_time_all_index_info@;
    let ghost al = alarm_report_infos.buckets@;
    let mut out: Vec<AlarmIndexDetailInfo> = Vec::new();
    let mut i: usize = 0;
    while i < index_list.len()
        invariant
            i <= index_list@.len(),
            st == start_time_all_index_info@,
            en == end_time_all_index_info@,
            al == alarm_report_infos.buckets@,
            out@.map_values(|x: AlarmIndexDetailInfo| detail_view(x)) == spec_details(index_list@.take(i as int), st, en, al),
            forall|k: int| 0 <= k < out@.len() ==> detail_consistent(#[trigger] out@[k]),
        decreases index_list@.len() - i,
    {
        let ghost before = out@;
        let name: &String = &index_list[i].index_name;
        proof {
            assert(index_list@.take(i as int + 1).drop_last() =~= index_list@.take(i as int));
            assert(index_list@.take(i as int + 1).last() == index_list@[i as int]);
        }
        let s: Option<u64> = find_cnt(start_time_all_index_info, name);
        let e: Option<u64> = find_cnt(end_time_all_index_info, name);
        match (s, e) {
            (Some(s), Some(e)) => {
                let difference: u64 = if s >= e { s - e } else { e - s };
                let row: AlarmIndexDetailInfo = AlarmIndexDetailInfo {
                    index_name: name.clone(),
                    start_index_cnt: s,
                    end_index_cnt: e,
                    difference,
                    difference_percent: change_hundredths(difference, s),
                    alarm_cnt: find_alarms(&alarm_report_infos.buckets, name),
                };
                out.push(row);
                assert(out@.map_values(|x: AlarmIndexDetailInfo| detail_view(x))
                    =~= before.map_values(|x: AlarmIndexDetailInfo| detail_view(x)).push(detail_view(row)));
            },
            _ => {},
        }
        i = i + 1;
    }
    assert(index_list@.take(i as int) =~= index_list@);
    out
}

/// One row of the max-swing table of a report.
#[derive(Clone, Debug)]
pub struct AlarmIndexDiffDetailInfo {
    pub index_name: String,
    pub max_index_cnt: u64,
    pub min_index_cnt: u64,
    pub difference: u64,
    /// Swing relative to the smallest count (to `1` when that is `0`), in
    /// hundredths of a percent.
    pub difference_percent: u128,
}

pub open spec fn spec_swing_base(min: u64) -> int {
    if min == 0 { 1 } else { min as int }
}

/// The max-swing rows: `min_max[i]` is the smallest and largest count of
/// `index_list[i]` over the report window.
pub fn generate_alram_index_diff_details(
    index_list: &Vec<IndexConfig>,
    min_max: &Vec<(u64, u64)>,
) -> (r: Vec<AlarmIndexDiffDetailInfo>)
    requires
        min_max@.len() == index_list@.len(),
    ensures
        r@.len() == index_list@.len(),
        forall|i: int| 0 <= i < r@.len() ==> {
            let (mn, mx) = min_max@[i];
            &&& (#[trigger] r@[i]).index_name@ == index_list@[i].index_name@
            &&& r@[i].min_index_cnt == mn
            &&& r@[i].max_index_cnt == mx
            &&& r@[i].difference == abs_diff(mn as int, mx as int)
            &&& r@[i].difference_percent == spec_change_hundredths(r@[i].difference as int, spec_swing_base(mn))
        },
{
    let mut out: Vec<AlarmIndexDiffDetailInfo> = Vec::new();
    let mut i: usize = 0;
    while i < index_list.len()
        invariant
            min_max@.len() == index_list@.len(),
            i <= index_list@.len(),
            out@.len() == i,
            forall|k: int| 0 <= k < i ==> {
                let (mn, mx) = min_max@[k];
                &&& (#[trigger] out@[k]).index_name@ == index_list@[k].index_name@
                &&& out@[k].min_index_cnt == mn
                &&& out@[k].max_index_cnt == mx
                &&& out@[k].difference == abs_diff(mn as int, mx as int)
                &&& out@[k].difference_percent == spec_change_hundredths(out@[k].difference as int, spec_swing_base(mn))
            },
        decreases index_list@.len() - i,
    {
        let (mn, mx): (u64, u64) = min_max[i];
        let difference: u64 = if mx >= mn { mx - mn } else { mn - mx };
        let base: u64 = if mn == 0 { 1 } else { mn };
        out.push(AlarmIndexDiffDetailInfo {
            index_name: index_list[i].index_name.clone(),
            max_index_cnt: mx,
            min_index_cnt: mn,
            difference,
            difference_percent: change_hundredths(difference, base),
        });
        i = i + 1;
    }
    out
}

/// The window that a report covers: it ends at `end` and spans the
/// cadence's number of days.
pub fn report_window(end: UtcTime, report_type: ReportType) -> (r: UtcTime)
    requires
        end.wf(),
        end.secs - 86400 * spec_days(report_type) >= MIN_EPOCH_SECS,
    ensures
        r.wf(),
        r.secs == end.secs - 3600 * (24 * spec_days(report_type)),
{
    let hours: u64 = get_days(report_type) * 24;
    minus_h(end, hours)
}

/// Health of an index over a report period.
#[derive(Clone, Copy, Debug, PartialEq, Eq)]
pub enum IndexStatus {
    Normal,
    Warning,
    Critical,
}

pub open spec fn spec_status(alert_count: int) -> IndexStatus {
    if alert_count > 10 {
        IndexStatus::Critical
    } else if alert_count > 0 {
        IndexStatus::Warning
    } else {
        IndexStatus::Normal
    }
}

/// Per-index figures of a report period.
#[derive(Clone, Debug)]
pub struct IndexDailyStats {
    pub index_name: String,
    pub start_count: u64,
    pub end_count: u64,
    /// `end_count - start_count`.
    pub change: i128,
    /// Change relative to the start count, in hundredths of a percent,
    /// truncated toward zero; `0` when the start count is `0`.
    pub change_percentage: i128,
    pub alert_count: u64,
    pub status: IndexStatus,
}

impl IndexDailyStats {
    pub fn new(index_name: String, start_count: u64, end_count: u64, alert_count: u64) -> (r: IndexDailyStats)
        ensures
            r.index_name@ == index_name@,
            r.start_count == start_count,
            r.end_count == end_count,
            r.change == end_count - start_count,
            r.change_percentage == (if start_count == 0 { 0 } else {
                if end_count >= start_count {
                    (10000 * (end_count - start_count)) / (start_count as int)
                } else {
                    -((10000 * (start_count - end_count)) / (start_count as int))
                }
            }),
            r.alert_count == alert_count,
            r.status == spec_status(alert_count as int),
    {
        let change: i128 = end_count as i128 - start_count as i128;
        let change_percentage: i128 = if start_count == 0 {
            0
        } else if end_count >= start_count {
            ((10000 * (end_count - start_count) as u128) / start_count as u128) as i128
        } else {
            -(((10000 * (start_count - end_count) as u128) / start_count as u128) as i128)
        };
        let status: IndexStatus = if alert_count > 10 {
            IndexStatus::Critical
        } else if alert_count > 0 {
            IndexStatus::Warning
        } else {
            IndexStatus::Normal
        };
        IndexDailyStats { index_name, start_count, end_count, change, change_percentage, alert_count, status }
    }
}

/// Totals of a report period.
#[derive(Clone, Copy, Debug, PartialEq, Eq)]
pub struct ReportSummary {
    pub total_indices: usize,
    pub total_documents_start: u128,
    pub total_documents_end: u128,
    pub total_change: i128,
    pub indices_with_alerts: usize,
    pub total_alerts: u128,
}

pub open spec fn sum_start(s: Seq<IndexDailyStats>) -> int
    decreases s.len(),
{
    if s.len() == 0 { 0 } else { sum_start(s.drop_last()) + s.last().start_count }
}

pub open spec fn sum_end(s: Seq<IndexDailyStats>) -> int
    decreases s.len(),
{
    if s.len() == 0 { 0 } else { sum_end(s.drop_last()) + s.last().end_count }
}

pub open spec fn sum_alerts(s: Seq<IndexDailyStats>) -> int
    decreases s.len(),
{
    if s.len() == 0 { 0 } else { sum_alerts(s.drop_last()) + s.last().alert_count }
}

pub open spec fn count_alerted(s: Seq<IndexDailyStats>) -> int
    decreases s.len(),
{
    if s.len() == 0 { 0 } else { count_alerted(s.drop_last()) + if s.last().alert_count > 0 { 1int } else { 0 } }
}

impl ReportSummary {
    /// Sums the per-index figures.
    pub fn calculate(index_stats: &Vec<IndexDailyStats>) -> (r: ReportSummary)
        requires
            index_stats@.len() <= isize::MAX,
        ensures
            r.total_indices == index_stats@.len(),
            r.total_documents_start == sum_start(index_stats@),
            r.total_documents_end == sum_end(index_stats@),
            r.total_change == sum_end(index_stats@) - sum_start(index_stats@),
            r.indices_with_alerts == count_alerted(index_stats@),
            r.total_alerts == sum_alerts(index_stats@),
    {
        let mut start: u128 = 0;
        let mut end: u128 = 0;
        let mut alerts: u128 = 0;
        let mut alerted: usize = 0;
        let mut i: usize = 0;
        while i < index_stats.len()
            invariant
                i <= index_stats@.len(),
                start == sum_start(index_stats@.take(i as int)),
                end == sum_end(index_stats@.take(i as int)),
                alerts == sum_alerts(index_stats@.take(i as int)),
                alerted == count_alerted(index_stats@.take(i as int)),
                start <= i * 0xffff_ffff_ffff_ffffu128,
                end <= i * 0xffff_ffff_ffff_ffffu128,
                alerts <= i * 0xffff_ffff_ffff_ffffu128,
                alerted <= i,
            decreases index_stats@.len() - i,
        {
            let s: &IndexDailyStats = &index_stats[i];
            proof {
                assert(index_stats@.take(i as int + 1).drop_last() =~= index_stats@.take(i as int));
            }
            assert(start + s.start_count <= (i + 1) * 0xffff_ffff_ffff_ffffu128) by (nonlinear_arith)
                requires start <= i * 0xffff_ffff_ffff_ffffu128, s.start_count <= 0xffff_ffff_ffff_ffffu64;
            assert(end + s.end_count <= (i + 1) * 0xffff_ffff_ffff_ffffu128) by (nonlinear_arith)
                requires end <= i * 0xffff_ffff_ffff_ffffu128, s.end_count <= 0xffff_ffff_ffff_ffffu64;
            assert(alerts + s.alert_count <= (i + 1) * 0xffff_ffff_ffff_ffffu128) by (nonlinear_arith)
                requires alerts <= i * 0xffff_ffff_ffff_ffffu128, s.alert_count <= 0xffff_ffff_ffff_ffffu64;
            start = start + s.start_count as u128;
            end = end + s.end_count as u128;
            alerts = alerts + s.alert_count as u128;
            if s.alert_count > 0 {
                alerted = alerted + 1;
            }
            i = i + 1;
        }
        assert(index_stats@.take(i as int) =~= index_stats@);
        // a vector never holds more than `isize::MAX` elements, so both
        // sums stay below 2^127 and their difference fits an `i128`
        assert(end <= 0x7fff_ffff_ffff_ffffu128 * 0xffff_ffff_ffff_ffffu128) by (nonlinear_arith)
            requires end <= i * 0xffff_ffff_ffff_ffffu128, i <= 0x7fff_ffff_ffff_ffffu64;
        assert(start <= 0x7fff_ffff_ffff_ffffu128 * 0xffff_ffff_ffff_ffffu128) by (nonlinear_arith)
            requires start <= i * 0xffff_ffff_ffff_ffffu128, i <= 0x7fff_ffff_ffff_ffffu64;
        ReportSummary {
            total_indices: index_stats.len(),
            total_documents_start: start,
            total_documents_end: end,
            total_change: end as i128 - start as i128,
            indices_with_alerts: alerted,
            total_alerts: alerts,
        }
    }
}

/// `b` is `a` with its timestamp shown in local time when it reads as an
/// instant, and unchanged otherwise.
pub open spec fn localized(a: AlertIndex, b: AlertIndex) -> bool {
    &&& b.index_name@ == a.index_name@
    &&& b.cnt == a.cnt
    &&& b.prev_cnt == a.prev_cnt
    &&& b.cur_prev_diff == a.cur_prev_diff
    &&& match parsed_utc_secs(a.timestamp@) {
        Some(v) => if in_range(v) {
            exists|off: int| -86400 < off < 86400 && b.timestamp@ == #[trigger] formatted_utc(v + off, iso_pattern())
        } else {
            b.timestamp@ == a.timestamp@
        },
        None => b.timestamp@ == a.timestamp@,
    }
}

/// The samples of a report with their timestamps shown in local time; a
/// timestamp that does not read as an instant is kept as it is.
pub fn localize_samples(samples: &Vec<AlertIndex>) -> (r: Vec<AlertIndex>)
    ensures
        r@.len() == samples@.len(),
        forall|i: int| 0 <= i < r@.len() ==> localized(samples@[i], #[trigger] r@[i]),
{
    let mut out: Vec<AlertIndex> = Vec::new();
    let mut i: usize = 0;
    while i < samples.len()
        invariant
            i <= samples@.len(),
            out@.len() == i,
            forall|k: int| 0 <= k < i ==> localized(samples@[k], #[trigger] out@[k]),
        decreases samples@.len() - i,
    {
        let a: &AlertIndex = &samples[i];
        let timestamp: String = match calc_struct_to_strkor(a.timestamp.as_str()) {
            Ok(local) => local,
            Err(_) => a.timestamp.clone(),
        };
        let b: AlertIndex = AlertIndex {
            index_name: a.index_name.clone(),
            cnt: a.cnt,
            prev_cnt: a.prev_cnt,
            cur_prev_diff: a.cur_prev_diff,
            timestamp,
        };
        assert(localized(*a, b));
        out.push(b);
        i = i + 1;
    }
    out
}

/// Largest count that a chart can plot.
pub open spec fn plotted(cnt: u64) -> i64 {
    if cnt <= i64::MAX as u64 { cnt as i64 } else { i64::MAX }
}

/// Points of an index's history chart: the timestamps as labels and the
/// counts as values, in the order of the samples.
pub fn chart_series(samples: &Vec<AlertIndex>) -> (r: (Vec<String>, Vec<i64>))
    ensures
        r.0@.len() == samples@.len(),
        r.1@.len() == samples@.len(),
        forall|i: int| 0 <= i < samples@.len() ==> (#[trigger] r.0@[i])@ == samples@[i].timestamp@,
        forall|i: int| 0 <= i < samples@.len() ==> #[trigger] r.1@[i] == plotted(samples@[i].cnt),
{
    let mut labels: Vec<String> = Vec::new();
    let mut values: Vec<i64> = Vec::new();
    let mut i: usize = 0;
    while i < samples.len()
        invariant
            i <= samples@.len(),
            labels@.len() == i,
            values@.len() == i,
            forall|k: int| 0 <= k < i ==> (#[trigger] labels@[k])@ == samples@[k].timestamp@,
            forall|k: int| 0 <= k < i ==> #[trigger] values@[k] == plotted(samples@[k].cnt),
        decreases samples@.len() - i,
    {
        labels.push(samples[i].timestamp.clone());
        let c: u64 = samples[i].cnt;
        values.push(if c <= i64::MAX as u64 { c as i64 } else { i64::MAX });
        i = i + 1;
    }
    (labels, values)
}

/// Smallest value of a non-empty sequence.
pub open spec fn seq_min(s: Seq<i64>) -> int
    decreases s.len(),
{
    if s.len() <= 1 {
        s[0] as int
    } else if (s.last() as int) < seq_min(s.drop_last()) {
        s.last() as int
    } else {
        seq_min(s.drop_last())
    }
}

/// Largest value of a non-empty sequence.
pub open spec fn seq_max(s: Seq<i64>) -> int
    decreases s.len(),
{
    if s.len() <= 1 {
        s[0] as int
    } else if (s.last() as int) > seq_max(s.drop_last()) {
        s.last() as int
    } else {
        seq_max(s.drop_last())
    }
}

/// Padding of a chart's y-axis: a tenth of the range, at least `1`.
pub open spec fn spec_pad(lo: int, hi: int) -> int {
    if (hi - lo) / 10 >= 1 { (hi - lo) / 10 } else { 1 }
}

/// The figures of one report period.
#[derive(Clone, Debug)]
pub struct DailyReport {
    pub date: String,
    pub summary: ReportSummary,
    pub index_stats: Vec<IndexDailyStats>,
}

impl DailyReport {
    /// A report dated `date` over the given per-index figures, with their
    /// totals.
    pub fn new(date: String, index_stats: Vec<IndexDailyStats>) -> (r: DailyReport)
        requires
            index_stats@.len() <= isize::MAX,
        ensures
            r.date@ == date@,
            r.index_stats@ == index_stats@,
            r.summary.total_indices == index_stats@.len(),
            r.summary.total_documents_start == sum_start(index_stats@),
            r.summary.total_documents_end == sum_end(index_stats@),
            r.summary.total_change == sum_end(index_stats@) - sum_start(index_stats@),
            r.summary.indices_with_alerts == count_alerted(index_stats@),
            r.summary.total_alerts == sum_alerts(index_stats@),
    {
        let summary: ReportSummary = ReportSummary::calculate(&index_stats);
        DailyReport { date, summary, index_stats }
    }
}

/// Y-axis range of a chart: the values' range padded by a tenth of its
/// width (at least `1`), floored at `0`; `(0, 100)` when there is no value.
pub fn calculate_y_range(values: &Vec<i64>) -> (r: (i64, i64))
    requires
        forall|i: int| 0 <= i < values@.len() ==> 0 <= #[trigger] values@[i] <= 0x3fff_ffff_ffff_ffffi64,
    ensures
        values@.len() == 0 ==> r == (0i64, 100i64),
        values@.len() > 0 ==> {
            let lo = seq_min(values@);
            let hi = seq_max(values@);
            let pad = spec_pad(lo, hi);
            r.0 == (if lo - pad > 0 { lo - pad } else { 0 }) && r.1 == hi + pad
        },
{
    if values.len() == 0 {
        return (0, 100);
    }
    let mut lo: i64 = values[0];
    let mut hi: i64 = values[0];
    let mut i: usize = 1;
    assert(values@.take(1).drop_last().len() == 0);
    while i < values.len()
        invariant
            1 <= i <= values@.len(),
            forall|k: int| 0 <= k < values@.len() ==> 0 <= #[trigger] values@[k] <= 0x3fff_ffff_ffff_ffffi64,
            lo == seq_min(values@.take(i as int)),
            hi == seq_max(values@.take(i as int)),
            0 <= lo <= hi <= 0x3fff_ffff_ffff_ffffi64,
        decreases values@.len() - i,
    {
        proof {
            assert(values@.take(i as int + 1).drop_last() =~= values@.take(i as int));
            assert(values@.take(i as int + 1).last() == values@[i as int]);
        }
        if values[i] < lo {
            lo = values[i];
        }
        if values[i] > hi {
            hi = values[i];
        }
        i = i + 1;
    }
    assert(values@.take(i as int) =~= values@);
    let pad: i64 = if (hi - lo) / 10 >= 1 { (hi - lo) / 10 } else { 1 };
    let y_min: i64 = if lo - pad > 0 { lo - pad } else { 0 };
    (y_min, hi + pad)
}

} // verus!
