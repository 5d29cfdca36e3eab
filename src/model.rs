//! Records of the monitoring store and the results of one evaluation.
use vstd::prelude::*;
use crate::detector::{abs_diff, Detection};

verus! {

/// Static settings of one monitored index.
#[derive(Clone, Debug)]
pub struct IndexConfig {
    pub index_name: String,
    /// Threshold of the fluctuation, in hundredths of a percent.
    pub allowable_fluctuation_range: u64,
    /// Length of the lookback window, in seconds.
    pub agg_term_sec: u64,
}

/// The monitored indices, in configuration order.
#[derive(Clone, Debug)]
pub struct IndexListConfig {
    pub index: Vec<IndexConfig>,
}

/// One observation of an index's document count, as persisted in the
/// monitoring store.
#[derive(Clone, Debug)]
pub struct AlertIndex {
    pub index_name: String,
    pub cnt: u64,
    pub prev_cnt: u64,
    pub cur_prev_diff: u64,
    /// ISO-8601 UTC, second precision, `Z`-suffixed.
    pub timestamp: String,
}

impl AlertIndex {
    /// The difference field agrees with the two counts.
    pub open spec fn wf(&self) -> bool {
        self.cur_prev_diff as int == abs_diff(self.cnt as int, self.prev_cnt as int)
    }

    /// Builds a sample from the current and the previous count.
    pub fn new(index_name: String, cnt: u64, prev_cnt: u64, timestamp: String) -> (r: AlertIndex)
        ensures
            r.wf(),
            r.index_name@ == index_name@,
            r.cnt == cnt,
            r.prev_cnt == prev_cnt,
            r.timestamp@ == timestamp@,
    {
        let cur_prev_diff: u64 = if cnt >= prev_cnt { cnt - prev_cnt } else { prev_cnt - cnt };
        AlertIndex { index_name, cnt, prev_cnt, cur_prev_diff, timestamp }
    }
}

/// A sample together with the id of the document that holds it.
#[derive(Clone, Debug)]
pub struct AlertIndexFormat {
    pub doc_id: String,
    pub alert_index: AlertIndex,
}

impl AlertIndexFormat {
    pub fn from_search_hit(doc_id: String, alert_index: AlertIndex) -> (r: AlertIndexFormat)
        ensures
            r.doc_id@ == doc_id@,
            r.alert_index == alert_index,
    {
        AlertIndexFormat { doc_id, alert_index }
    }
}

/// Result of evaluating one index in one cycle.
#[derive(Clone, Debug)]
pub struct LogIndexResult {
    pub index_name: String,
    pub alert_yn: bool,
    /// The samples of the window, present exactly when `alert_yn` holds.
    pub alert_index_format: Option<Vec<AlertIndex>>,
    /// Fluctuation in hundredths of a percent.
    pub fluctuation_val: u64,
    /// Newest count of the window when anomalous, else `0`.
    pub cur_cnt: u64,
}

impl LogIndexResult {
    /// History is kept exactly for anomalous results.
    pub open spec fn wf(&self) -> bool {
        self.alert_index_format.is_some() == self.alert_yn
    }

    /// Builds the result of an evaluation. `history` holds the samples of
    /// the window, newest first; it is kept only when the window is
    /// anomalous.
    pub fn from_detection(index_name: String, detection: Detection, history: Vec<AlertIndex>) -> (r: LogIndexResult)
        ensures
            r.wf(),
            r.index_name@ == index_name@,
            r.alert_yn == detection.anomalous,
            r.fluctuation_val == detection.fluctuation_hundredths,
            detection.anomalous ==> r.alert_index_format == Some(history),
            r.cur_cnt == (if detection.anomalous && history@.len() > 0 { history@[0].cnt } else { 0 }),
    {
        if detection.anomalous {
            let cur_cnt: u64 = if history.len() > 0 { history[0].cnt } else { 0 };
            LogIndexResult {
                index_name,
                alert_yn: true,
                alert_index_format: Some(history),
                fluctuation_val: detection.fluctuation_hundredths,
                cur_cnt,
            }
        } else {
            LogIndexResult {
                index_name,
                alert_yn: false,
                alert_index_format: None,
                fluctuation_val: detection.fluctuation_hundredths,
                cur_cnt: 0,
            }
        }
    }
}

/// Audit record written whenever an anomaly fires.
#[derive(Clone, Debug)]
pub struct AlarmLogHistoryIndex {
    pub index_name: String,
    pub index_cnt: u64,
    /// Fluctuation in hundredths of a percent.
    pub fluctuation_val: u64,
    pub timestamp: String,
}

impl AlarmLogHistoryIndex {
    /// The audit record of an anomalous result, stamped with `timestamp`.
    pub fn from_result(result: &LogIndexResult, timestamp: String) -> (r: AlarmLogHistoryIndex)
        ensures
            r.index_name@ == result.index_name@,
            r.index_cnt == result.cur_cnt,
            r.fluctuation_val == result.fluctuation_val,
            r.timestamp@ == timestamp@,
    {
        AlarmLogHistoryIndex {
            index_name: result.index_name.clone(),
            index_cnt: result.cur_cnt,
            fluctuation_val: result.fluctuation_val,
            timestamp,
        }
    }
}

} // verus!
