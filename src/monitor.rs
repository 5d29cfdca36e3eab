//! Decisions of the tracking monitor.
//!
//! One cycle samples every configured index, evaluates the window of each,
//! records an audit entry per anomaly and sends one batched alert. The
//! driver performs the I/O and hands the outcomes to these functions.
use vstd::prelude::*;
use crate::detector::{detect, fluctuation_hundredths, is_anomalous, Detection};
use crate::model::{AlarmLogHistoryIndex, AlertIndex, IndexConfig, LogIndexResult};

verus! {

/// What became of one index in the sampling phase.
#[derive(Clone, Debug)]
pub enum SampleOutcome {
    /// The sample to persist.
    Persist(AlertIndex),
    /// The count could not be had; the index is tried again next cycle.
    Skipped { index_name: String, reason: String },
}

/// The outcome that index `cfg` gets from its count and previous count.
pub open spec fn spec_outcome_ok(
    cfg: IndexConfig,
    count: Result<u64, String>,
    previous: Option<u64>,
    timestamp: Seq<char>,
    out: SampleOutcome,
) -> bool {
    match count {
        Ok(c) => out matches SampleOutcome::Persist(s) && {
            &&& s.wf()
            &&& s.index_name@ == cfg.index_name@
            &&& s.cnt == c
            &&& s.prev_cnt == (match previous { Some(p) => p, None => 0 })
            &&& s.timestamp@ == timestamp
        },
        Err(e) => out matches SampleOutcome::Skipped { index_name, reason } && {
            &&& index_name@ == cfg.index_name@
            &&& reason@ == e@
        },
    }
}

/// Decides the sampling phase. `counts[i]` is the document count of
/// `indices[i]` or why it could not be had; `previous[i]` is its last
/// persisted count, if any. An index whose count failed is skipped without
/// affecting the others.
pub fn plan_sampling(
    indices: &Vec<IndexConfig>,
    counts: &Vec<Result<u64, String>>,
    previous: &Vec<Option<u64>>,
    timestamp: &String,
) -> (r: Vec<SampleOutcome>)
    requires
        counts@.len() == indices@.len(),
        previous@.len() == indices@.len(),
    ensures
        r@.len() == indices@.len(),
        forall|i: int| 0 <= i < r@.len()
            ==> spec_outcome_ok(indices@[i], counts@[i], previous@[i], timestamp@, #[trigger] r@[i]),
{
    let mut out: Vec<SampleOutcome> = Vec::new();
    let mut i: usize = 0;
    while i < indices.len()
        invariant
            counts@.len() == indices@.len(),
            previous@.len() == indices@.len(),
            i <= indices@.len(),
            out@.len() == i,
            forall|k: int| 0 <= k < i
                ==> spec_outcome_ok(indices@[k], counts@[k], previous@[k], timestamp@, #[trigger] out@[k]),
        decreases indices@.len() - i,
    {
        let name: String = indices[i].index_name.clone();
        let outcome: SampleOutcome = match &counts[i] {
            Ok(c) => {
                let prev: u64 = match previous[i] {
                    Some(p) => p,
                    None => 0,
                };
                SampleOutcome::Persist(AlertIndex::new(name, *c, prev, timestamp.clone()))
            },
            Err(e) => SampleOutcome::Skipped { index_name: name, reason: e.clone() },
        };
        out.push(outcome);
        i = i + 1;
    }
    out
}

/// The outcome of an index depends on its own count alone: an index whose
/// count failed in one cycle is sampled in the next cycle in which its count
/// is had, like every configured index.
pub proof fn lemma_sampled_when_count_had(
    cfg: IndexConfig,
    count: u64,
    previous: Option<u64>,
    timestamp: Seq<char>,
    out: SampleOutcome,
)
    requires
        spec_outcome_ok(cfg, Ok(count), previous, timestamp, out),
    ensures
        out matches SampleOutcome::Persist(s) && s.wf() && s.cnt == count && s.index_name@ == cfg.index_name@,
{
}

/// Evaluates the window of one index from its smallest and largest count.
pub fn evaluate_window(index_config: &IndexConfig, min: u64, max: u64) -> (r: Detection)
    ensures
        r.fluctuation_hundredths == fluctuation_hundredths(min as int, max as int),
        r.anomalous == is_anomalous(min as int, max as int, index_config.allowable_fluctuation_range as int),
{
    detect(min, max, index_config.allowable_fluctuation_range)
}

/// Selects the anomalous results.
/// The result of one index's window: `min` and `max` are its smallest and
/// largest count; `history` holds its samples, newest first, and is kept
/// only when the window is anomalous.
pub fn get_alert_infos_from_log_index(
    index_config: &IndexConfig,
    min: u64,
    max: u64,
    history: Vec<AlertIndex>,
) -> (r: LogIndexResult)
    ensures
        r.wf(),
        r.index_name@ == index_config.index_name@,
        r.alert_yn == is_anomalous(min as int, max as int, index_config.allowable_fluctuation_range as int),
        r.fluctuation_val == fluctuation_hundredths(min as int, max as int),
        r.alert_yn ==> r.alert_index_format == Some(history),
        r.cur_cnt == (if r.alert_yn && history@.len() > 0 { history@[0].cnt } else { 0 }),
{
    let detection: Detection = evaluate_window(index_config, min, max);
    LogIndexResult::from_detection(index_config.index_name.clone(), detection, history)
}

pub open spec fn is_alert() -> spec_fn(LogIndexResult) -> bool {
    |r: LogIndexResult| r.alert_yn
}

/// Keeps the anomalous results, in their order.
pub fn detect_abnormal_index_changes(results: Vec<LogIndexResult>) -> (r: Vec<LogIndexResult>)
    ensures
        r@ == results@.filter(is_alert()),
{
    let ghost orig = results@;
    let n: usize = results.len();
    let mut rest: Vec<LogIndexResult> = results;
    let mut out: Vec<LogIndexResult> = Vec::new();
    let mut i: usize = 0;
    while rest.len() > 0
        invariant
            i + rest@.len() == orig.len(),
            orig.len() == n,
            rest@ == orig.subrange(i as int, orig.len() as int),
            out@ == orig.take(i as int).filter(is_alert()),
        decreases rest@.len(),
    {
        let x: LogIndexResult = rest.remove(0);
        proof {
            assert(x == orig[i as int]);
            assert(orig.take(i as int + 1).drop_last() =~= orig.take(i as int));
            assert(orig.take(i as int + 1).last() == x);
            let p = is_alert();
            reveal(Seq::filter);
            assert(orig.take(i as int + 1).filter(p) == (if p(x) {
                orig.take(i as int).filter(p).push(x)
            } else {
                orig.take(i as int).filter(p)
            }));
        }
        if x.alert_yn {
            out.push(x);
        }
        i = i + 1;
        assert(rest@ =~= orig.subrange(i as int, orig.len() as int));
    }
    assert(orig.take(i as int) =~= orig);
    out
}

/// The anomalous results among a cycle's evaluations, in order; an index
/// whose evaluation failed is left out.
pub open spec fn spec_alerts(s: Seq<Result<LogIndexResult, String>>) -> Seq<LogIndexResult>
    decreases s.len(),
{
    if s.len() == 0 {
        Seq::empty()
    } else {
        let prefix = spec_alerts(s.drop_last());
        match s.last() {
            Ok(r) => if r.alert_yn { prefix.push(r) } else { prefix },
            Err(_) => prefix,
        }
    }
}

/// Keeps the anomalous results of a cycle, skipping every index whose
/// evaluation failed so that the others still alert.
pub fn collect_alerts(evaluations: Vec<Result<LogIndexResult, String>>) -> (r: Vec<LogIndexResult>)
    ensures
        r@ == spec_alerts(evaluations@),
{
    let ghost orig = evaluations@;
    let n: usize = evaluations.len();
    let mut rest: Vec<Result<LogIndexResult, String>> = evaluations;
    let mut out: Vec<LogIndexResult> = Vec::new();
    let mut i: usize = 0;
    while rest.len() > 0
        invariant
            i + rest@.len() == orig.len(),
            orig.len() == n,
            rest@ == orig.subrange(i as int, orig.len() as int),
            out@ == spec_alerts(orig.take(i as int)),
        decreases rest@.len(),
    {
        let x: Result<LogIndexResult, String> = rest.remove(0);
        proof {
            assert(x == orig[i as int]);
            assert(orig.take(i as int + 1).drop_last() =~= orig.take(i as int));
            assert(orig.take(i as int + 1).last() == x);
        }
        match x {
            Ok(r) => if r.alert_yn {
                out.push(r);
            },
            Err(_) => {},
        }
        i = i + 1;
        assert(rest@ =~= orig.subrange(i as int, orig.len() as int));
    }
    assert(orig.take(i as int) =~= orig);
    out
}

/// One audit record per anomalous result, all stamped with `timestamp`.
pub fn alarm_history_records(results: &Vec<LogIndexResult>, timestamp: &String) -> (r: Vec<AlarmLogHistoryIndex>)
    ensures
        r@.len() == results@.len(),
        forall|i: int| 0 <= i < r@.len() ==> {
            &&& (#[trigger] r@[i]).index_name@ == results@[i].index_name@
            &&& r@[i].index_cnt == results@[i].cur_cnt
            &&& r@[i].fluctuation_val == results@[i].fluctuation_val
            &&& r@[i].timestamp@ == timestamp@
        },
{
    let mut out: Vec<AlarmLogHistoryIndex> = Vec::new();
    let mut i: usize = 0;
    while i < results.len()
        invariant
            i <= results@.len(),
            out@.len() == i,
            forall|k: int| 0 <= k < i ==> {
                &&& (#[trigger] out@[k]).index_name@ == results@[k].index_name@
                &&& out@[k].index_cnt == results@[k].cur_cnt
                &&& out@[k].fluctuation_val == results@[k].fluctuation_val
                &&& out@[k].timestamp@ == timestamp@
            },
        decreases results@.len() - i,
    {
        out.push(AlarmLogHistoryIndex::from_result(&results[i], timestamp.clone()));
        i = i + 1;
    }
    out
}

/// Position of the monitor within one cycle.
#[derive(Clone, Copy, Debug, PartialEq, Eq)]
pub enum MonitorPhase {
    /// Waiting for the next tick.
    Idle,
    Sampling,
    Detecting,
    LoggingHistory,
    Alerting,
}

/// What the driver reports back.
#[derive(Clone, Copy, Debug, PartialEq, Eq)]
pub enum MonitorEvent {
    Tick,
    /// The sampling step ended; `failed` when it failed as a whole.
    SamplingDone { failed: bool },
    /// Detection ended with this many anomalous indices.
    Detected { anomalies: usize },
    DetectionFailed,
    /// The audit records were written, or their failure logged.
    HistoryLogged,
    /// The alert was sent, or its failure logged.
    AlertSent,
}

pub open spec fn spec_next_phase(phase: MonitorPhase, event: MonitorEvent) -> MonitorPhase {
    match (phase, event) {
        (MonitorPhase::Idle, MonitorEvent::Tick) => MonitorPhase::Sampling,
        (MonitorPhase::Sampling, MonitorEvent::SamplingDone { failed }) =>
            if failed { MonitorPhase::Idle } else { MonitorPhase::Detecting },
        (MonitorPhase::Detecting, MonitorEvent::Detected { anomalies }) =>
            if anomalies > 0 { MonitorPhase::LoggingHistory } else { MonitorPhase::Idle },
        (MonitorPhase::Detecting, MonitorEvent::DetectionFailed) => MonitorPhase::Idle,
        (MonitorPhase::LoggingHistory, MonitorEvent::HistoryLogged) => MonitorPhase::Alerting,
        (MonitorPhase::Alerting, MonitorEvent::AlertSent) => MonitorPhase::Idle,
        _ => phase,
    }
}

/// The next phase of a cycle. A failed sampling step or a failed detection
/// ends the cycle; a failure to log history or to alert does not stop the
/// cycle, and an event that does not belong to the phase changes nothing.
pub fn next_phase(phase: MonitorPhase, event: MonitorEvent) -> (r: MonitorPhase)
    ensures
        r == spec_next_phase(phase, event),
{
    match (phase, event) {
        (MonitorPhase::Idle, MonitorEvent::Tick) => MonitorPhase::Sampling,
        (MonitorPhase::Sampling, MonitorEvent::SamplingDone { failed }) =>
            if failed { MonitorPhase::Idle } else { MonitorPhase::Detecting },
        (MonitorPhase::Detecting, MonitorEvent::Detected { anomalies }) =>
            if anomalies > 0 { MonitorPhase::LoggingHistory } else { MonitorPhase::Idle },
        (MonitorPhase::Detecting, MonitorEvent::DetectionFailed) => MonitorPhase::Idle,
        (MonitorPhase::LoggingHistory, MonitorEvent::HistoryLogged) => MonitorPhase::Alerting,
        (MonitorPhase::Alerting, MonitorEvent::AlertSent) => MonitorPhase::Idle,
        _ => phase,
    }
}

/// Within a cycle, detection is reached only from sampling and alerting
/// only from history logging, which is reached only from detection.
pub proof fn lemma_phase_order(phase: MonitorPhase, event: MonitorEvent)
    ensures
        spec_next_phase(phase, event) == MonitorPhase::Detecting && phase != MonitorPhase::Detecting
            ==> phase == MonitorPhase::Sampling,
        spec_next_phase(phase, event) == MonitorPhase::LoggingHistory && phase != MonitorPhase::LoggingHistory
            ==> phase == MonitorPhase::Detecting,
        spec_next_phase(phase, event) == MonitorPhase::Alerting && phase != MonitorPhase::Alerting
            ==> phase == MonitorPhase::LoggingHistory,
{
}

} // verus!
