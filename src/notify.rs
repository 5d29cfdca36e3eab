//! Text of the alerts sent to operators.
use vstd::prelude::*;
use vstd::string::*;
use crate::model::{AlertIndex, LogIndexResult};
use crate::text::{decimal_text, hundredths_text, spec_decimal, spec_hundredths};

verus! {

/// Recipients of alert mail.
#[derive(Clone, Debug)]
pub struct NotificationServiceImpl {
    pub receiver_email_list: Vec<String>,
}

/// A rendered chart of one index.
#[derive(Clone, Debug)]
pub struct AlarmImageInfo {
    pub index_name: String,
    pub pic_path: String,
}

/// An index and whether it is alarmed.
#[derive(Clone, Debug)]
pub struct AlaramIndexInfo {
    pub index_name: String,
    pub doc_cnt: u64,
    pub alert_yn: bool,
}

pub open spec fn spec_history_line(a: AlertIndex) -> Seq<char> {
    "<div>"@ + a.timestamp@ + " -> "@ + spec_decimal(a.cnt as nat) + "</div>"@
}

pub open spec fn spec_history_lines(s: Seq<AlertIndex>) -> Seq<char>
    decreases s.len(),
{
    if s.len() == 0 {
        Seq::empty()
    } else {
        spec_history_lines(s.drop_last()) + spec_history_line(s.last())
    }
}

pub open spec fn spec_history_html(s: Seq<AlertIndex>) -> Seq<char> {
    "<div style=\"color: #555; font-size: 14px; line-height: 1.5;\">"@ + spec_history_lines(s) + "</div>"@
}

pub open spec fn cell_open() -> Seq<char> {
    "<td style=\"border: 1px solid #ddd; padding: 12px; text-align: left; vertical-align: top; background-color: #fff;\">"@
}

pub open spec fn spec_alert_row(r: LogIndexResult) -> Seq<char> {
    match r.alert_index_format {
        Some(h) => "<tr>"@ + cell_open() + r.index_name@ + "</td>"@
            + cell_open() + spec_decimal(r.cur_cnt as nat) + "</td>"@
            + "<td style=\"border: 1px solid #ddd; padding: 12px; text-align: left; vertical-align: top; background-color: #fff; color: red;\">"@
            + spec_hundredths(r.fluctuation_val as nat) + "%</td>"@
            + cell_open() + spec_history_html(h@) + "</td></tr>"@,
        None => Seq::empty(),
    }
}

pub open spec fn spec_alert_rows(s: Seq<LogIndexResult>) -> Seq<char>
    decreases s.len(),
{
    if s.len() == 0 {
        Seq::empty()
    } else {
        spec_alert_rows(s.drop_last()) + spec_alert_row(s.last())
    }
}

fn cell_open_text() -> (r: &'static str)
    ensures
        r@ == cell_open(),
{
    "<td style=\"border: 1px solid #ddd; padding: 12px; text-align: left; vertical-align: top; background-color: #fff;\">"
}

impl NotificationServiceImpl {
    pub fn new(receiver_email_list: Vec<String>) -> (r: NotificationServiceImpl)
        ensures
            r.receiver_email_list == receiver_email_list,
    {
        NotificationServiceImpl { receiver_email_list }
    }

    /// The samples of an alert, one `timestamp -> count` line each.
    pub fn generate_history_table_html(&self, alert_indexes: &Vec<AlertIndex>) -> (r: String)
        ensures
            r@ == spec_history_html(alert_indexes@),
    {
        let mut inner: String = String::new();
        let mut i: usize = 0;
        while i < alert_indexes.len()
            invariant
                i <= alert_indexes@.len(),
                inner@ == spec_history_lines(alert_indexes@.take(i as int)),
            decreases alert_indexes@.len() - i,
        {
            let a: &AlertIndex = &alert_indexes[i];
            proof {
                assert(alert_indexes@.take(i as int + 1).drop_last() =~= alert_indexes@.take(i as int));
                assert(alert_indexes@.take(i as int + 1).last() == *a);
            }
            let ghost before = inner@;
            inner.append("<div>");
            inner.append(a.timestamp.as_str());
            inner.append(" -> ");
            inner.append(decimal_text(a.cnt).as_str());
            inner.append("</div>");
            assert(inner@ =~= before + spec_history_line(*a));
            i = i + 1;
        }
        assert(alert_indexes@.take(i as int) =~= alert_indexes@);
        let mut html: String = String::from_str("<div style=\"color: #555; font-size: 14px; line-height: 1.5;\">");
        html.append(inner.as_str());
        html.append("</div>");
        html
    }

    /// One table row per anomalous result: name, current count,
    /// fluctuation and the samples of its window.
    pub fn generate_alert_rows(&self, log_index_results: &Vec<LogIndexResult>) -> (r: String)
        ensures
            r@ == spec_alert_rows(log_index_results@),
    {
        let mut rows: String = String::new();
        let mut i: usize = 0;
        while i < log_index_results.len()
            invariant
                i <= log_index_results@.len(),
                rows@ == spec_alert_rows(log_index_results@.take(i as int)),
            decreases log_index_results@.len() - i,
        {
            let r: &LogIndexResult = &log_index_results[i];
            proof {
                assert(log_index_results@.take(i as int + 1).drop_last() =~= log_index_results@.take(i as int));
                assert(log_index_results@.take(i as int + 1).last() == *r);
            }
            let ghost before = rows@;
            match &r.alert_index_format {
                Some(h) => {
                    rows.append("<tr>");
                    rows.append(cell_open_text());
                    rows.append(r.index_name.as_str());
                    rows.append("</td>");
                    rows.append(cell_open_text());
                    rows.append(decimal_text(r.cur_cnt).as_str());
                    rows.append("</td>");
                    rows.append("<td style=\"border: 1px solid #ddd; padding: 12px; text-align: left; vertical-align: top; background-color: #fff; color: red;\">");
                    rows.append(hundredths_text(r.fluctuation_val).as_str());
                    rows.append("%</td>");
                    rows.append(cell_open_text());
                    rows.append(self.generate_history_table_html(h).as_str());
                    rows.append("</td></tr>");
                    assert(rows@ =~= before + spec_alert_row(*r));
                },
                None => {
                    assert(rows@ =~= before + spec_alert_row(*r));
                },
            }
            i = i + 1;
        }
        assert(log_index_results@.take(i as int) =~= log_index_results@);
        rows
    }
}

pub open spec fn spec_sample_text(a: AlertIndex) -> Seq<char> {
    "📊 Index: "@ + a.index_name@ + "\n💾 Count: "@ + spec_decimal(a.cnt as nat) + "\n🕐 Time: "@ + a.timestamp@ + "\n\n"@
}

pub open spec fn spec_samples_text(s: Seq<AlertIndex>) -> Seq<char>
    decreases s.len(),
{
    if s.len() == 0 {
        Seq::empty()
    } else {
        spec_samples_text(s.drop_last()) + spec_sample_text(s.last())
    }
}

pub open spec fn spec_result_text(r: LogIndexResult) -> Seq<char> {
    "📌 "@ + r.index_name@ + " 📌\n"@ + match r.alert_index_format {
        Some(h) => spec_samples_text(h@),
        None => Seq::empty(),
    }
}

pub open spec fn spec_results_text(s: Seq<LogIndexResult>) -> Seq<char>
    decreases s.len(),
{
    if s.len() == 0 {
        Seq::empty()
    } else {
        spec_results_text(s.drop_last()) + spec_result_text(s.last())
    }
}

/// One chat message: a header, every result of the chunk, a closing line.
pub open spec fn spec_chat_message(s: Seq<LogIndexResult>) -> Seq<char> {
    "🚨 [Index Count Alert] 🚨\n\n"@ + spec_results_text(s) + "⚠️ Please check the index status immediately!"@
}

/// The `k`-th chunk of at most `size` results.
pub open spec fn spec_chunk(s: Seq<LogIndexResult>, size: nat, k: int) -> Seq<LogIndexResult> {
    let end = if (k + 1) * size < s.len() { (k + 1) * size } else { s.len() as int };
    s.subrange(k * size, end)
}

fn sample_text(a: &AlertIndex) -> (r: String)
    ensures
        r@ == spec_sample_text(*a),
{
    let mut t: String = String::from_str("📊 Index: ");
    t.append(a.index_name.as_str());
    t.append("\n💾 Count: ");
    t.append(decimal_text(a.cnt).as_str());
    t.append("\n🕐 Time: ");
    t.append(a.timestamp.as_str());
    t.append("\n\n");
    t
}

fn result_text(r: &LogIndexResult) -> (t: String)
    ensures
        t@ == spec_result_text(*r),
{
    let mut t: String = String::from_str("📌 ");
    t.append(r.index_name.as_str());
    t.append(" 📌\n");
    let ghost head = t@;
    match &r.alert_index_format {
        Some(h) => {
            let mut i: usize = 0;
            while i < h.len()
                invariant
                    i <= h@.len(),
                    t@ == head + spec_samples_text(h@.take(i as int)),
                decreases h@.len() - i,
            {
                proof {
                    assert(h@.take(i as int + 1).drop_last() =~= h@.take(i as int));
                    assert(h@.take(i as int + 1).last() == h@[i as int]);
                }
                t.append(sample_text(&h[i]).as_str());
                i = i + 1;
                assert(t@ =~= head + spec_samples_text(h@.take(i as int)));
            }
            assert(h@.take(i as int) =~= h@);
        },
        None => {
            assert(t@ =~= head + Seq::<char>::empty());
        },
    }
    t
}

fn chat_message(results: &Vec<LogIndexResult>, from: usize, to: usize) -> (r: String)
    requires
        from <= to <= results@.len(),
    ensures
        r@ == spec_chat_message(results@.subrange(from as int, to as int)),
{
    let mut m: String = String::from_str("🚨 [Index Count Alert] 🚨\n\n");
    let ghost head = m@;
    let mut i: usize = from;
    while i < to
        invariant
            from <= i <= to <= results@.len(),
            m@ == head + spec_results_text(results@.subrange(from as int, i as int)),
        decreases to - i,
    {
        proof {
            assert(results@.subrange(from as int, i as int + 1).drop_last() =~= results@.subrange(from as int, i as int));
            assert(results@.subrange(from as int, i as int + 1).last() == results@[i as int]);
        }
        m.append(result_text(&results[i]).as_str());
        i = i + 1;
        assert(m@ =~= head + spec_results_text(results@.subrange(from as int, i as int)));
    }
    m.append("⚠️ Please check the index status immediately!");
    m
}

/// The chat messages of an alert: the results in chunks of `chunk_size`,
/// one message per chunk, in order.
pub fn telegram_alert_messages(results: &Vec<LogIndexResult>, chunk_size: usize) -> (r: Vec<String>)
    requires
        chunk_size > 0,
    ensures
        r@.len() == (results@.len() + chunk_size - 1) / (chunk_size as int),
        forall|k: int| 0 <= k < r@.len()
            ==> (#[trigger] r@[k])@ == spec_chat_message(spec_chunk(results@, chunk_size as nat, k)),
{
    let n: usize = results.len();
    assert(n % chunk_size != 0 ==> n / chunk_size < usize::MAX) by (nonlinear_arith)
        requires chunk_size > 0, n <= usize::MAX;
    let count: usize = n / chunk_size + if n % chunk_size == 0 { 0 } else { 1 };
    assert(count == (n + chunk_size - 1) / (chunk_size as int)) by (nonlinear_arith)
        requires
            chunk_size > 0,
            count == n / chunk_size + if n % chunk_size == 0 { 0int } else { 1int },
    ;
    let mut out: Vec<String> = Vec::new();
    let mut k: usize = 0;
    while k < count
        invariant
            n == results@.len(),
            chunk_size > 0,
            count == (n + chunk_size - 1) / (chunk_size as int),
            k <= count,
            out@.len() == k,
            forall|j: int| 0 <= j < out@.len()
                ==> (#[trigger] out@[j])@ == spec_chat_message(spec_chunk(results@, chunk_size as nat, j)),
        decreases count - k,
    {
        assert(k * chunk_size < n) by (nonlinear_arith)
            requires k < count, count == (n + chunk_size - 1) / (chunk_size as int), chunk_size > 0;
        let from: usize = k * chunk_size;
        let to: usize = if n - from > chunk_size { from + chunk_size } else { n };
        assert((k + 1) * chunk_size == from + chunk_size) by (nonlinear_arith)
            requires from == k * chunk_size;
        assert(spec_chunk(results@, chunk_size as nat, k as int) == results@.subrange(from as int, to as int));
        out.push(chat_message(results, from, to));
        k = k + 1;
    }
    out
}

pub open spec fn spec_chart_path(hours: nat, index_name: Seq<char>) -> Seq<char> {
    "./pics/"@ + spec_decimal(hours) + "_line_chart_"@ + index_name + ".png"@
}

/// Where the chart of an index for a lookback of `hours` hours is written.
pub fn chart_output_path(hours: u64, index_name: &str) -> (r: String)
    ensures
        r@ == spec_chart_path(hours as nat, index_name@),
{
    let mut p: String = String::from_str("./pics/");
    p.append(decimal_text(hours).as_str());
    p.append("_line_chart_");
    p.append(index_name);
    p.append(".png");
    p
}

} // verus!
