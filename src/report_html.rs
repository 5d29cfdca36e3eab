//! Table rows of a periodic report.
use vstd::prelude::*;
use vstd::string::*;
use crate::report::{AlarmIndexDetailInfo, AlarmIndexDiffDetailInfo};
use crate::text::{decimal_text, digit_chars, spec_decimal};

verus! {

/// Three digits of `n % 1000`, zero-padded.
pub open spec fn spec_three_digits(n: nat) -> Seq<char> {
    seq![
        digit_chars()[((n % 1000) / 100) as int],
        digit_chars()[((n % 100) / 10) as int],
        digit_chars()[(n % 10) as int],
    ]
}

/// Decimal digits in groups of three separated by commas (`1,234,567`).
pub open spec fn spec_grouped(n: nat) -> Seq<char>
    decreases n,
{
    if n < 1000 {
        spec_decimal(n)
    } else {
        spec_grouped(n / 1000) + seq![','] + spec_three_digits(n)
    }
}

fn digit_text(d: u128) -> (r: &'static str)
    requires
        d < 10,
    ensures
        r@ == seq![digit_chars()[d as int]],
{
    let digits: &'static str = "0123456789";
    proof {
        reveal_strlit("0123456789");
    }
    let r: &str = digits.substring_char(d as usize, d as usize + 1);
    assert(r@ =~= seq![digit_chars()[d as int]]);
    r
}

/// A count with thousands separators.
pub fn grouped_text(n: u128) -> (r: String)
    ensures
        r@ == spec_grouped(n as nat),
    decreases n,
{
    if n < 1000 {
        decimal_text(n as u64)
    } else {
        let mut s: String = grouped_text(n / 1000);
        let ghost head = s@;
        s.append(",");
        s.append(digit_text((n % 1000) / 100));
        s.append(digit_text((n % 100) / 10));
        s.append(digit_text(n % 10));
        proof {
            reveal_strlit(",");
        }
        assert(s@ =~= head + seq![','] + spec_three_digits(n as nat));
        s
    }
}

/// A percentage held in hundredths, signless, with two decimals.
pub open spec fn spec_percent(h: nat) -> Seq<char> {
    spec_grouped(h / 100) + seq!['.', digit_chars()[((h % 100) / 10) as int], digit_chars()[(h % 10) as int]] + seq!['%']
}

fn percent_text(h: u128) -> (r: String)
    ensures
        r@ == spec_percent(h as nat),
{
    let mut s: String = grouped_text(h / 100);
    let ghost head = s@;
    s.append(".");
    s.append(digit_text((h % 100) / 10));
    s.append(digit_text(h % 10));
    s.append("%");
    proof {
        reveal_strlit(".");
        reveal_strlit("%");
    }
    assert(s@ =~= spec_percent(h as nat));
    s
}

pub open spec fn report_cell() -> Seq<char> {
    "<td style=\"border: 1px solid #ddd; padding: 12px; text-align: left; background-color: #fff;\">"@
}

fn report_cell_text() -> (r: &'static str)
    ensures
        r@ == report_cell(),
{
    "<td style=\"border: 1px solid #ddd; padding: 12px; text-align: left; background-color: #fff;\">"
}

pub open spec fn cell(content: Seq<char>) -> Seq<char> {
    report_cell() + content + "</td>"@
}

fn push_cell(s: &mut String, content: &str)
    ensures
        final(s)@ == old(s)@ + cell(content@),
{
    s.append(report_cell_text());
    s.append(content);
    s.append("</td>");
}

pub open spec fn spec_detail_row(d: AlarmIndexDetailInfo) -> Seq<char> {
    "<tr>"@ + cell(d.index_name@) + cell(spec_grouped(d.start_index_cnt as nat))
        + cell(spec_grouped(d.end_index_cnt as nat)) + cell(spec_grouped(d.difference as nat))
        + cell(spec_percent(d.difference_percent as nat)) + cell(spec_grouped(d.alarm_cnt as nat)) + "</tr>"@
}

pub open spec fn spec_detail_rows(s: Seq<AlarmIndexDetailInfo>) -> Seq<char>
    decreases s.len(),
{
    if s.len() == 0 { Seq::empty() } else { spec_detail_rows(s.drop_last()) + spec_detail_row(s.last()) }
}

pub open spec fn spec_diff_row(d: AlarmIndexDiffDetailInfo) -> Seq<char> {
    "<tr>"@ + cell(d.index_name@) + cell(spec_grouped(d.min_index_cnt as nat))
        + cell(spec_grouped(d.max_index_cnt as nat)) + cell(spec_grouped(d.difference as nat))
        + cell(spec_percent(d.difference_percent as nat)) + "</tr>"@
}

pub open spec fn spec_diff_rows(s: Seq<AlarmIndexDiffDetailInfo>) -> Seq<char>
    decreases s.len(),
{
    if s.len() == 0 { Seq::empty() } else { spec_diff_rows(s.drop_last()) + spec_diff_row(s.last()) }
}

fn detail_row(d: &AlarmIndexDetailInfo) -> (r: String)
    ensures
        r@ == spec_detail_row(*d),
{
    let mut s: String = String::from_str("<tr>");
    push_cell(&mut s, d.index_name.as_str());
    push_cell(&mut s, grouped_text(d.start_index_cnt as u128).as_str());
    push_cell(&mut s, grouped_text(d.end_index_cnt as u128).as_str());
    push_cell(&mut s, grouped_text(d.difference as u128).as_str());
    push_cell(&mut s, percent_text(d.difference_percent).as_str());
    push_cell(&mut s, grouped_text(d.alarm_cnt as u128).as_str());
    s.append("</tr>");
    assert(s@ =~= spec_detail_row(*d));
    s
}

fn diff_row(d: &AlarmIndexDiffDetailInfo) -> (r: String)
    ensures
        r@ == spec_diff_row(*d),
{
    let mut s: String = String::from_str("<tr>");
    push_cell(&mut s, d.index_name.as_str());
    push_cell(&mut s, grouped_text(d.min_index_cnt as u128).as_str());
    push_cell(&mut s, grouped_text(d.max_index_cnt as u128).as_str());
    push_cell(&mut s, grouped_text(d.difference as u128).as_str());
    push_cell(&mut s, percent_text(d.difference_percent).as_str());
    s.append("</tr>");
    assert(s@ =~= spec_diff_row(*d));
    s
}

/// Rows of the per-index table: name, start, end, change, change percent,
/// alarms.
pub fn generate_index_detail_rows(alarm_index_details: &Vec<AlarmIndexDetailInfo>) -> (r: String)
    ensures
        r@ == spec_detail_rows(alarm_index_details@),
{
    let mut rows: String = String::new();
    let mut i: usize = 0;
    while i < alarm_index_details.len()
        invariant
            i <= alarm_index_details@.len(),
            rows@ == spec_detail_rows(alarm_index_details@.take(i as int)),
        decreases alarm_index_details@.len() - i,
    {
        proof {
            assert(alarm_index_details@.take(i as int + 1).drop_last() =~= alarm_index_details@.take(i as int));
            assert(alarm_index_details@.take(i as int + 1).last() == alarm_index_details@[i as int]);
        }
        rows.append(detail_row(&alarm_index_details[i]).as_str());
        i = i + 1;
    }
    assert(alarm_index_details@.take(i as int) =~= alarm_index_details@);
    rows
}

/// Rows of the max-swing table: name, smallest, largest, swing, swing
/// percent.
pub fn generate_index_diff_detail_rows(alarm_index_diff_details: &Vec<AlarmIndexDiffDetailInfo>) -> (r: String)
    ensures
        r@ == spec_diff_rows(alarm_index_diff_details@),
{
    let mut rows: String = String::new();
    let mut i: usize = 0;
    while i < alarm_index_diff_details.len()
        invariant
            i <= alarm_index_diff_details@.len(),
            rows@ == spec_diff_rows(alarm_index_diff_details@.take(i as int)),
        decreases alarm_index_diff_details@.len() - i,
    {
        proof {
            assert(alarm_index_diff_details@.take(i as int + 1).drop_last() =~= alarm_index_diff_details@.take(i as int));
            assert(alarm_index_diff_details@.take(i as int + 1).last() == alarm_index_diff_details@[i as int]);
        }
        rows.append(diff_row(&alarm_index_diff_details[i]).as_str());
        i = i + 1;
    }
    assert(alarm_index_diff_details@.take(i as int) =~= alarm_index_diff_details@);
    rows
}

} // verus!
