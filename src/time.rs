//! Instants, their text forms, and window arithmetic.
//!
//! An instant is a count of seconds since the Unix epoch. Text forms and
//! the machine's local offset come from chrono.
use vstd::prelude::*;
use chrono::TimeZone;

verus! {

/// Earliest instant handled: one day before 0000-01-01T00:00:00Z, so that
/// every text with a four-digit year, at any offset, is covered.
pub const MIN_EPOCH_SECS: i64 = -62167305600;
/// Latest instant handled: one day after 9999-12-31T23:59:59Z.
pub const MAX_EPOCH_SECS: i64 = 253402387199;

/// An instant in UTC, to the second.
#[derive(Clone, Copy, Debug, PartialEq, Eq)]
pub struct UtcTime {
    pub secs: i64,
}

/// An instant together with the local offset from UTC in force at it.
#[derive(Clone, Copy, Debug, PartialEq, Eq)]
pub struct LocalTime {
    pub utc_secs: i64,
    pub offset_secs: i32,
}

pub open spec fn in_range(secs: int) -> bool {
    MIN_EPOCH_SECS <= secs <= MAX_EPOCH_SECS
}

impl UtcTime {
    pub open spec fn wf(&self) -> bool {
        in_range(self.secs as int)
    }
}

impl LocalTime {
    pub open spec fn wf(&self) -> bool {
        in_range(self.utc_secs as int) && -86400 < self.offset_secs < 86400
    }
}

/// Why a text is not an instant.
#[derive(Clone, Copy, Debug, PartialEq, Eq)]
pub enum TimeError {
    /// chrono does not read the text as an RFC 3339 instant.
    Unparsable,
    /// The instant lies outside the years this library handles.
    OutOfRange,
}

/// What chrono's `DateTime<Utc>` parser reads from a text: seconds since
/// the epoch, or nothing.
pub uninterp spec fn parsed_utc_secs(s: Seq<char>) -> Option<int>;

/// What chrono prints for the UTC instant `secs` with the pattern `pattern`.
pub uninterp spec fn formatted_utc(secs: int, pattern: Seq<char>) -> Seq<char>;

/// `2024-05-01T09:00:00Z`
pub open spec fn iso_pattern() -> Seq<char> {
    "%Y-%m-%dT%H:%M:%SZ"@
}

/// `2024.05.01 09:00:00`
pub open spec fn human_pattern() -> Seq<char> {
    "%Y.%m.%d %H:%M:%S"@
}

/// Relies on `str::parse::<chrono::DateTime<Utc>>` and `DateTime::timestamp`:
/// the result depends on the text alone.
#[verifier::external_body]
fn parse_utc(s: &str) -> (r: Option<i64>)
    ensures
        match r {
            Some(v) => parsed_utc_secs(s@) == Some(v as int),
            None => parsed_utc_secs(s@).is_none(),
        },
{
    s.parse::<chrono::DateTime<chrono::Utc>>().ok().map(|d| d.timestamp())
}

/// Relies on chrono's `DateTime::<Utc>::from_timestamp` and `format`: the
/// instant exists from year -1 to year 10000, and the text depends on the
/// instant and the pattern alone.
#[verifier::external_body]
fn format_utc(secs: i64, pattern: &str) -> (r: String)
    requires
        -62167392000 <= secs <= 253402473599,
        pattern@ == iso_pattern() || pattern@ == human_pattern(),
    ensures
        r@ == formatted_utc(secs as int, pattern@),
{
    match chrono::DateTime::from_timestamp(secs, 0) {
        Some(d) => d.format(pattern).to_string(),
        None => String::new(),
    }
}

/// Relies on chrono's `Local::offset_from_utc_datetime`: the offset of the
/// machine's time zone at an instant, which chrono keeps strictly within
/// one day. It depends on the machine.
#[verifier::external_body]
pub(crate) fn local_offset_at(secs: i64) -> (r: i32)
    requires
        in_range(secs as int),
    ensures
        -86400 < r < 86400,
{
    match chrono::DateTime::from_timestamp(secs, 0) {
        Some(d) => chrono::Local.offset_from_utc_datetime(&d.naive_utc()).local_minus_utc(),
        None => 0,
    }
}

/// Reads an RFC 3339 instant (`2024-05-01T09:00:00Z`).
pub fn convert_utc_from_str(time_str: &str) -> (r: Result<UtcTime, TimeError>)
    ensures
        match parsed_utc_secs(time_str@) {
            None => r == Err::<UtcTime, TimeError>(TimeError::Unparsable),
            Some(v) => if in_range(v) {
                r == Ok::<UtcTime, TimeError>(UtcTime { secs: v as i64 })
            } else {
                r == Err::<UtcTime, TimeError>(TimeError::OutOfRange)
            },
        },
{
    match parse_utc(time_str) {
        None => Err(TimeError::Unparsable),
        Some(v) => if MIN_EPOCH_SECS <= v && v <= MAX_EPOCH_SECS {
            Ok(UtcTime { secs: v })
        } else {
            Err(TimeError::OutOfRange)
        },
    }
}

/// The same instant, seen in the machine's local time.
pub fn convert_local_from_utc(utc_time: UtcTime) -> (r: LocalTime)
    requires
        utc_time.wf(),
    ensures
        r.wf(),
        r.utc_secs == utc_time.secs,
{
    LocalTime { utc_secs: utc_time.secs, offset_secs: local_offset_at(utc_time.secs) }
}

/// The same instant, in UTC.
pub fn convert_utc_from_local(local_time: LocalTime) -> (r: UtcTime)
    ensures
        r.secs == local_time.utc_secs,
{
    UtcTime { secs: local_time.utc_secs }
}

/// The wall-clock time at `offset_secs` from UTC, as
/// `YYYY-MM-DDTHH:MM:SSZ`.
pub fn convert_date_to_str(time: UtcTime, offset_secs: i32) -> (r: String)
    requires
        time.wf(),
        -86400 < offset_secs < 86400,
    ensures
        r@ == formatted_utc(time.secs + offset_secs, iso_pattern()),
{
    format_utc(time.secs + offset_secs as i64, "%Y-%m-%dT%H:%M:%SZ")
}

/// The wall-clock time at `offset_secs` from UTC, as
/// `YYYY.MM.DD HH:MM:SS`.
pub fn convert_data_to_str_human(time: UtcTime, offset_secs: i32) -> (r: String)
    requires
        time.wf(),
        -86400 < offset_secs < 86400,
    ensures
        r@ == formatted_utc(time.secs + offset_secs, human_pattern()),
{
    format_utc(time.secs + offset_secs as i64, "%Y.%m.%d %H:%M:%S")
}

/// Reads a UTC instant and prints it as local wall-clock time.
pub fn calc_struct_to_strkor(utc_time: &str) -> (r: Result<String, TimeError>)
    ensures
        match parsed_utc_secs(utc_time@) {
            None => r == Err::<String, TimeError>(TimeError::Unparsable),
            Some(v) => if in_range(v) {
                r matches Ok(s) && exists|off: int|
                    -86400 < off < 86400 && s@ == #[trigger] formatted_utc(v + off, iso_pattern())
            } else {
                r == Err::<String, TimeError>(TimeError::OutOfRange)
            },
        },
{
    let t: UtcTime = convert_utc_from_str(utc_time)?;
    let local: LocalTime = convert_local_from_utc(t);
    let s: String = convert_date_to_str(t, local.offset_secs);
    assert(-86400 < local.offset_secs < 86400 && s@ == formatted_utc(t.secs + local.offset_secs, iso_pattern()));
    Ok(s)
}

/// Start of the window of `duration_secs` seconds that ends at `dt`.
pub fn calc_time_window(dt: UtcTime, duration_secs: u64) -> (r: UtcTime)
    requires
        dt.wf(),
        dt.secs - duration_secs >= MIN_EPOCH_SECS,
    ensures
        r.wf(),
        r.secs == dt.secs - duration_secs,
{
    UtcTime { secs: dt.secs - duration_secs as i64 }
}

/// The instant `hours` hours before `dt`.
pub fn minus_h(dt: UtcTime, hours: u64) -> (r: UtcTime)
    requires
        dt.wf(),
        dt.secs - 3600 * hours >= MIN_EPOCH_SECS,
    ensures
        r.wf(),
        r.secs == dt.secs - 3600 * hours,
{
    UtcTime { secs: dt.secs - (3600 * hours) as i64 }
}

/// The instant `hours` hours before `dt`, with the local offset in force
/// at that earlier instant.
pub fn minus_h_local(dt: LocalTime, hours: u64) -> (r: LocalTime)
    requires
        dt.wf(),
        dt.utc_secs - 3600 * hours >= MIN_EPOCH_SECS,
    ensures
        r.wf(),
        r.utc_secs == dt.utc_secs - 3600 * hours,
{
    convert_local_from_utc(minus_h(convert_utc_from_local(dt), hours))
}

} // verus!
