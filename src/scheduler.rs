//! Report cadences and the scheduler that fires them.
//!
//! A disabled cadence parks forever. An enabled one parses its cron
//! expression once, then repeatedly sleeps until the next firing instant.
use vstd::prelude::*;
use chrono::TimeZone;
use crate::time::{in_range, local_offset_at};

verus! {

#[verifier::external_type_specification]
#[verifier::external_body]
pub struct ExSchedule(cron::Schedule);

#[verifier::external_type_specification]
#[verifier::external_body]
pub struct ExCronError(cron::error::Error);

/// Report cadence.
#[derive(Clone, Copy, Debug, PartialEq, Eq)]
pub enum ReportType {
    Day,
    Week,
    Month,
    Year,
}

pub open spec fn spec_days(report_type: ReportType) -> nat {
    match report_type {
        ReportType::Day => 1,
        ReportType::Week => 7,
        ReportType::Month => 30,
        ReportType::Year => 365,
    }
}

/// Length of a cadence's lookback, in days.
pub fn get_days(report_type: ReportType) -> (r: u64)
    ensures
        r == spec_days(report_type),
{
    match report_type {
        ReportType::Day => 1,
        ReportType::Week => 7,
        ReportType::Month => 30,
        ReportType::Year => 365,
    }
}

/// Settings of one cadence.
#[derive(Clone, Debug)]
pub struct ReportConfig {
    pub enabled: bool,
    /// Cron expression with a seconds field (`0 0 9 * * *`).
    pub cron_schedule: String,
}

impl Default for ReportConfig {
    /// Enabled, every day at 09:00:00.
    fn default() -> (r: ReportConfig)
        ensures
            r.enabled,
            r.cron_schedule@ == "0 0 9 * * *"@,
    {
        ReportConfig { enabled: true, cron_schedule: String::from_str("0 0 9 * * *") }
    }
}

/// Whether cron's parser accepts an expression; it depends on the text
/// alone.
pub uninterp spec fn cron_parses(s: Seq<char>) -> bool;

/// Relies on cron's `Schedule::from_str`: parses a cron expression, and
/// fails exactly on the texts it does not accept.
#[verifier::external_body]
fn parse_cron(expression: &str) -> (r: Result<cron::Schedule, cron::error::Error>)
    ensures
        r is Ok <==> cron_parses(expression@),
{
    <cron::Schedule as std::str::FromStr>::from_str(expression)
}

/// Relies on cron's `Schedule::after`: the next instant after `after_secs`
/// that matches the schedule, read as wall-clock time at the fixed offset
/// `offset_secs` from UTC, as seconds since the epoch. A fixed offset has
/// no skipped or repeated hours, so no candidate time is missing or
/// ambiguous; across a daylight-saving change the firing is off by the
/// change until the offset is read again.
#[verifier::external_body]
fn next_fire_after(schedule: &cron::Schedule, after_secs: i64, offset_secs: i32) -> Option<i64>
    requires
        in_range(after_secs as int),
        -86400 < offset_secs < 86400,
{
    let zone = chrono::FixedOffset::east_opt(offset_secs)?;
    let after = zone.timestamp_opt(after_secs, 0).single()?;
    schedule.after(&after).next().map(|d| d.timestamp())
}

/// Failure to start a scheduler.
#[derive(Debug)]
pub enum ScheduleError {
    /// The cron expression of an enabled cadence does not parse.
    InvalidCron(cron::error::Error),
}

/// A started scheduler.
#[derive(Debug)]
pub enum ReportScheduler {
    /// Never fires and never exits.
    Disabled,
    Enabled(cron::Schedule),
}

/// What the scheduler's driver does next.
#[derive(Clone, Copy, Debug, PartialEq, Eq)]
pub enum SchedulerAction {
    /// Wait without end.
    Park,
    /// Sleep until this instant, then run the report for the window that
    /// ends there.
    SleepUntil(i64),
    /// The computed instant is not in the future: ask again.
    Recompute,
    /// The schedule has no further instant: stop.
    Exhausted,
}

/// The decision of a scheduler at instant `now`, given the next firing
/// instant that its schedule yields.
pub open spec fn spec_decide(enabled: bool, now: int, next_fire: Option<i64>) -> SchedulerAction {
    if !enabled {
        SchedulerAction::Park
    } else {
        match next_fire {
            None => SchedulerAction::Exhausted,
            Some(t) => if t > now { SchedulerAction::SleepUntil(t) } else { SchedulerAction::Recompute },
        }
    }
}

impl ReportScheduler {
    /// Starts the scheduler of a cadence. The cron expression is parsed
    /// only when the cadence is enabled; an invalid one is fatal.
    pub fn start(config: &ReportConfig) -> (r: Result<ReportScheduler, ScheduleError>)
        ensures
            !config.enabled ==> r matches Ok(ReportScheduler::Disabled),
            config.enabled ==> !(r matches Ok(ReportScheduler::Disabled)),
            config.enabled ==> (r is Ok <==> cron_parses(config.cron_schedule@)),
    {
        if !config.enabled {
            return Ok(ReportScheduler::Disabled);
        }
        match parse_cron(config.cron_schedule.as_str()) {
            Ok(s) => Ok(ReportScheduler::Enabled(s)),
            Err(e) => Err(ScheduleError::InvalidCron(e)),
        }
    }

    pub open spec fn is_enabled(&self) -> bool {
        self is Enabled
    }

    /// The decision at `now`, given the next firing instant.
    pub fn decide(&self, now: i64, next_fire: Option<i64>) -> (r: SchedulerAction)
        ensures
            r == spec_decide(self.is_enabled(), now as int, next_fire),
    {
        match self {
            ReportScheduler::Disabled => SchedulerAction::Park,
            ReportScheduler::Enabled(_) => match next_fire {
                None => SchedulerAction::Exhausted,
                Some(t) => if t > now { SchedulerAction::SleepUntil(t) } else { SchedulerAction::Recompute },
            },
        }
    }

    /// What to do at `now`: a disabled scheduler parks; an enabled one asks
    /// its schedule for the next instant.
    pub fn next_action(&self, now: i64) -> (r: SchedulerAction)
        requires
            in_range(now as int),
        ensures
            !self.is_enabled() ==> r == SchedulerAction::Park,
            r matches SchedulerAction::SleepUntil(t) ==> t > now,
            exists|f: Option<i64>| r == spec_decide(self.is_enabled(), now as int, f),
    {
        let next_fire: Option<i64> = match self {
            ReportScheduler::Disabled => None,
            ReportScheduler::Enabled(s) => next_fire_after(s, now, local_offset_at(now)),
        };
        self.decide(now, next_fire)
    }
}

/// A disabled cadence never fires a report and never stops, whatever its
/// cron expression, the time, or what a schedule would yield.
pub proof fn lemma_disabled_never_fires(now: int, next_fire: Option<i64>)
    ensures
        spec_decide(false, now, next_fire) == SchedulerAction::Park,
{
}

} // verus!
