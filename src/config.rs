//! Configuration, loaded once at start and passed to whoever reads it.
use vstd::prelude::*;
use crate::scheduler::{ReportConfig, ReportType};

verus! {

/// Connection settings of one search-engine cluster.
#[derive(Clone, Debug)]
pub struct ElasticServerConfig {
    /// `host:port` of every node.
    pub elastic_host: Vec<String>,
    pub elastic_id: Option<String>,
    pub elastic_pw: Option<String>,
    pub elastic_cluster_name: String,
}

/// Settings of the alert bot.
#[derive(Clone, Debug)]
pub struct TelegramConfig {
    pub bot_token: String,
    pub chat_room_id: String,
}

/// Settings of the relational database of the legacy mailer.
#[derive(Clone, Debug)]
pub struct RdbConfig {
    pub host: String,
    pub port: u16,
    pub database: String,
    pub user_id: String,
    pub user_pw: String,
}

/// Settings of the process itself.
#[derive(Clone, Debug)]
pub struct SystemConfig {
    /// Index that holds the count samples.
    pub monitor_index_name: String,
    /// Number of results per alert message.
    pub message_chunk_size: usize,
    /// Interval of the monitor, in seconds.
    pub ticker_sec: u64,
}

/// Settings of the mail relay.
#[derive(Clone, Debug)]
pub struct SmtpConfig {
    pub smtp_name: String,
    pub credential_id: String,
    pub credential_pw: String,
    pub async_process_yn: bool,
}

/// Index that holds the alarm history.
#[derive(Clone, Debug)]
pub struct AlarmLogIndex {
    pub index_name: String,
}

/// Every setting of the process.
#[derive(Clone, Debug)]
pub struct TotalConfig {
    pub elasticsearch: ElasticServerConfig,
    pub mon_elasticsearch: ElasticServerConfig,
    pub sqlserver: RdbConfig,
    pub telegram: TelegramConfig,
    pub system: SystemConfig,
    pub smtp: SmtpConfig,
    pub alarm_log_index: AlarmLogIndex,
    pub daily_report: ReportConfig,
    pub weekly_report: ReportConfig,
    pub monthly_report: ReportConfig,
    pub yearly_report: ReportConfig,
}

/// Gathers the settings read at start into one value.
pub fn initialize_server_config(
    elasticsearch: ElasticServerConfig,
    mon_elasticsearch: ElasticServerConfig,
    sqlserver: RdbConfig,
    telegram: TelegramConfig,
    system: SystemConfig,
    smtp: SmtpConfig,
    alarm_log_index: AlarmLogIndex,
    daily_report: ReportConfig,
    weekly_report: ReportConfig,
    monthly_report: ReportConfig,
    yearly_report: ReportConfig,
) -> (r: TotalConfig)
    ensures
        r.elasticsearch == elasticsearch,
        r.mon_elasticsearch == mon_elasticsearch,
        r.sqlserver == sqlserver,
        r.telegram == telegram,
        r.system == system,
        r.smtp == smtp,
        r.alarm_log_index == alarm_log_index,
        r.daily_report == daily_report,
        r.weekly_report == weekly_report,
        r.monthly_report == monthly_report,
        r.yearly_report == yearly_report,
{
    TotalConfig {
        elasticsearch,
        mon_elasticsearch,
        sqlserver,
        telegram,
        system,
        smtp,
        alarm_log_index,
        daily_report,
        weekly_report,
        monthly_report,
        yearly_report,
    }
}

/// The monitored cluster.
pub fn get_elastic_config_info(config: &TotalConfig) -> (r: &ElasticServerConfig)
    ensures
        *r == config.elasticsearch,
{
    &config.elasticsearch
}

/// The cluster that holds the monitoring data.
pub fn get_mon_elastic_config_info(config: &TotalConfig) -> (r: &ElasticServerConfig)
    ensures
        *r == config.mon_elasticsearch,
{
    &config.mon_elasticsearch
}

pub fn get_telegram_config_info(config: &TotalConfig) -> (r: &TelegramConfig)
    ensures
        *r == config.telegram,
{
    &config.telegram
}

pub fn get_sqlserver_config_info(config: &TotalConfig) -> (r: &RdbConfig)
    ensures
        *r == config.sqlserver,
{
    &config.sqlserver
}

pub fn get_system_config_info(config: &TotalConfig) -> (r: &SystemConfig)
    ensures
        *r == config.system,
{
    &config.system
}

pub fn get_smtp_config_info(config: &TotalConfig) -> (r: &SmtpConfig)
    ensures
        *r == config.smtp,
{
    &config.smtp
}

pub fn get_alarm_log_index_info(config: &TotalConfig) -> (r: &AlarmLogIndex)
    ensures
        *r == config.alarm_log_index,
{
    &config.alarm_log_index
}

pub fn get_daily_report_config_info(config: &TotalConfig) -> (r: &ReportConfig)
    ensures
        *r == config.daily_report,
{
    &config.daily_report
}

/// The settings of a cadence.
pub fn get_report_config_info(config: &TotalConfig, report_type: ReportType) -> (r: &ReportConfig)
    ensures
        *r == (match report_type {
            ReportType::Day => config.daily_report,
            ReportType::Week => config.weekly_report,
            ReportType::Month => config.monthly_report,
            ReportType::Year => config.yearly_report,
        }),
{
    match report_type {
        ReportType::Day => &config.daily_report,
        ReportType::Week => &config.weekly_report,
        ReportType::Month => &config.monthly_report,
        ReportType::Year => &config.yearly_report,
    }
}

} // verus!
