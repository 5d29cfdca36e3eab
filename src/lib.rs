//! Document-count tracking for search-engine indices: windowed fluctuation
//! detection, resilient node failover, response parsing and report assembly.
pub mod detector;
pub mod model;
pub mod gateway;
pub mod json;
pub mod response;
pub mod text;
pub mod queries;
pub mod time;
pub mod scheduler;
pub mod monitor;
pub mod report;
pub mod config;
pub mod repository;
pub mod notify;
pub mod report_html;
