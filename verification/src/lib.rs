//! Web application test orchestration: blueprints of deterministic and
//! agentic steps, snapshot analysis, assertion records and reports.

pub mod text;
pub mod config;
pub mod app_map;
pub mod assertions;
pub mod blueprint;
pub mod report;
pub mod steps;
pub mod cli;
pub mod playwright;
pub mod discover;

pub use blueprint::engine::BlueprintEngine;
pub use config::app_config::AppConfig;
pub use report::TestReport;
