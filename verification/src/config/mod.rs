//! Target application configuration and natural-language test specifications.

pub mod app_config;
pub mod test_spec;
