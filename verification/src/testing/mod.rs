pub mod config;
pub mod from_config;
pub mod generator;
pub mod logs_fixtures;
pub mod metrics_fixtures;
pub mod profiles_fixtures;
pub mod traces_fixtures;
pub mod text;
