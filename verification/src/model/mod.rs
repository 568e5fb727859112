pub mod binary64;
pub mod common;
pub mod logs;
pub mod traces;
pub mod metrics;
pub mod profiles;
