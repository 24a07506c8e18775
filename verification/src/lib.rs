//! Remote Control bridge and cron scheduling logic, verified with Verus.

pub mod bridge;
pub mod cron_scheduler;
pub mod json;
pub mod json_keys;
pub mod text;
