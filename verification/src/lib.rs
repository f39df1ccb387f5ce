//! Reminder scheduling core: durable reminder records, a live job set that is
//! kept consistent with them, and the decisions taken for each chat command.

pub mod cron_syntax;
pub mod database;
pub mod handlers;
pub mod models;
pub mod scheduler;
pub mod timestamp;
pub mod utils;
