//! Decision and formatting logic of a Solana node watchdog: slot-lag and
//! latency analysis, configuration read from environment values, alert
//! cooldown, retry back-off, and the text and JSON exchanged with the
//! alerting services.

pub mod text;
pub mod error;
pub mod config;
pub mod metrics;
pub mod analysis;
pub mod json;
pub mod llm;
pub mod notify;
pub mod retry;
pub mod commands;
