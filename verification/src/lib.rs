//! Verified core of a notifier that reports the last run of a systemd
//! service to a Discord webhook.

pub mod args;
pub mod error;
pub mod logs;
pub mod systemd_logs;
pub mod text;
pub mod webhook_structs;
pub mod webhooks;
