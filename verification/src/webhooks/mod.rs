//! Discord webhook payloads and what the webhook answers.

pub mod discord;
pub mod discord_structs;
pub mod utils;
