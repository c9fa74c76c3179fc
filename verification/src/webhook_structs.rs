//! The webhook payload types, also reachable from this module.

pub use crate::webhooks::discord_structs::{
    EmbedAuthor, EmbedField, EmbedFooter, EmbedImage, Webhook, WebhookEmbed,
};
