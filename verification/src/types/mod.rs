//! The shapes in which the platform delivers a webhook, and their canonical view.

pub mod fields;
pub mod laws;
pub mod payload;
pub mod webhook;

pub use payload::{BotContext, ChatGuruPayload, EventData, EventTypePayload, GenericPayload};
pub use webhook::{MediaReference, WebhookPayload};
