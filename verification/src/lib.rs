//! Client-side building blocks for the ChatGuru messaging platform.
//!
//! Inbound, a webhook body is resolved to a [`WebhookPayload`] in one of the
//! three shapes that the platform sends, and every shape answers the same
//! questions: who the contact is, what the message says, which chat it
//! belongs to and what media is attached.
//!
//! Outbound, a [`ChatGuruClient`] prepares the calls that add an annotation
//! to a chat or send a confirmation message, and says what the platform's
//! answer to such a call amounts to. The library itself sends nothing: the
//! host performs the call and reports back.
//!
//! - [`types`]: the payload shapes, their reading from JSON and their
//!   canonical view;
//! - [`client`]: the outbound calls and the classification of answers;
//! - [`json`]: JSON values as plain data;
//! - [`text`]: character-level helpers on strings;
//! - [`error`]: the error type.

pub mod client;
pub mod error;
pub mod json;
pub mod text;
pub mod types;

pub use client::ChatGuruClient;
pub use error::ChatGuruError;
pub use types::{
    BotContext, ChatGuruPayload, EventData, EventTypePayload, GenericPayload, MediaReference,
    WebhookPayload,
};
