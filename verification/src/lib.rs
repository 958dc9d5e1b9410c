//! Client-side building blocks for a cloud content-moderation HTTP API:
//! percent-encoding, canonical query construction, HMAC request signing,
//! and response classification.

pub mod client;
pub mod crypto;
pub mod encoding;
pub mod error;
pub mod signature;
pub mod types;

pub use client::ModerationClient;
pub use encoding::percent_encode;
