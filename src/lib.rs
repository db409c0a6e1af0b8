//! Streaming log-tail client core: envelope decoding, record extraction,
//! and the per-message decisions of the reading loop.

pub mod json;
pub mod record;
pub mod envelope;
pub mod session;
pub mod query;
pub mod tools;
