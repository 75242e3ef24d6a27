//! Streaming chat-completion client core: request encoding, the retry
//! decisions of the dispatcher, the event-stream decoder, the aggregation
//! adapter and the bearer-token rules, each with a verified contract.

pub mod aggregate;
pub mod auth;
pub mod decimal;
pub mod dispatch;
pub mod encode;
pub mod error;
pub mod json;
pub mod models;
pub mod sse;
