//! Event-distribution core of a chat-bot framework.
//!
//! Raw provider events are normalized into domain events, fanned out to a
//! worker and to a broadcast channel, and consumers can wait for the next
//! event that correlates with one they already hold.

pub mod event;
pub mod registry;
pub mod channel;
pub mod markup;
