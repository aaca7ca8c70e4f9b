//! Decision logic of a webhook-to-chat notification relay.
//!
//! The library decides what a webhook request or an inbound chat message
//! leads to: one outbound message, described as plain values, or a rejection
//! with its HTTP status and text. Performing the network calls is left to the
//! caller.

pub mod chat_id;
pub mod config;
pub mod auth;
pub mod relay;
pub mod listener;
