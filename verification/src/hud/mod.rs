//! State behind the heads-up display.

pub mod chat;
