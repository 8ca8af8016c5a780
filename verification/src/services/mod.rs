//! Built-in demonstration services.

pub mod chat;
pub mod echo_binary;
pub mod gameplay;

