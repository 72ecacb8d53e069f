//! A request builder for the completion service that is driven by a table
//! of interfaces.

pub mod chat;
pub mod error;
pub mod gpt;
