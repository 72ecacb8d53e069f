//! The data exchanged with the completion and embedding service.

pub mod api;
pub mod datamap;
pub mod error;
