//! Document ingestion and retrieval for question answering over embedded text.

pub mod db;
pub mod doc;
pub mod gpt;
mod ident;
pub mod openai;
pub mod qdrant;
pub mod text;
pub mod utils;
