//! Documents: chunking, embedding orchestration, retrieval and prompting.

pub mod book;
pub mod chunker;
pub mod embedding;
pub mod error;
pub mod retrieval;
