//! What can go wrong between a document's bytes and an answer.

use crate::doc::chunker::EncodingError;
use crate::doc::embedding::{BatchIncomplete, EmbeddingRequestFailed};
use crate::openai::error::{Error, GPTErrorResponse};
use vstd::prelude::*;

verus! {

/// The errors of ingestion and of answering, by the step that failed.
#[derive(Debug, Clone, PartialEq, Eq)]
pub enum PipelineError {
    /// The bytes of the document are no text in the declared encoding.
    EncodingError(EncodingError),
    /// The request for the embedding of a single text failed.
    EmbeddingRequestFailed(EmbeddingRequestFailed),
    /// Some chunks of the batch have no embedding; nothing was stored.
    BatchIncomplete(BatchIncomplete),
    /// The vector store refused or failed a request.
    StoreError(String),
    /// The chat service answered with an error report.
    ChatRequestError(GPTErrorResponse),
    /// The chat request or its response was lost in transport.
    TransportError(String),
}

/// The pipeline error that a failed chat request comes to: a report of the
/// service is kept apart from a failure of the transport.
pub open spec fn chat_failure(error: Error) -> PipelineError {
    match error {
        Error::ApiError(report) => PipelineError::ChatRequestError(report),
        Error::RequestError(cause) => PipelineError::TransportError(cause),
    }
}

impl PipelineError {
    /// The pipeline error that a failed chat request comes to.
    pub fn from_chat(error: Error) -> (e: PipelineError)
        ensures
            e == chat_failure(error),
    {
        match error {
            Error::ApiError(report) => PipelineError::ChatRequestError(report),
            Error::RequestError(cause) => PipelineError::TransportError(cause),
        }
    }
}

} // verus!
