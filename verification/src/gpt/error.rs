//! What the table-driven request builder reports in place of a response.

use vstd::prelude::*;
use vstd::string::StringExecFns;

verus! {

/// The body of an error report of the chat interface.
#[derive(Debug, Clone, PartialEq, Eq)]
pub struct ChatError {
    /// error message.
    pub message: String,
    /// error type.
    pub error_type: String,
}

/// The body of an error report of the edit interface.
#[derive(Debug, Clone, Copy, PartialEq, Eq, Structural)]
pub struct EditError {}

/// What the service reports, by interface.
#[derive(Debug, Clone, PartialEq, Eq)]
pub enum GPTError {
    ChatError(ChatError),
    EditError(EditError),
}

/// An error response of the service.
#[derive(Debug, Clone, PartialEq, Eq)]
pub struct GPTErrorResponse {
    pub error: GPTError,
}

/// Either the service answered with an error report, or the request did not
/// get through; for the latter the transport's own description is kept.
#[derive(Debug, Clone, PartialEq, Eq)]
pub enum Error {
    ApiError(GPTErrorResponse),
    RequestError(String),
}

/// What can fail when a conversation is continued: the transcript store,
/// whose own description is kept, or the request to the service.
#[derive(Debug, Clone, PartialEq, Eq)]
pub enum CustomError {
    SledError(String),
    GPTApiError(Error),
}

impl GPTError {
    /// The text of this report.
    pub open spec fn text(self) -> Seq<char> {
        match self {
            GPTError::ChatError(e) => "Chat API Error, "@ + e.error_type@ + ": "@ + e.message@,
            GPTError::EditError(_) => "OpenAI Edit API Error"@,
        }
    }

    /// Renders this report as text.
    pub fn to_string(&self) -> (out: String)
        ensures
            out@ == self.text(),
    {
        match self {
            GPTError::ChatError(e) => {
                let mut out = String::from_str("Chat API Error, ");
                out.append(e.error_type.as_str());
                out.append(": ");
                out.append(e.message.as_str());
                out
            },
            GPTError::EditError(_) => String::from_str("OpenAI Edit API Error"),
        }
    }
}

impl GPTErrorResponse {
    /// The text of this response.
    pub open spec fn text(self) -> Seq<char> {
        "API Error Response: "@ + self.error.text()
    }

    /// Renders this response as text.
    pub fn to_string(&self) -> (out: String)
        ensures
            out@ == self.text(),
    {
        let mut out = String::from_str("API Error Response: ");
        let inner = self.error.to_string();
        out.append(inner.as_str());
        out
    }
}

impl CustomError {
    /// The error of a failed request to the service.
    pub fn from_api(error: Error) -> (e: CustomError)
        ensures
            e == CustomError::GPTApiError(error),
    {
        CustomError::GPTApiError(error)
    }

    /// The error of a failure of the transcript store.
    pub fn from_store(cause: String) -> (e: CustomError)
        ensures
            e == CustomError::SledError(cause),
    {
        CustomError::SledError(cause)
    }
}

} // verus!
