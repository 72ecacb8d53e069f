//! What the service or the transport can report in place of a response.

use vstd::prelude::*;
use vstd::string::StringExecFns;

verus! {

/// The body of an error report of the chat interface.
#[derive(Debug, Clone, PartialEq, Eq)]
pub struct ChatError {
    /// error message.
    pub message: String,
    /// error type.
    pub error_type: String,
}

/// The body of an error report of the edit interface.
#[derive(Debug, Clone, Copy, PartialEq, Eq, Structural)]
pub struct EditError {}

/// What the service reports, by interface.
#[derive(Debug, Clone, PartialEq, Eq)]
pub enum GPTError {
    ChatError(ChatError),
    EditError(EditError),
}

/// An error response of the service.
#[derive(Debug, Clone, PartialEq, Eq)]
pub struct GPTErrorResponse {
    pub error: GPTError,
}

/// Either the service answered with an error report, or the request did not
/// get through; for the latter the transport's own description is kept.
#[derive(Debug, Clone, PartialEq, Eq)]
pub enum Error {
    /// The service refused or failed the request.
    ApiError(GPTErrorResponse),
    /// The request or its response was lost in transport.
    RequestError(String),
}

pub type ApiResult<T> = Result<T, Error>;

impl GPTError {
    /// The text of this report.
    pub open spec fn text(self) -> Seq<char> {
        match self {
            GPTError::ChatError(e) => "Chat API Error, "@ + e.error_type@ + ": "@ + e.message@,
            GPTError::EditError(_) => "OpenAI Edit API Error"@,
        }
    }

    /// Renders this report as text.
    pub fn to_string(&self) -> (out: String)
        ensures
            out@ == self.text(),
    {
        match self {
            GPTError::ChatError(e) => {
                let mut out = String::from_str("Chat API Error, ");
                out.append(e.error_type.as_str());
                out.append(": ");
                out.append(e.message.as_str());
                out
            },
            GPTError::EditError(_) => String::from_str("OpenAI Edit API Error"),
        }
    }
}

impl GPTErrorResponse {
    /// The text of this response.
    pub open spec fn text(self) -> Seq<char> {
        "API Error Response: "@ + self.error.text()
    }

    /// Renders this response as text.
    pub fn to_string(&self) -> (out: String)
        ensures
            out@ == self.text(),
    {
        let mut out = String::from_str("API Error Response: ");
        let inner = self.error.to_string();
        out.append(inner.as_str());
        out
    }
}

impl Error {
    /// The text of this error.
    pub open spec fn text(self) -> Seq<char> {
        match self {
            Error::ApiError(response) => "OpenAI Error: "@ + response.text(),
            Error::RequestError(cause) => "Reqwest Error: "@ + cause@,
        }
    }

    /// Renders this error as text.
    pub fn to_string(&self) -> (out: String)
        ensures
            out@ == self.text(),
    {
        match self {
            Error::ApiError(response) => {
                let mut out = String::from_str("OpenAI Error: ");
                let inner = response.to_string();
                out.append(inner.as_str());
                out
            },
            Error::RequestError(cause) => {
                let mut out = String::from_str("Reqwest Error: ");
                out.append(cause.as_str());
                out
            },
        }
    }
}

} // verus!
