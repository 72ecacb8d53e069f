//! The chat format of the table-driven request builder.

use vstd::prelude::*;

verus! {

/// One message of a chat.
#[derive(Debug, Clone, PartialEq, Eq)]
pub struct ChatFormat {
    role: String,
    content: String,
}

impl ChatFormat {
    /// A message of the given role.
    pub fn new(role: String, content: String) -> (message: ChatFormat)
        ensures
            message.spec_role() == role@,
            message.spec_content() == content@,
    {
        ChatFormat { role, content }
    }

    /// The role of the message.
    pub closed spec fn spec_role(&self) -> Seq<char> {
        self.role@
    }

    /// The content of the message.
    pub closed spec fn spec_content(&self) -> Seq<char> {
        self.content@
    }

    /// The role of the message.
    pub fn role(&self) -> (role: &str)
        ensures
            role@ == self.spec_role(),
    {
        self.role.as_str()
    }

    /// The content of the message.
    pub fn content(&self) -> (content: &str)
        ensures
            content@ == self.spec_content(),
    {
        self.content.as_str()
    }
}

/// A chat request. What is `None` is left to the defaults of the service.
#[derive(Debug, Clone, PartialEq, Eq)]
pub struct GPTPayload {
    model: String,
    message: Vec<ChatFormat>,
    temperature: Option<u32>,
    top_p: Option<u32>,
    n: Option<u32>,
    stream: Option<bool>,
    logprobs: Option<u32>,
}

impl GPTPayload {
    /// The request that sends the messages to the model, with everything
    /// else left to the defaults of the service.
    pub fn new(model: String, message: Vec<ChatFormat>) -> (payload: GPTPayload)
        ensures
            payload.spec_model() == model@,
            payload.spec_message() == message@,
            payload.is_plain(),
    {
        GPTPayload {
            model,
            message,
            temperature: None,
            top_p: None,
            n: None,
            stream: None,
            logprobs: None,
        }
    }

    /// The name of the model.
    pub closed spec fn spec_model(&self) -> Seq<char> {
        self.model@
    }

    /// The messages of the chat.
    pub closed spec fn spec_message(&self) -> Seq<ChatFormat> {
        self.message@
    }

    /// Whether everything but model and messages is left to the defaults.
    pub closed spec fn is_plain(&self) -> bool {
        &&& self.temperature is None
        &&& self.top_p is None
        &&& self.n is None
        &&& self.stream is None
        &&& self.logprobs is None
    }

    /// The name of the model.
    pub fn model(&self) -> (model: &str)
        ensures
            model@ == self.spec_model(),
    {
        self.model.as_str()
    }

    /// The messages of the chat.
    pub fn message(&self) -> (message: &Vec<ChatFormat>)
        ensures
            message@ == self.spec_message(),
    {
        &self.message
    }
}

} // verus!
