//! Requests and responses of the completion and embedding service.

use vstd::prelude::*;

verus! {

/// The models that requests can name.
#[derive(Debug, Clone, Copy, PartialEq, Eq, Structural)]
pub enum Model {
    /// gpt 3.5 turbo model
    Gpt35Turbo,
    /// GPT turbo 0301 model
    Gpt35Turbo0301,
    /// Text Embedding Ada 002
    Ada002,
    /// Text Embedding Ada 002 v2
    Ada002V2,
}

impl Default for Model {
    fn default() -> (model: Model)
        ensures
            model == Model::Gpt35Turbo,
    {
        Model::Gpt35Turbo
    }
}

impl Model {
    /// The name by which the service knows this model.
    pub open spec fn spec_name(self) -> Seq<char> {
        match self {
            Model::Gpt35Turbo => "gpt-3.5-turbo"@,
            Model::Gpt35Turbo0301 => "gpt-3.5-turbo-0301"@,
            Model::Ada002 => "text-embedding-ada-002"@,
            Model::Ada002V2 => "text-embedding-ada-002-v2"@,
        }
    }

    /// The name by which the service knows this model.
    pub fn name(&self) -> (name: &'static str)
        ensures
            name@ == self.spec_name(),
    {
        match self {
            Model::Gpt35Turbo => "gpt-3.5-turbo",
            Model::Gpt35Turbo0301 => "gpt-3.5-turbo-0301",
            Model::Ada002 => "text-embedding-ada-002",
            Model::Ada002V2 => "text-embedding-ada-002-v2",
        }
    }

    /// Whether this model computes embeddings (the others complete chats).
    pub open spec fn spec_is_embedding(self) -> bool {
        self == Model::Ada002 || self == Model::Ada002V2
    }

    /// Whether this model computes embeddings (the others complete chats).
    pub fn is_embedding(&self) -> (b: bool)
        ensures
            b == self.spec_is_embedding(),
    {
        match self {
            Model::Ada002 | Model::Ada002V2 => true,
            _ => false,
        }
    }
}

/// One message of a chat.
#[derive(Debug, Clone, PartialEq, Eq)]
pub struct Message {
    /// role for the message
    pub role: String,
    /// message content
    pub content: String,
}

/// One completion of a chat.
#[derive(Debug, Clone, PartialEq, Eq)]
pub struct Choice {
    /// Index of the message
    pub index: u32,
    /// text of chat completion
    pub message: Message,
    /// finish reason for the chat completion
    pub finish_reason: String,
}

/// A chat request. Sampling is left to the defaults of the service.
#[derive(Debug, Clone, PartialEq, Eq)]
pub struct ChatPayload {
    /// ID of the model to use.
    pub model: Model,
    /// Messages to generate chat completions for, in the chat format.
    pub messages: Vec<Message>,
    /// How many chat completion choices to generate for each input message.
    pub n: Option<i32>,
    /// Up to 4 sequences where the API will stop generating further tokens.
    pub stop: Option<Vec<String>>,
    /// Maximum number of tokens to generate for each chat completion choice.
    pub max_tokens: Option<i32>,
    /// A unique identifier representing the end-user.
    pub user: Option<String>,
}

impl Default for ChatPayload {
    fn default() -> (payload: ChatPayload)
        ensures
            payload.model == Model::Gpt35Turbo,
            payload.messages@.len() == 0,
            payload.n is None,
            payload.stop is None,
            payload.max_tokens is None,
            payload.user is None,
    {
        ChatPayload {
            model: Model::Gpt35Turbo,
            messages: Vec::new(),
            n: None,
            stop: None,
            max_tokens: None,
            user: None,
        }
    }
}

/// usage information for the OpenAI API.
#[derive(Debug, Clone, Copy, PartialEq, Eq, Structural)]
pub struct Usage {
    /// how many tokens were used for the prompt.
    pub prompt_tokens: i32,
    /// how many tokens were used for the chat completion.
    pub completion_tokens: i32,
    /// how many tokens were used for the entire request.
    pub total_tokens: i32,
}

/// The response to a chat request.
#[derive(Debug, Clone, PartialEq, Eq)]
pub struct ChatResponse {
    /// ID of the request.
    pub id: String,
    pub object: String,
    /// when the request was created.
    pub created: i64,
    /// list of chat completion choices.
    pub choices: Vec<Choice>,
    /// usage information for the request.
    pub usage: Usage,
}

/// The contents of the first `upto` choices, one behind the other.
pub open spec fn contents(choices: Seq<Choice>, upto: int) -> Seq<char>
    decreases upto,
{
    if upto <= 0 {
        Seq::empty()
    } else {
        contents(choices, upto - 1) + choices[upto - 1].message.content@
    }
}

impl ChatResponse {
    /// The answer: the contents of all choices, in order, with nothing
    /// between them.
    pub open spec fn text(self) -> Seq<char> {
        contents(self.choices@, self.choices@.len() as int)
    }

    /// The answer as text: the contents of all choices, in order.
    pub fn to_string(&self) -> (out: String)
        ensures
            out@ == self.text(),
    {
        let mut out = String::new();
        let n: usize = self.choices.len();
        let mut i: usize = 0;
        while i < n
            invariant
                n == self.choices@.len(),
                i <= n,
                out@ == contents(self.choices@, i as int),
            decreases n - i,
        {
            out.append(self.choices[i].message.content.as_str());
            i = i + 1;
        }
        out
    }
}

/// Model Response
#[derive(Debug, Clone, PartialEq, Eq)]
pub struct ModelResponse {
    pub data: Vec<ModelData>,
    pub object: String,
}

/// Model data object
#[derive(Debug, Clone, PartialEq, Eq)]
pub struct ModelData {
    pub id: String,
    pub object: String,
    pub owned_by: String,
    pub permission: Vec<PermissionData>,
}

/// What a model may be used for.
#[derive(Debug, Clone, Copy, PartialEq, Eq, Structural)]
pub struct PermissionData {
    pub allow_create_engine: bool,
    pub allow_fine_tuning: bool,
    pub allow_logprobs: bool,
    pub allow_sampling: bool,
    pub allow_search_indices: bool,
    pub allow_view: bool,
}

/// An embedding request for one text.
#[derive(Debug, Clone, PartialEq, Eq)]
pub struct EmbeddingPayload {
    pub model: Model,
    pub input: String,
    pub user: Option<String>,
}

impl Default for EmbeddingPayload {
    fn default() -> (payload: EmbeddingPayload)
        ensures
            payload.model == Model::Gpt35Turbo,
            payload.input@.len() == 0,
            payload.user is None,
    {
        EmbeddingPayload { model: Model::Gpt35Turbo, input: String::new(), user: None }
    }
}

/// One embedding of a response. `T` is the type of a component of the
/// vector.
#[derive(Debug, Clone, PartialEq)]
pub struct EmbeddingData<T> {
    pub object: String,
    pub embedding: Vec<T>,
    pub index: u32,
}

/// The response to an embedding request.
#[derive(Debug, Clone, PartialEq)]
pub struct EmbeddingResponse<T> {
    pub object: String,
    pub data: Vec<EmbeddingData<T>>,
    pub model: Model,
    pub usage: Usage,
}

impl<T> EmbeddingResponse<T> {
    /// What this request has used.
    pub fn log(&self) -> (usage: Usage)
        ensures
            usage == self.usage,
    {
        self.usage
    }
}

/// What the requests of one batch have used, one record per request, in the
/// order of the batch.
#[derive(Debug, Clone, PartialEq, Eq)]
pub struct UsageReport(pub Vec<Usage>);

/// The tokens that the first `upto` records count in all.
pub open spec fn tokens(records: Seq<Usage>, upto: int) -> int
    decreases upto,
{
    if upto <= 0 {
        0
    } else {
        tokens(records, upto - 1) + records[upto - 1].total_tokens
    }
}

/// The sum of `upto` token counts lies within `upto` times the range of one.
pub proof fn lemma_tokens_bounds(records: Seq<Usage>, upto: int)
    requires
        0 <= upto <= records.len(),
    ensures
        upto * (i32::MIN as int) <= tokens(records, upto) <= upto * (i32::MAX as int),
    decreases upto,
{
    if upto > 0 {
        lemma_tokens_bounds(records, upto - 1);
        assert((upto - 1) * (i32::MIN as int) + (i32::MIN as int) == upto * (i32::MIN as int))
            by (nonlinear_arith);
        assert((upto - 1) * (i32::MAX as int) + (i32::MAX as int) == upto * (i32::MAX as int))
            by (nonlinear_arith);
    }
}

impl UsageReport {
    /// The tokens that all requests of the batch have used.
    pub open spec fn spec_total_tokens(self) -> int {
        tokens(self.0@, self.0@.len() as int)
    }

    /// The tokens that all requests of the batch have used.
    pub fn total_tokens(&self) -> (total: i128)
        ensures
            total == self.spec_total_tokens(),
    {
        let n: usize = self.0.len();
        let mut total: i128 = 0;
        let mut i: usize = 0;
        while i < n
            invariant
                n == self.0@.len(),
                i <= n,
                total == tokens(self.0@, i as int),
            decreases n - i,
        {
            proof {
                lemma_tokens_bounds(self.0@, i as int);
                assert(i * (i32::MIN as int) >= -0x1_0000_0000_0000_0000 * 0x8000_0000
                    && i * (i32::MAX as int) <= 0x1_0000_0000_0000_0000 * 0x8000_0000)
                    by (nonlinear_arith)
                    requires
                        0 <= i <= 0xffff_ffff_ffff_ffff,
                ;
            }
            total = total + self.0[i].total_tokens as i128;
            i = i + 1;
        }
        total
    }
}

} // verus!
