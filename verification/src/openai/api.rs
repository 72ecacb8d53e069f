//! Where the requests to the service go, and what kind of response each
//! interface answers with.

use crate::text::same_text;
use vstd::prelude::*;
use vstd::string::StringExecFns;

verus! {

/// The address that all interfaces of the service lie under.
pub const BASE_URL: &'static str = "https://api.openai.com/v1";

/// The header that names the organization of a request.
pub const ORGANIZATION_HEADER: &'static str = "OpenAI-Organization";

/// The words before the secret in the authorization of a request.
pub const BEARER: &'static str = "Bearer ";

/// The method of a request.
#[derive(Debug, Clone, Copy, PartialEq, Eq, Structural)]
pub enum ApiMethod {
    GET,
    POST,
}

/// The kinds of response that are read.
#[derive(Debug, Clone, Copy, PartialEq, Eq, Structural)]
pub enum ResponseKind {
    Completion,
    Chat,
    Embedding,
}

/// The secret that authorizes requests.
#[derive(Debug, Clone, PartialEq, Eq)]
pub struct Token {
    secret: String,
}

impl View for Token {
    type V = Seq<char>;

    closed spec fn view(&self) -> Seq<char> {
        self.secret@
    }
}

impl Token {
    /// The token of a secret.
    pub fn new(secret: String) -> (token: Token)
        ensures
            token@ == secret@,
    {
        Token { secret }
    }

    /// The authorization that this token stands for.
    pub fn to_string(&self) -> (out: String)
        ensures
            out@ == BEARER@ + self@,
    {
        let mut out = String::from_str(BEARER);
        out.append(self.secret.as_str());
        out
    }
}

/// The path of an interface under the base address, by the name of the
/// interface; `None` for a name that is no interface.
pub open spec fn endpoint_path(api_key: Seq<char>) -> Option<Seq<char>> {
    if api_key == "createChat"@ {
        Some("/chat/completions"@)
    } else if api_key == "createEdit"@ {
        Some("/edits"@)
    } else if api_key == "createImage"@ {
        Some("/images/generations"@)
    } else if api_key == "createImageEdit"@ {
        Some("/images/edits"@)
    } else if api_key == "createImageVariation"@ {
        Some("/images/variations"@)
    } else if api_key == "createEmbedding"@ {
        Some("/embeddings"@)
    } else if api_key == "createTranscription"@ {
        Some("/audio/transcriptions"@)
    } else if api_key == "createTranslation"@ {
        Some("/audio/translations"@)
    } else if api_key == "listModels"@ {
        Some("/models"@)
    } else if api_key == "createCompletion"@ {
        Some("/completions"@)
    } else {
        None
    }
}

/// Looks up the path of an interface.
pub fn endpoint(api_key: &str) -> (path: Option<&'static str>)
    ensures
        match path {
            Some(p) => endpoint_path(api_key@) == Some(p@),
            None => endpoint_path(api_key@) is None,
        },
{
    if same_text(api_key, "createChat") {
        Some("/chat/completions")
    } else if same_text(api_key, "createEdit") {
        Some("/edits")
    } else if same_text(api_key, "createImage") {
        Some("/images/generations")
    } else if same_text(api_key, "createImageEdit") {
        Some("/images/edits")
    } else if same_text(api_key, "createImageVariation") {
        Some("/images/variations")
    } else if same_text(api_key, "createEmbedding") {
        Some("/embeddings")
    } else if same_text(api_key, "createTranscription") {
        Some("/audio/transcriptions")
    } else if same_text(api_key, "createTranslation") {
        Some("/audio/translations")
    } else if same_text(api_key, "listModels") {
        Some("/models")
    } else if same_text(api_key, "createCompletion") {
        Some("/completions")
    } else {
        None
    }
}

/// Writes the address of an interface: the base address and the path of
/// the interface. There is none for a name that is no interface.
pub fn assemble_url(api_key: &str) -> (url: Option<String>)
    ensures
        match url {
            Some(u) => endpoint_path(api_key@) matches Some(path) && u@ == BASE_URL@ + path,
            None => endpoint_path(api_key@) is None,
        },
{
    match endpoint(api_key) {
        Some(path) => {
            let mut url = String::from_str(BASE_URL);
            url.append(path);
            Some(url)
        },
        None => None,
    }
}

/// The kind of response that an interface answers a successful request
/// with; `None` for the interfaces whose responses are not read.
pub open spec fn spec_response_kind(api_key: Seq<char>) -> Option<ResponseKind> {
    if api_key == "createCompletion"@ {
        Some(ResponseKind::Completion)
    } else if api_key == "createChat"@ {
        Some(ResponseKind::Chat)
    } else if api_key == "createEmbedding"@ {
        Some(ResponseKind::Embedding)
    } else {
        None
    }
}

/// Tells the kind of response that an interface answers a successful
/// request with.
pub fn response_kind(api_key: &str) -> (kind: Option<ResponseKind>)
    ensures
        kind == spec_response_kind(api_key@),
{
    if same_text(api_key, "createCompletion") {
        Some(ResponseKind::Completion)
    } else if same_text(api_key, "createChat") {
        Some(ResponseKind::Chat)
    } else if same_text(api_key, "createEmbedding") {
        Some(ResponseKind::Embedding)
    } else {
        None
    }
}

/// What is to be read from the body of a response.
#[derive(Debug, Clone, Copy, PartialEq, Eq, Structural)]
pub enum BodyKind {
    /// A response of the given kind.
    Response(ResponseKind),
    /// An error report of the service.
    ErrorReport,
}

/// Decides what is to be read from the body of the response to a request
/// to the given interface: an error report where the status is no success,
/// else the response of the interface. There is nothing to read from a
/// success of an interface whose responses are not read.
pub fn body_kind(api_key: &str, success: bool) -> (kind: Option<BodyKind>)
    ensures
        kind == if !success {
            Some(BodyKind::ErrorReport)
        } else {
            match spec_response_kind(api_key@) {
                Some(k) => Some(BodyKind::Response(k)),
                None => None,
            }
        },
{
    if !success {
        Some(BodyKind::ErrorReport)
    } else {
        match response_kind(api_key) {
            Some(k) => Some(BodyKind::Response(k)),
            None => None,
        }
    }
}

} // verus!
