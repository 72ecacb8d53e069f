use ai_toolbox::gpt::chat::{ChatFormat, GPTPayload};
use ai_toolbox::gpt::error::{
    ChatError, CustomError, EditError, Error, GPTError, GPTErrorResponse,
};
use ai_toolbox::gpt::gpt::{ApiEntry, GPTRequestBuilder};

fn row(name: &str, value: &str) -> ApiEntry {
    ApiEntry { name: name.to_string(), value: value.to_string() }
}

#[test]
fn chat_format_and_payload() {
    let message = ChatFormat::new("user".to_string(), "hello".to_string());
    assert_eq!(message.role(), "user");
    assert_eq!(message.content(), "hello");
    let payload = GPTPayload::new("gpt-3.5-turbo".to_string(), vec![message.clone()]);
    assert_eq!(payload.model(), "gpt-3.5-turbo");
    assert_eq!(payload.message(), &vec![message]);
}

#[test]
fn builder_looks_up_its_table() {
    let builder = GPTRequestBuilder::new(
        "token".to_string(),
        vec![
            row("baseUrl", "https://api.openai.com/v1"),
            row("createChat", "/old"),
            row("listModels", "/models"),
            row("createChat", "/chat/completions"),
        ],
    );
    assert_eq!(builder.token(), "token");
    assert_eq!(builder.get("listModels"), Some("/models"));
    assert_eq!(builder.get("createChat"), Some("/chat/completions"));
    assert_eq!(builder.get("createEdit"), None);
    assert_eq!(
        builder.retrieve_url("createChat"),
        Some("https://api.openai.com/v1/chat/completions".to_string())
    );
    assert_eq!(builder.retrieve_url("createEdit"), None);
    let bare = GPTRequestBuilder::new("t".to_string(), vec![row("listModels", "/models")]);
    assert_eq!(bare.retrieve_url("listModels"), None);
}

#[test]
fn gpt_error_texts() {
    let chat = GPTError::ChatError(ChatError {
        message: "bad request".to_string(),
        error_type: "invalid_request_error".to_string(),
    });
    assert_eq!(chat.to_string(), "Chat API Error, invalid_request_error: bad request");
    assert_eq!(GPTError::EditError(EditError {}).to_string(), "OpenAI Edit API Error");
    assert_eq!(
        GPTErrorResponse { error: chat }.to_string(),
        "API Error Response: Chat API Error, invalid_request_error: bad request"
    );
}

#[test]
fn custom_errors_keep_their_cause() {
    assert_eq!(
        CustomError::from_api(Error::RequestError("x".to_string())),
        CustomError::GPTApiError(Error::RequestError("x".to_string()))
    );
    assert_eq!(
        CustomError::from_store("io".to_string()),
        CustomError::SledError("io".to_string())
    );
}
