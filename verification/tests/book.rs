use ai_toolbox::doc::book::{
    points_for, Book, IngestAction, IngestEvent, Ingestion, Query, QueryAction, QueryEvent,
    QueryStage, COLLECTION,
};
use ai_toolbox::doc::chunker::{EncodingError, SourceEncoding};
use ai_toolbox::doc::embedding::{
    BatchAction, BatchIncomplete, EmbedConfig, EmbeddingRequestFailed, EmbeddingVector,
    FailureCause,
};
use ai_toolbox::doc::error::PipelineError;
use ai_toolbox::openai::datamap::{
    ChatResponse, Choice, EmbeddingData, EmbeddingResponse, Message, Model, Usage, UsageReport,
};
use ai_toolbox::openai::error::Error;
use ai_toolbox::qdrant::{
    Filter, PayloadValue, PointMetadata, RetrievedPoint, BATCH_ID, DOCUMENT_ID, RAW_TEXT,
    TOKEN_COUNT,
};

fn config() -> EmbedConfig {
    EmbedConfig { model: Model::Ada002, dimension: 2, max_in_flight: 2, pacing_ms: 100 }
}

fn response(values: Vec<f32>, tokens: i32) -> EmbeddingResponse<f32> {
    EmbeddingResponse {
        object: "list".to_string(),
        data: vec![EmbeddingData { object: "embedding".to_string(), embedding: values, index: 0 }],
        model: Model::Ada002V2,
        usage: Usage { prompt_tokens: tokens, completion_tokens: 0, total_tokens: tokens },
    }
}

fn completed(index: usize) -> IngestEvent<f32> {
    IngestEvent::Completed { index, outcome: Ok(response(vec![index as f32, 1.0], 3 + index as i32)) }
}

fn book_of(chunks: &[&str]) -> Book {
    Book::from_chunks(
        "law.md".to_string(),
        "doc-A".to_string(),
        chunks.iter().map(|c| c.to_string()).collect(),
    )
}

fn point(document: &str, text: &str) -> RetrievedPoint {
    RetrievedPoint {
        payload: PointMetadata {
            batch_id: "b".to_string(),
            raw_text: text.to_string(),
            document_id: Some(document.to_string()),
            token_count: 1,
        }
        .into_payload(),
    }
}

fn chat_response(content: &str) -> ChatResponse {
    ChatResponse {
        id: "chatcmpl-1".to_string(),
        object: "chat.completion".to_string(),
        created: 1,
        choices: vec![Choice {
            index: 0,
            message: Message { role: "assistant".to_string(), content: content.to_string() },
            finish_reason: "stop".to_string(),
        }],
        usage: Usage { prompt_tokens: 1, completion_tokens: 0, total_tokens: 2 },
    }
}

#[test]
fn new_book_is_empty_and_has_a_fresh_id() {
    let a = Book::new("a.txt".to_string());
    let b = Book::new("a.txt".to_string());
    assert_eq!(a.name(), "a.txt");
    assert!(a.content().is_empty());
    assert!(!a.is_embedding_ready());
    assert_eq!(a.id().len(), 36);
    assert_ne!(a.id(), b.id());
    let c = Book::with_id("c".to_string(), "id-c".to_string());
    assert_eq!(c.id(), "id-c");
    assert!(c.content().is_empty());
}

#[test]
fn text_sources_are_chunked_by_budget() {
    let line = "x".repeat(60);
    let raw = format!("{}\r\n{}\r\nrest", line, line);
    let book = Book::upload("story.txt".to_string(), "txt", raw.as_bytes()).unwrap();
    assert_eq!(book.name(), "story.txt");
    assert_eq!(book.content(), &vec![format!("{}{}", line, line), "rest".to_string()]);
    assert!(!book.is_embedding_ready());
}

#[test]
fn other_sources_are_chunked_by_ten_lines() {
    let raw: String = (1..=23).map(|i| format!("line {}\n\n", i)).collect();
    let book = Book::upload("law.md".to_string(), "md", raw.as_bytes()).unwrap();
    assert_eq!(book.content().len(), 3);
    assert_eq!(book.content()[0].split("\r\n").count(), 10);
    assert_eq!(book.content()[1].split("\r\n").count(), 10);
    assert_eq!(book.content()[2], "line 21\r\nline 22\r\nline 23");
}

#[test]
fn sources_that_are_no_text_are_refused() {
    assert_eq!(
        Book::upload("bad.txt".to_string(), "txt", &[0x81]).err(),
        Some(EncodingError { encoding: SourceEncoding::Gbk })
    );
    assert_eq!(
        Book::upload("bad.md".to_string(), "md", &[0xFF]).err(),
        Some(EncodingError { encoding: SourceEncoding::Utf8 })
    );
}

#[test]
fn points_describe_their_chunks() {
    let chunks = vec!["first chunk".to_string(), "second chunk".to_string()];
    let vectors = vec![
        EmbeddingVector { index: 0, values: vec![0.5f32, 1.5] },
        EmbeddingVector { index: 1, values: vec![2.5f32, 3.5] },
    ];
    let report = UsageReport(vec![
        Usage { prompt_tokens: 4, completion_tokens: 0, total_tokens: 4 },
        Usage { prompt_tokens: 6, completion_tokens: 0, total_tokens: 6 },
    ]);
    let points = points_for(&chunks, vectors, &report, "doc-A", "batch-9");
    assert_eq!(points.len(), 2);
    assert_eq!(points[0].vectors, vec![0.5, 1.5]);
    assert_eq!(points[1].vectors, vec![2.5, 3.5]);
    for (i, p) in points.iter().enumerate() {
        assert_eq!(p.payload.text(RAW_TEXT), Some(chunks[i].as_str()));
        assert_eq!(p.payload.text(DOCUMENT_ID), Some("doc-A"));
        assert_eq!(p.payload.text(BATCH_ID), Some("batch-9"));
    }
    assert_eq!(points[0].payload.get(TOKEN_COUNT), Some(&PayloadValue::Integer(4)));
    assert_eq!(points[1].payload.get(TOKEN_COUNT), Some(&PayloadValue::Integer(6)));
}

#[test]
fn ingestion_stores_what_was_embedded() {
    let chunks = ["alpha", "beta", "gamma"];
    let ingestion: Ingestion<f32> = book_of(&chunks).update_embedding(config(), COLLECTION);
    let (ingestion, action) = ingestion.step(IngestEvent::Ready);
    let mut sent: Vec<String> = Vec::new();
    match action {
        IngestAction::Embed(BatchAction::Submit { index, payload, pacing_ms }) => {
            assert_eq!((index, pacing_ms), (0, 100));
            assert_eq!(payload.model, Model::Ada002);
            sent.push(payload.input);
        }
        other => panic!("{:?}", other),
    }
    let (ingestion, action) = ingestion.step(IngestEvent::Ready);
    match action {
        IngestAction::Embed(BatchAction::Submit { index, payload, .. }) => {
            assert_eq!(index, 1);
            sent.push(payload.input);
        }
        other => panic!("{:?}", other),
    }
    let (ingestion, action) = ingestion.step(IngestEvent::Ready);
    assert_eq!(action, IngestAction::Embed(BatchAction::Await));
    let (ingestion, action) = ingestion.step(completed(1));
    match action {
        IngestAction::Embed(BatchAction::Submit { index, payload, .. }) => {
            assert_eq!(index, 2);
            sent.push(payload.input);
        }
        other => panic!("{:?}", other),
    }
    let (ingestion, action) = ingestion.step(completed(2));
    assert_eq!(action, IngestAction::Embed(BatchAction::Await));
    let (ingestion, action) = ingestion.step(completed(0));
    let request = match action {
        IngestAction::Upsert(request) => request,
        other => panic!("{:?}", other),
    };
    assert_eq!(sent, vec!["alpha", "beta", "gamma"]);
    assert_eq!(request.collection_name, "gpt_embeddings");
    assert_eq!(request.points.len(), 3);
    for (i, p) in request.points.iter().enumerate() {
        assert_eq!(p.vectors, vec![i as f32, 1.0]);
        assert_eq!(p.payload.text(RAW_TEXT), Some(sent[i].as_str()));
        assert_eq!(p.payload.text(DOCUMENT_ID), Some("doc-A"));
        assert_eq!(p.payload.get(TOKEN_COUNT), Some(&PayloadValue::Integer(3 + i as i64)));
        assert_eq!(p.payload.text(BATCH_ID), request.points[0].payload.text(BATCH_ID));
    }
    let (ingestion, action) = ingestion.step(IngestEvent::Ready);
    assert_eq!(action, IngestAction::AwaitStore);
    let (ingestion, action) = ingestion.step(IngestEvent::Stored(Ok(())));
    assert_eq!(action, IngestAction::Done);
    let (ingestion, action) = ingestion.step(IngestEvent::Ready);
    assert_eq!(action, IngestAction::Idle);
    let book = ingestion.finish();
    assert!(book.is_embedding_ready());
    assert_eq!(book.content(), &vec!["alpha".to_string(), "beta".to_string(), "gamma".to_string()]);
}

#[test]
fn failed_embedding_stores_nothing() {
    let chunks = ["c0", "c1", "c2", "c3", "c4"];
    let wide = EmbedConfig { max_in_flight: 8, ..config() };
    let mut ingestion: Ingestion<f32> = book_of(&chunks).update_embedding(wide, COLLECTION);
    for _ in 0..5 {
        let (next, action) = ingestion.step(IngestEvent::Ready);
        assert!(matches!(action, IngestAction::Embed(BatchAction::Submit { .. })));
        ingestion = next;
    }
    let mut actions: Vec<IngestAction<f32>> = Vec::new();
    for index in [0usize, 1, 2] {
        let (next, action) = ingestion.step(completed(index));
        actions.push(action);
        ingestion = next;
    }
    let failure = IngestEvent::Completed {
        index: 3,
        outcome: Err(Error::RequestError("reset".to_string())),
    };
    let (next, action) = ingestion.step(failure);
    actions.push(action);
    let (next, action) = next.step(completed(4));
    assert!(actions.iter().all(|a| *a == IngestAction::Embed(BatchAction::Await)));
    assert_eq!(
        action,
        IngestAction::Failed(PipelineError::BatchIncomplete(BatchIncomplete {
            failures: vec![EmbeddingRequestFailed {
                index: 3,
                cause: FailureCause::Request(Error::RequestError("reset".to_string())),
            }],
        }))
    );
    let (next, action) = next.step(IngestEvent::Stored(Ok(())));
    assert_eq!(action, IngestAction::Idle);
    assert!(!next.finish().is_embedding_ready());
}

#[test]
fn store_failure_fails_the_ingestion() {
    let ingestion: Ingestion<f32> = book_of(&["only"]).update_embedding(config(), COLLECTION);
    let (ingestion, _) = ingestion.step(IngestEvent::Ready);
    let (ingestion, action) = ingestion.step(completed(0));
    assert!(matches!(action, IngestAction::Upsert(_)));
    let (ingestion, action) = ingestion.step(IngestEvent::Stored(Err("no such collection".to_string())));
    assert_eq!(
        action,
        IngestAction::Failed(PipelineError::StoreError("no such collection".to_string()))
    );
    assert!(!ingestion.finish().is_embedding_ready());
}

#[test]
fn query_runs_from_question_to_answer() {
    let (query, action): (Query, QueryAction<f32>) =
        Book::query_book_with_chat("妇女和男人的就业权力一样么?", "doc-A".to_string());
    assert_eq!(query.stage(), QueryStage::Embedding);
    match action {
        QueryAction::Embed(payload) => {
            assert_eq!(payload.model, Model::Ada002);
            assert_eq!(payload.input, "妇女和男人的就业权力一样么?");
        }
        other => panic!("{:?}", other),
    }
    let values: Vec<f32> = vec![0.25; 1536];
    let (query, action) = query.step(QueryEvent::Embedded(Ok(response(values.clone(), 9))));
    assert_eq!(query.stage(), QueryStage::Searching);
    match action {
        QueryAction::Search(request) => {
            assert_eq!(request.collection_name, "gpt_embeddings");
            assert_eq!(request.vector, values);
            assert_eq!(request.filter, Some(Filter::scoped_to("doc-A")));
            assert_eq!(request.limit, 5);
            assert!(request.with_payload);
        }
        other => panic!("{:?}", other),
    }
    let found = vec![point("doc-A", "平等."), point("doc-B", "other."), point("doc-A", "权利.")];
    let (query, action) = query.step::<f32>(QueryEvent::Found(Ok(found)));
    assert_eq!(query.stage(), QueryStage::Chatting);
    match action {
        QueryAction::Chat(request) => {
            assert_eq!(request.messages.len(), 1);
            assert!(request.messages[0].content.contains("'''平等.权利.'''"));
            assert!(!request.messages[0].content.contains("other."));
            assert!(request.messages[0].content.ends_with("问题: 妇女和男人的就业权力一样么?"));
        }
        other => panic!("{:?}", other),
    }
    let (query, action) = query.step::<f32>(QueryEvent::Answered(Ok(chat_response("一样."))));
    assert_eq!(query.stage(), QueryStage::Over);
    assert_eq!(action, QueryAction::Done { answer: "一样.".to_string(), context_found: true });
    let (query, action) = query.step::<f32>(QueryEvent::Answered(Ok(chat_response("again"))));
    assert_eq!(action, QueryAction::Idle);
    assert_eq!(query.stage(), QueryStage::Over);
}

#[test]
fn query_without_context_still_asks_and_says_so() {
    let (query, _): (Query, QueryAction<f32>) =
        Query::start("q", Some("doc-A".to_string()), "c", Model::Ada002, 2);
    let (query, _) = query.step(QueryEvent::Embedded(Ok(response(vec![1.0, 2.0], 1))));
    let (query, action) = query.step::<f32>(QueryEvent::Found(Ok(vec![point("doc-B", "x")])));
    match action {
        QueryAction::Chat(request) => {
            assert!(request.messages[0].content.contains("''''''"));
            assert!(request.messages[0].content.contains("无可奉告"));
        }
        other => panic!("{:?}", other),
    }
    let (_, action) = query.step::<f32>(QueryEvent::Answered(Ok(chat_response("无可奉告"))));
    assert_eq!(action, QueryAction::Done { answer: "无可奉告".to_string(), context_found: false });
}

#[test]
fn unscoped_query_takes_every_document() {
    let (query, _): (Query, QueryAction<f32>) = Query::start("q", None, "c", Model::Ada002, 2);
    let (query, action) = query.step(QueryEvent::Embedded(Ok(response(vec![1.0, 2.0], 1))));
    match action {
        QueryAction::Search(request) => assert_eq!(request.filter, Some(Filter::any())),
        other => panic!("{:?}", other),
    }
    let (_, action) =
        query.step::<f32>(QueryEvent::Found(Ok(vec![point("doc-A", "a"), point("doc-B", "b")])));
    match action {
        QueryAction::Chat(request) => assert!(request.messages[0].content.contains("'''ab'''")),
        other => panic!("{:?}", other),
    }
}

#[test]
fn query_failures_are_kept_apart_by_step() {
    let start = || -> Query {
        let (query, _): (Query, QueryAction<f32>) =
            Query::start("q", Some("doc-A".to_string()), "c", Model::Ada002, 2);
        query
    };
    let (query, action) =
        start().step::<f32>(QueryEvent::Embedded(Err(Error::RequestError("dns".to_string()))));
    assert_eq!(query.stage(), QueryStage::Over);
    assert_eq!(
        action,
        QueryAction::Failed(PipelineError::EmbeddingRequestFailed(EmbeddingRequestFailed {
            index: 0,
            cause: FailureCause::Request(Error::RequestError("dns".to_string())),
        }))
    );
    let (query, _) = start().step(QueryEvent::Embedded(Ok(response(vec![1.0, 2.0], 1))));
    let (query, action) = query.step::<f32>(QueryEvent::Found(Err("timeout".to_string())));
    assert_eq!(query.stage(), QueryStage::Over);
    assert_eq!(action, QueryAction::Failed(PipelineError::StoreError("timeout".to_string())));
    let (query, _) = start().step(QueryEvent::Embedded(Ok(response(vec![1.0, 2.0], 1))));
    let (query, _) = query.step::<f32>(QueryEvent::Found(Ok(Vec::new())));
    let (_, action) =
        query.step::<f32>(QueryEvent::Answered(Err(Error::RequestError("reset".to_string()))));
    assert_eq!(action, QueryAction::Failed(PipelineError::TransportError("reset".to_string())));
}

#[test]
fn events_out_of_turn_change_nothing() {
    let (query, _): (Query, QueryAction<f32>) =
        Query::start("q", Some("doc-A".to_string()), "c", Model::Ada002, 2);
    let (query, action) = query.step::<f32>(QueryEvent::Found(Ok(Vec::new())));
    assert_eq!(action, QueryAction::Idle);
    assert_eq!(query.stage(), QueryStage::Embedding);
    let (query, action) = query.step::<f32>(QueryEvent::Answered(Ok(chat_response("x"))));
    assert_eq!(action, QueryAction::Idle);
    assert_eq!(query.stage(), QueryStage::Embedding);
}
