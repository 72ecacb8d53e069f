use ai_toolbox::openai::datamap::EmbeddingData;
use ai_toolbox::qdrant::{
    clear_points, create_collection, query_points, retrieve_points, upsert_points, zip_points,
    CreateCollection, Distance, FieldCondition, Filter, Payload, PayloadEntry, PayloadValue,
    PointMetadata, ScrollPoints, BATCH_ID, DOCUMENT_ID, RAW_TEXT, TOKEN_COUNT, TOP_K, VECTOR_SIZE,
};

fn metadata(document: Option<&str>, text: &str) -> PointMetadata {
    PointMetadata {
        batch_id: "batch-1".to_string(),
        raw_text: text.to_string(),
        document_id: document.map(|d| d.to_string()),
        token_count: 7,
    }
}

fn entry(key: &str, value: PayloadValue) -> PayloadEntry {
    PayloadEntry { key: key.to_string(), value }
}

fn text(value: &str) -> PayloadValue {
    PayloadValue::Text(value.to_string())
}

fn condition(key: &str, value: &str) -> FieldCondition {
    FieldCondition { key: key.to_string(), text: value.to_string() }
}

#[test]
fn payload_keys() {
    assert_eq!(DOCUMENT_ID, "document_id");
    assert_eq!(RAW_TEXT, "raw_text");
    assert_eq!(TOKEN_COUNT, "token_count");
    assert_eq!(BATCH_ID, "batch_id");
    assert_eq!(TOP_K, 5);
    assert_eq!(VECTOR_SIZE, 1536);
}

#[test]
fn metadata_is_stored_field_by_field() {
    let payload = metadata(Some("doc-A"), "the chunk").into_payload();
    assert_eq!(
        payload.entries,
        vec![
            entry("batch_id", text("batch-1")),
            entry("raw_text", text("the chunk")),
            entry("document_id", text("doc-A")),
            entry("token_count", PayloadValue::Integer(7)),
        ]
    );
    assert_eq!(Payload::from(metadata(Some("doc-A"), "the chunk")), payload);
}

#[test]
fn metadata_without_document_has_no_document_entry() {
    let payload = metadata(None, "the chunk").into_payload();
    assert_eq!(
        payload.entries,
        vec![
            entry("batch_id", text("batch-1")),
            entry("raw_text", text("the chunk")),
            entry("token_count", PayloadValue::Integer(7)),
        ]
    );
    assert_eq!(payload.text(DOCUMENT_ID), None);
}

#[test]
fn metadata_can_be_read_back() {
    let payload = metadata(Some("doc-A"), "the chunk\r\nof two lines").into_payload();
    assert_eq!(payload.text(RAW_TEXT), Some("the chunk\r\nof two lines"));
    assert_eq!(payload.text(DOCUMENT_ID), Some("doc-A"));
    assert_eq!(payload.text(BATCH_ID), Some("batch-1"));
    assert_eq!(payload.get(TOKEN_COUNT), Some(&PayloadValue::Integer(7)));
    assert_eq!(payload.text(TOKEN_COUNT), None);
    assert_eq!(payload.get("missing"), None);
}

#[test]
fn first_entry_of_a_key_counts() {
    let payload = Payload {
        entries: vec![
            entry("k", PayloadValue::Null),
            entry("k", text("later")),
            entry("other", PayloadValue::Bool(true)),
        ],
    };
    assert_eq!(payload.get("k"), Some(&PayloadValue::Null));
    assert_eq!(payload.text("k"), None);
    assert_eq!(payload.get("other"), Some(&PayloadValue::Bool(true)));
}

#[test]
fn scope_filter_passes_exactly_the_document() {
    let filter = Filter::scoped_to("doc-A");
    assert_eq!(filter.must, vec![condition("document_id", "doc-A")]);
    assert!(filter.should.is_empty());
    assert!(filter.must_not.is_empty());
    assert!(filter.accepts(&metadata(Some("doc-A"), "x").into_payload()));
    assert!(!filter.accepts(&metadata(Some("doc-B"), "x").into_payload()));
    assert!(!filter.accepts(&metadata(Some("doc-A2"), "x").into_payload()));
    assert!(!filter.accepts(&metadata(None, "x").into_payload()));
    let number = Payload { entries: vec![entry("document_id", PayloadValue::Integer(1))] };
    assert!(!filter.accepts(&number));
}

#[test]
fn filter_semantics() {
    let a = metadata(Some("doc-A"), "x").into_payload();
    let any = Filter::any();
    assert!(any.accepts(&a));
    assert!(any.accepts(&Payload { entries: Vec::new() }));
    let should = Filter {
        should: vec![condition("document_id", "doc-B"), condition("document_id", "doc-A")],
        must: Vec::new(),
        must_not: Vec::new(),
    };
    assert!(should.accepts(&a));
    let should_not = Filter {
        should: vec![condition("document_id", "doc-B")],
        must: Vec::new(),
        must_not: Vec::new(),
    };
    assert!(!should_not.accepts(&a));
    let must_both = Filter {
        should: Vec::new(),
        must: vec![condition("document_id", "doc-A"), condition("batch_id", "batch-2")],
        must_not: Vec::new(),
    };
    assert!(!must_both.accepts(&a));
    let must_not = Filter {
        should: Vec::new(),
        must: vec![condition("document_id", "doc-A")],
        must_not: vec![condition("batch_id", "batch-1")],
    };
    assert!(!must_not.accepts(&a));
    assert!(condition("raw_text", "x").holds_of(&a));
    assert!(!condition("raw_text", "y").holds_of(&a));
}

#[test]
fn points_pair_vectors_with_metadata() {
    let vectors = vec![vec![1.0f32, 2.0], vec![3.0, 4.0], vec![5.0, 6.0]];
    let data = vec![metadata(Some("doc-A"), "first"), metadata(Some("doc-A"), "second")];
    let points = zip_points(vectors, data);
    assert_eq!(points.len(), 2);
    assert_eq!(points[0].vectors, vec![1.0, 2.0]);
    assert_eq!(points[1].vectors, vec![3.0, 4.0]);
    assert_eq!(points[0].payload, metadata(Some("doc-A"), "first").into_payload());
    assert_eq!(points[1].payload, metadata(Some("doc-A"), "second").into_payload());
    assert_ne!(points[0].id, points[1].id);
    assert_eq!(points[0].id.len(), 36);
    assert!(zip_points(Vec::<Vec<f32>>::new(), vec![metadata(None, "x")]).is_empty());
}

#[test]
fn upsert_request_holds_one_point_per_embedding() {
    let data = vec![
        EmbeddingData { object: "embedding".to_string(), embedding: vec![0.5f32], index: 0 },
        EmbeddingData { object: "embedding".to_string(), embedding: vec![1.5f32], index: 0 },
    ];
    let request = upsert_points(
        data,
        "gpt_embeddings",
        vec![metadata(Some("d"), "a"), metadata(Some("d"), "b"), metadata(Some("d"), "c")],
    );
    assert_eq!(request.collection_name, "gpt_embeddings");
    assert_eq!(request.points.len(), 2);
    assert_eq!(request.points[0].vectors, vec![0.5]);
    assert_eq!(request.points[1].vectors, vec![1.5]);
    assert_eq!(request.points[1].payload.text(RAW_TEXT), Some("b"));
}

#[test]
fn search_request() {
    let request = query_points("gpt_embeddings", vec![0.1f32, 0.2], Filter::scoped_to("doc-A"));
    assert_eq!(request.collection_name, "gpt_embeddings");
    assert_eq!(request.vector, vec![0.1, 0.2]);
    assert_eq!(request.filter, Some(Filter::scoped_to("doc-A")));
    assert_eq!(request.limit, 5);
    assert!(request.with_payload);
}

#[test]
fn collection_requests() {
    assert_eq!(
        create_collection("gpt_embeddings"),
        CreateCollection {
            collection_name: "gpt_embeddings".to_string(),
            size: 1536,
            distance: Distance::Cosine,
        }
    );
    assert_eq!(
        retrieve_points("gpt_embeddings"),
        ScrollPoints { collection_name: "gpt_embeddings".to_string(), limit: 100, with_payload: true }
    );
    let delete = clear_points("gpt_embeddings");
    assert_eq!(delete.collection_name, "gpt_embeddings");
    assert_eq!(delete.filter, Filter::any());
}
