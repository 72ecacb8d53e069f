//! A document on its way into the vector store, and a question on its way
//! to an answer.
//!
//! Neither the embedding service, nor the vector store, nor the chat service
//! is reached from here. [`Ingestion`] and [`Query`] decide what is to be
//! asked of them next; the caller asks, and reports what came back.

use crate::doc::chunker::{
    chunk_line_source, chunk_text_source, line_source_chunks, text_source_chunks, EncodingError,
};
use crate::doc::embedding::{
    embed_one, embedded_one, embedding_request, failures_upto, BatchAction, BatchEvent,
    BatchState, EmbedBatch, EmbedConfig, EmbeddingVector, Slot,
};
use crate::doc::error::PipelineError;
use crate::doc::retrieval::{answer_of, answered, asks, assemble_context, compose_request, context_of};
use crate::ident::fresh_id;
use crate::openai::datamap::{
    ChatPayload, ChatResponse, EmbeddingPayload, EmbeddingResponse, Model, Usage, UsageReport,
};
use crate::openai::error::Error;
use crate::qdrant::{
    lemma_metadata_can_be_read_back, query_points, zip_points, Filter, Payload, PayloadValue,
    PointMetadata, PointStruct, RetrievedPoint, SearchPoints, UpsertPoints, BATCH_ID, DOCUMENT_ID,
    RAW_TEXT, TOKEN_COUNT, TOP_K,
};
use crate::text::same_text;
use vstd::prelude::*;

verus! {

/// The collection that holds the points of all documents.
pub const COLLECTION: &'static str = "gpt_embeddings";

/// The file extension of text sources.
pub const TEXT_EXTENSION: &'static str = "txt";

/// The budget of a chunk of a text source, in characters.
pub const TEXT_BUDGET: usize = 100;

/// The number of lines of a chunk of a line source.
pub const LINES_PER_CHUNK: usize = 10;

/// A document: its name, its identifier and its chunks, and whether the
/// chunks have been embedded and stored.
#[derive(Debug, Clone, PartialEq, Eq)]
pub struct Book {
    name: String,
    id: String,
    content: Vec<String>,
    embedding_ready: bool,
}

/// A document, as the contracts speak of it.
pub struct BookView {
    pub name: Seq<char>,
    pub id: Seq<char>,
    pub content: Seq<Seq<char>>,
    pub embedding_ready: bool,
}

impl View for Book {
    type V = BookView;

    closed spec fn view(&self) -> BookView {
        BookView {
            name: self.name@,
            id: self.id@,
            content: self.content.deep_view(),
            embedding_ready: self.embedding_ready,
        }
    }
}

/// What uploading a source comes to: a text source is chunked by budget, any
/// other source by lines.
pub open spec fn uploaded_chunks(extension: Seq<char>, raw: Seq<u8>) -> Result<
    Seq<Seq<char>>,
    EncodingError,
> {
    if extension == TEXT_EXTENSION@ {
        text_source_chunks(raw, TEXT_BUDGET as nat)
    } else {
        line_source_chunks(raw, LINES_PER_CHUNK as nat)
    }
}

impl Book {
    /// A document without chunks under the given identifier.
    pub fn with_id(name: String, id: String) -> (book: Book)
        ensures
            book@ == (BookView {
                name: name@,
                id: id@,
                content: Seq::empty(),
                embedding_ready: false,
            }),
    {
        let content: Vec<String> = Vec::new();
        assert(content.deep_view() =~= Seq::<Seq<char>>::empty());
        Book { name, id, content, embedding_ready: false }
    }

    /// A document without chunks under a fresh identifier.
    pub fn new(name: String) -> (book: Book)
        ensures
            book@.name == name@,
            book@.content.len() == 0,
            !book@.embedding_ready,
    {
        Book::with_id(name, fresh_id())
    }

    /// A document with the given chunks under the given identifier.
    pub fn from_chunks(name: String, id: String, content: Vec<String>) -> (book: Book)
        ensures
            book@ == (BookView {
                name: name@,
                id: id@,
                content: content.deep_view(),
                embedding_ready: false,
            }),
    {
        Book { name, id, content, embedding_ready: false }
    }

    /// Makes a document of the bytes of a source, under a fresh identifier.
    /// A source with the extension of text sources holds GBK text and is
    /// chunked by budget; any other source holds UTF-8 text and is chunked by
    /// lines. Bytes that are no text in their encoding are refused.
    pub fn upload(name: String, extension: &str, raw: &[u8]) -> (result: Result<Book, EncodingError>)
        ensures
            match result {
                Ok(book) => {
                    &&& uploaded_chunks(extension@, raw@) == Ok::<_, EncodingError>(book@.content)
                    &&& book@.name == name@
                    &&& !book@.embedding_ready
                },
                Err(error) => uploaded_chunks(extension@, raw@) == Err::<Seq<Seq<char>>, _>(error),
            },
    {
        let chunked = if same_text(extension, TEXT_EXTENSION) {
            chunk_text_source(raw, TEXT_BUDGET)
        } else {
            chunk_line_source(raw, LINES_PER_CHUNK)
        };
        match chunked {
            Ok(content) => Ok(Book::from_chunks(name, fresh_id(), content)),
            Err(error) => Err(error),
        }
    }

    /// The name of the document.
    pub fn name(&self) -> (name: &str)
        ensures
            name@ == self@.name,
    {
        self.name.as_str()
    }

    /// The identifier of the document.
    pub fn id(&self) -> (id: &str)
        ensures
            id@ == self@.id,
    {
        self.id.as_str()
    }

    /// The chunks of the document, in order.
    pub fn content(&self) -> (content: &Vec<String>)
        ensures
            content.deep_view() == self@.content,
    {
        &self.content
    }

    /// Whether the chunks have been embedded and stored.
    pub fn is_embedding_ready(&self) -> (ready: bool)
        ensures
            ready == self@.embedding_ready,
    {
        self.embedding_ready
    }
}

/// Whether the point describes the chunk: it holds the embedding, and its
/// payload holds the exact text of the chunk, the document and the batch of
/// the chunk, and the tokens that the request for the embedding used.
pub open spec fn describes<T>(
    point: PointStruct<T>,
    values: Vec<T>,
    chunk: Seq<char>,
    usage: Usage,
    document_id: Seq<char>,
    batch_id: Seq<char>,
) -> bool {
    &&& point.vectors == values
    &&& point.payload.spec_text(RAW_TEXT@) == Some(chunk)
    &&& point.payload.spec_text(DOCUMENT_ID@) == Some(document_id)
    &&& point.payload.spec_text(BATCH_ID@) == Some(batch_id)
    &&& point.payload.spec_get(TOKEN_COUNT@) == Some(
        PayloadValue::Integer(usage.total_tokens as i64),
    )
}

/// Makes the points of a document: one for each chunk that has both an
/// embedding and a usage record at its position, each describing its chunk.
pub fn points_for<T>(
    chunks: &Vec<String>,
    vectors: Vec<EmbeddingVector<T>>,
    report: &UsageReport,
    document_id: &str,
    batch_id: &str,
) -> (points: Vec<PointStruct<T>>)
    ensures
        points@.len() <= chunks@.len(),
        points@.len() <= vectors@.len(),
        points@.len() <= report.0@.len(),
        points@.len() == chunks@.len() || points@.len() == vectors@.len() || points@.len()
            == report.0@.len(),
        forall|i: int|
            0 <= i < points@.len() ==> describes(
                #[trigger] points@[i],
                vectors@[i].values,
                chunks@[i]@,
                report.0@[i],
                document_id@,
                batch_id@,
            ),
{
    let n: usize = chunks.len();
    let m: usize = report.0.len();
    let mut values: Vec<Vec<T>> = Vec::new();
    let mut metadata: Vec<PointMetadata> = Vec::new();
    let ghost all = vectors@;
    let total: usize = vectors.len();
    let mut i: usize = 0;
    for vector in it: vectors
        invariant
            it.seq() == all,
            i == it.index(),
            i <= all.len() == total,
            n == chunks@.len(),
            m == report.0@.len(),
            values@.len() == i,
            forall|j: int| 0 <= j < i ==> #[trigger] values@[j] == all[j].values,
            metadata@.len() <= i,
            metadata@.len() <= n,
            metadata@.len() <= m,
            metadata@.len() == i || metadata@.len() == n || metadata@.len() == m,
            forall|j: int|
                0 <= j < metadata@.len() ==> {
                    &&& (#[trigger] metadata@[j]).raw_text@ == chunks@[j]@
                    &&& metadata@[j].batch_id@ == batch_id@
                    &&& metadata@[j].document_id matches Some(id) && id@ == document_id@
                    &&& metadata@[j].token_count == report.0@[j].total_tokens
                },
    {
        if i < n && i < m && metadata.len() == i {
            metadata.push(
                PointMetadata {
                    batch_id: batch_id.to_owned(),
                    raw_text: chunks[i].clone(),
                    document_id: Some(document_id.to_owned()),
                    token_count: report.0[i].total_tokens,
                },
            );
        }
        values.push(vector.values);
        i = i + 1;
    }
    let points = zip_points(values, metadata);
    proof {
        assert forall|k: int| 0 <= k < points@.len() implies describes(
            #[trigger] points@[k],
            all[k].values,
            chunks@[k]@,
            report.0@[k],
            document_id@,
            batch_id@,
        ) by {
            lemma_metadata_can_be_read_back(points@[k].payload, metadata@[k]);
        }
    }
    points
}

/// Copies the texts, in order.
fn clone_texts(texts: &Vec<String>) -> (out: Vec<String>)
    ensures
        out.deep_view() == texts.deep_view(),
{
    let n: usize = texts.len();
    let mut out: Vec<String> = Vec::new();
    let mut i: usize = 0;
    while i < n
        invariant
            n == texts@.len(),
            i <= n,
            out@.len() == i,
            forall|j: int| 0 <= j < i ==> (#[trigger] out@[j])@ == texts@[j]@,
        decreases n - i,
    {
        out.push(texts[i].clone());
        i = i + 1;
    }
    assert(out.deep_view() =~= texts.deep_view());
    out
}

/// What the caller reports to an ingestion.
#[derive(Debug, PartialEq)]
pub enum IngestEvent<T> {
    /// The caller is ready for the next action: at the start, and after the
    /// pause that follows a submission.
    Ready,
    /// The embedding request for chunk `index` has completed.
    Completed { index: usize, outcome: Result<EmbeddingResponse<T>, Error> },
    /// The vector store has answered the upsert: with its acknowledgement,
    /// or with the description of its failure.
    Stored(Result<(), String>),
}

/// What an ingestion asks its caller to do next.
#[derive(Debug, PartialEq)]
pub enum IngestAction<T> {
    /// Do as the embedding orchestrator asks: send a request, or wait for a
    /// completion.
    Embed(BatchAction),
    /// Send the points to the vector store and report its answer.
    Upsert(UpsertPoints<T>),
    /// Wait for the answer of the vector store and report it.
    AwaitStore,
    /// The document is stored.
    Done,
    /// The ingestion has failed with this error; nothing more is to be done.
    Failed(PipelineError),
    /// The ingestion is over; the event has changed nothing.
    Idle,
}

/// Where an ingestion stands, as the contracts speak of it.
pub enum IngestPhase<T> {
    /// The chunks are being embedded.
    Embedding(BatchState<T>),
    /// All chunks are embedded, and the points are on their way to the store.
    Storing,
    /// The store has acknowledged the points.
    Stored,
    /// The ingestion has failed.
    Failed,
}

/// The state of an ingestion, as the contracts speak of it.
pub struct IngestState<T> {
    pub book: BookView,
    pub batch_id: Seq<char>,
    pub collection: Seq<char>,
    pub phase: IngestPhase<T>,
}

enum Stage<T> {
    Embedding(EmbedBatch<T>),
    Storing,
    Stored,
    Failed,
}

/// A document on its way into the vector store.
pub struct Ingestion<T> {
    book: Book,
    batch_id: String,
    collection: String,
    stage: Stage<T>,
}

impl<T> View for Ingestion<T> {
    type V = IngestState<T>;

    closed spec fn view(&self) -> IngestState<T> {
        IngestState {
            book: self.book@,
            batch_id: self.batch_id@,
            collection: self.collection@,
            phase: match self.stage {
                Stage::Embedding(batch) => IngestPhase::Embedding(batch@),
                Stage::Storing => IngestPhase::Storing,
                Stage::Stored => IngestPhase::Stored,
                Stage::Failed => IngestPhase::Failed,
            },
        }
    }
}

/// The event of the embedding orchestrator that an ingestion event stands
/// for: a completion is handed on, any other event is no news to it.
pub open spec fn batch_event<T>(event: IngestEvent<T>) -> BatchEvent<T> {
    match event {
        IngestEvent::Completed { index, outcome } => BatchEvent::Completed { index, outcome },
        _ => BatchEvent::Ready,
    }
}

/// Whether `request` writes the document of `state` to the store: to the
/// collection of the ingestion, one point per chunk and in the order of the
/// chunks, each point describing its chunk with the embedding and the usage
/// that `batch` holds for it.
pub open spec fn upserts<T>(request: UpsertPoints<T>, state: IngestState<T>, batch: BatchState<T>) -> bool {
    &&& request.collection_name@ == state.collection
    &&& request.points@.len() == state.book.content.len()
    &&& forall|i: int|
        0 <= i < request.points@.len() ==> (batch.slots[i] matches Slot::Embedded {
            values,
            usage,
        } && describes(
            #[trigger] request.points@[i],
            values,
            state.book.content[i],
            usage,
            state.book.id,
            state.batch_id,
        ))
}

/// Whether an ingestion in state `before` that takes `event` is in state
/// `after` and asks for `action`.
///
/// While the chunks are being embedded, the embedding orchestrator decides.
/// Once it has nothing to send and nothing under way, the batch is finished:
/// if every chunk has its embedding, the points are handed out for the
/// store, all of them at once; if not, the ingestion fails with the list of
/// the chunks without embedding, and no point is ever handed out. The
/// document counts as stored only once the store has acknowledged the
/// points; a failure of the store fails the ingestion.
pub open spec fn ingest_step<T>(
    before: IngestState<T>,
    event: IngestEvent<T>,
    after: IngestState<T>,
    action: IngestAction<T>,
) -> bool {
    &&& after.batch_id == before.batch_id
    &&& after.collection == before.collection
    &&& after.book == BookView {
        embedding_ready: before.book.embedding_ready || after.phase is Stored,
        ..before.book
    }
    &&& match before.phase {
        IngestPhase::Embedding(batch) => {
            let seen = batch.after(batch_event(event));
            if seen.may_submit() || seen.in_flight() > 0 {
                &&& after.phase == IngestPhase::Embedding(seen.decided())
                &&& action matches IngestAction::Embed(asked)
                &&& seen.asks_for(asked)
            } else if seen.all_embedded() {
                &&& after.phase is Storing
                &&& action matches IngestAction::Upsert(request)
                &&& upserts(request, before, seen)
            } else {
                &&& after.phase is Failed
                &&& action matches IngestAction::Failed(PipelineError::BatchIncomplete(incomplete))
                &&& incomplete.failures@ == failures_upto(seen.slots, seen.slots.len() as int)
            }
        },
        IngestPhase::Storing => match event {
            IngestEvent::Stored(Ok(_)) => after.phase is Stored && action is Done,
            IngestEvent::Stored(Err(cause)) => after.phase is Failed && action
                == IngestAction::<T>::Failed(PipelineError::StoreError(cause)),
            _ => after.phase is Storing && action is AwaitStore,
        },
        IngestPhase::Stored => after.phase is Stored && action is Idle,
        IngestPhase::Failed => after.phase is Failed && action is Idle,
    }
}

/// What is stored with a point is what was embedded for it: where an
/// ingestion hands out the points of a document, the chunk text in the
/// payload of each point is the input of the embedding request that was sent
/// for the chunk of that index.
pub proof fn lemma_stored_text_is_embedded_text<T>(
    before: IngestState<T>,
    event: IngestEvent<T>,
    after: IngestState<T>,
    request: UpsertPoints<T>,
    sent: BatchState<T>,
    index: usize,
    payload: EmbeddingPayload,
    pacing_ms: u64,
)
    requires
        before.phase is Embedding,
        ingest_step(before, event, after, IngestAction::Upsert(request)),
        sent.valid(),
        sent.chunks == before.book.content,
        sent.asks_for(BatchAction::Submit { index, payload, pacing_ms }),
    ensures
        index < request.points@.len(),
        request.points@[index as int].payload.spec_text(RAW_TEXT@) == Some(payload.input@),
        request.points@[index as int].payload.spec_text(DOCUMENT_ID@) == Some(before.book.id),
{
    let batch = before.phase->Embedding_0;
    let seen = batch.after(batch_event(event));
    assert(upserts(request, before, seen));
    assert(describes(
        request.points@[index as int],
        seen.slots[index as int]->values,
        before.book.content[index as int],
        seen.slots[index as int]->usage,
        before.book.id,
        before.batch_id,
    ));
}

impl Book {
    /// Begins the ingestion of this document into `collection`: its chunks
    /// are to be embedded as `config` says, in a batch with a fresh
    /// identifier, and then stored.
    pub fn update_embedding<T>(self, config: EmbedConfig, collection: &str) -> (ingestion: Ingestion<
        T,
    >)
        ensures
            ingestion.wf(),
            ingestion@.book == self@,
            ingestion@.collection == collection@,
            ingestion@.phase == IngestPhase::Embedding(
                BatchState::<T>::start(self@.content, config),
            ),
    {
        let chunks = clone_texts(&self.content);
        let batch = EmbedBatch::new(chunks, config);
        Ingestion {
            book: self,
            batch_id: fresh_id(),
            collection: collection.to_owned(),
            stage: Stage::Embedding(batch),
        }
    }
}

impl<T> Ingestion<T> {
    /// Whether this ingestion is in a state that `update_embedding` and
    /// `step` can lead to.
    pub closed spec fn wf(&self) -> bool {
        match self.stage {
            Stage::Embedding(batch) => batch.wf() && batch@.chunks == self.book@.content,
            Stage::Stored => self.book@.embedding_ready,
            _ => true,
        }
    }

    /// The batch of an ingestion that is well formed is valid, and its chunks
    /// are the chunks of the document.
    pub proof fn lemma_batch_of_the_document(&self)
        requires
            self.wf(),
        ensures
            self@.phase matches IngestPhase::Embedding(batch) ==> batch.valid() && batch.chunks
                == self@.book.content,
            self@.phase is Stored ==> self@.book.embedding_ready,
    {
        match self.stage {
            Stage::Embedding(batch) => {
                batch.lemma_valid();
            },
            _ => {},
        }
    }

    /// Takes an event and decides what the caller is to do next, as
    /// [`ingest_step`] says.
    pub fn step(self, event: IngestEvent<T>) -> (next: (Ingestion<T>, IngestAction<T>))
        requires
            self.wf(),
        ensures
            next.0.wf(),
            ingest_step(self@, event, next.0@, next.1),
    {
        let Ingestion { book, batch_id, collection, stage } = self;
        match stage {
            Stage::Embedding(batch) => {
                let mut batch = batch;
                let ghost before = batch@;
                let news = match event {
                    IngestEvent::Completed { index, outcome } => BatchEvent::Completed {
                        index,
                        outcome,
                    },
                    _ => BatchEvent::Ready,
                };
                let asked = batch.step(news);
                let ghost seen = before.after(news);
                proof {
                    batch.lemma_valid();
                }
                match asked {
                    BatchAction::Finish => match batch.finish() {
                        Ok((vectors, report)) => {
                            let points = points_for(
                                &book.content,
                                vectors,
                                &report,
                                book.id.as_str(),
                                batch_id.as_str(),
                            );
                            let request = UpsertPoints {
                                collection_name: collection.clone(),
                                points,
                            };
                            (
                                Ingestion { book, batch_id, collection, stage: Stage::Storing },
                                IngestAction::Upsert(request),
                            )
                        },
                        Err(incomplete) => (
                            Ingestion { book, batch_id, collection, stage: Stage::Failed },
                            IngestAction::Failed(PipelineError::BatchIncomplete(incomplete)),
                        ),
                    },
                    other => (
                        Ingestion { book, batch_id, collection, stage: Stage::Embedding(batch) },
                        IngestAction::Embed(other),
                    ),
                }
            },
            Stage::Storing => match event {
                IngestEvent::Stored(Ok(_)) => {
                    let Book { name, id, content, embedding_ready: _ } = book;
                    let book = Book { name, id, content, embedding_ready: true };
                    (
                        Ingestion { book, batch_id, collection, stage: Stage::Stored },
                        IngestAction::Done,
                    )
                },
                IngestEvent::Stored(Err(cause)) => (
                    Ingestion { book, batch_id, collection, stage: Stage::Failed },
                    IngestAction::Failed(PipelineError::StoreError(cause)),
                ),
                _ => (
                    Ingestion { book, batch_id, collection, stage: Stage::Storing },
                    IngestAction::AwaitStore,
                ),
            },
            Stage::Stored => (
                Ingestion { book, batch_id, collection, stage: Stage::Stored },
                IngestAction::Idle,
            ),
            Stage::Failed => (
                Ingestion { book, batch_id, collection, stage: Stage::Failed },
                IngestAction::Idle,
            ),
        }
    }

    /// Ends the ingestion and hands the document back. The document counts
    /// as embedded if it did before, or if the store has acknowledged its
    /// points.
    pub fn finish(self) -> (book: Book)
        ensures
            book@ == self@.book,
    {
        self.book
    }
}

/// What the caller reports to a query.
#[derive(Debug, PartialEq)]
pub enum QueryEvent<T> {
    /// The embedding request for the question has completed.
    Embedded(Result<EmbeddingResponse<T>, Error>),
    /// The vector store has answered the search: with the points it found,
    /// nearest first, or with the description of its failure.
    Found(Result<Vec<RetrievedPoint>, String>),
    /// The chat request has completed.
    Answered(Result<ChatResponse, Error>),
}

/// What a query asks its caller to do next.
#[derive(Debug, PartialEq)]
pub enum QueryAction<T> {
    /// Send the embedding request and report its completion.
    Embed(EmbeddingPayload),
    /// Send the search to the vector store and report its answer.
    Search(SearchPoints<T>),
    /// Send the chat request and report its completion.
    Chat(ChatPayload),
    /// The question is answered. `context_found` tells whether the answer
    /// rests on any context: a search that succeeds and finds nothing is no
    /// failure, but the answer then has no basis in the document.
    Done { answer: String, context_found: bool },
    /// The query has failed with this error; nothing more is to be done.
    Failed(PipelineError),
    /// The event does not answer what the query last asked for, or the query
    /// is over; it has changed nothing.
    Idle,
}

/// Where a query stands.
#[derive(Debug, Clone, Copy, PartialEq, Eq, Structural)]
pub enum QueryStage {
    /// The question is being embedded.
    Embedding,
    /// The vector store is being searched.
    Searching,
    /// The chat service is being asked.
    Chatting,
    /// The query has been answered or has failed.
    Over,
}

/// A question on its way to an answer.
#[derive(Debug, Clone, PartialEq, Eq)]
pub struct Query {
    question: String,
    scope: Option<String>,
    collection: String,
    model: Model,
    dimension: usize,
    stage: QueryStage,
    context_found: bool,
}

/// The state of a query, as the contracts speak of it.
pub struct QueryState {
    pub question: Seq<char>,
    /// The document that the query is scoped to, if any.
    pub scope: Option<Seq<char>>,
    pub collection: Seq<char>,
    pub model: Model,
    pub dimension: usize,
    pub stage: QueryStage,
    pub context_found: bool,
}

impl View for Query {
    type V = QueryState;

    closed spec fn view(&self) -> QueryState {
        QueryState {
            question: self.question@,
            scope: match self.scope {
                Some(id) => Some(id@),
                None => None,
            },
            collection: self.collection@,
            model: self.model,
            dimension: self.dimension,
            stage: self.stage,
            context_found: self.context_found,
        }
    }
}

/// Whether `request` is the search of a query in `state` for the points
/// nearest to `vector`: in the collection of the query, for `TOP_K` points
/// with their payloads, through a filter that exactly the points of the
/// scope pass (every point, where the query has no scope).
pub open spec fn searches<T>(request: SearchPoints<T>, state: QueryState, vector: Vec<T>) -> bool {
    &&& request.collection_name@ == state.collection
    &&& request.vector == vector
    &&& request.limit == TOP_K
    &&& request.with_payload
    &&& request.filter matches Some(filter)
    &&& forall|payload: Payload|
        #[trigger] filter.spec_accepts(payload) <==> match state.scope {
            Some(id) => payload.spec_text(DOCUMENT_ID@) == Some(id),
            None => true,
        }
}

/// Whether a query in state `before` that takes `event` is in state `after`
/// and asks for `action`.
///
/// The embedding of the question leads to the search, scoped to the
/// document of the query where it has one. What the search finds leads to
/// the chat request, whose prompt holds the context assembled from the
/// points within the scope, also where that context is empty. The
/// completion of the chat request ends the query with the answer. A failure
/// of any of the three ends the query with its error, kept apart by the
/// step that failed. An event that does not answer what the query last
/// asked for changes nothing.
pub open spec fn query_step<T>(
    before: QueryState,
    event: QueryEvent<T>,
    after: QueryState,
    action: QueryAction<T>,
) -> bool {
    &&& after.question == before.question
    &&& after.scope == before.scope
    &&& after.collection == before.collection
    &&& after.model == before.model
    &&& after.dimension == before.dimension
    &&& match (before.stage, event) {
        (QueryStage::Embedding, QueryEvent::Embedded(outcome)) => match embedded_one(
            outcome,
            before.dimension,
        ) {
            Ok(vector) => {
                &&& after.stage == QueryStage::Searching
                &&& after.context_found == before.context_found
                &&& action matches QueryAction::Search(request)
                &&& searches(request, before, vector.values)
            },
            Err(failure) => {
                &&& after.stage == QueryStage::Over
                &&& after.context_found == before.context_found
                &&& action == QueryAction::<T>::Failed(
                    PipelineError::EmbeddingRequestFailed(failure),
                )
            },
        },
        (QueryStage::Searching, QueryEvent::Found(Ok(points))) => {
            let context = context_of(points@, before.scope, TOP_K as nat);
            &&& after.stage == QueryStage::Chatting
            &&& after.context_found == (context.len() > 0)
            &&& action matches QueryAction::Chat(request)
            &&& asks(request, before.question, context)
        },
        (QueryStage::Searching, QueryEvent::Found(Err(cause))) => {
            &&& after.stage == QueryStage::Over
            &&& after.context_found == before.context_found
            &&& action == QueryAction::<T>::Failed(PipelineError::StoreError(cause))
        },
        (QueryStage::Chatting, QueryEvent::Answered(outcome)) => {
            &&& after.stage == QueryStage::Over
            &&& after.context_found == before.context_found
            &&& match answered(outcome) {
                Ok(text) => {
                    &&& action matches QueryAction::Done { answer, context_found }
                    &&& answer@ == text
                    &&& context_found == before.context_found
                },
                Err(error) => action == QueryAction::<T>::Failed(error),
            }
        },
        _ => after.stage == before.stage && after.context_found == before.context_found
            && action is Idle,
    }
}

impl Query {
    /// Begins a query: the question is to be embedded by `model`, whose
    /// embeddings have `dimension` components; the search will go to
    /// `collection`, scoped to the document `scope` if there is one. The
    /// first action, to embed the question, is handed out with the query.
    pub fn start<T>(
        question: &str,
        scope: Option<String>,
        collection: &str,
        model: Model,
        dimension: usize,
    ) -> (begun: (Query, QueryAction<T>))
        ensures
            begun.0@ == (QueryState {
                question: question@,
                scope: match scope {
                    Some(id) => Some(id@),
                    None => None,
                },
                collection: collection@,
                model,
                dimension,
                stage: QueryStage::Embedding,
                context_found: false,
            }),
            begun.1 matches QueryAction::Embed(payload) && payload.model == model && payload.input@
                == question@ && payload.user is None,
    {
        let query = Query {
            question: question.to_owned(),
            scope,
            collection: collection.to_owned(),
            model,
            dimension,
            stage: QueryStage::Embedding,
            context_found: false,
        };
        (query, QueryAction::Embed(embedding_request(question, model)))
    }

    /// Where the query stands.
    pub fn stage(&self) -> (stage: QueryStage)
        ensures
            stage == self@.stage,
    {
        self.stage
    }

    /// Takes an event and decides what the caller is to do next, as
    /// [`query_step`] says.
    pub fn step<T>(self, event: QueryEvent<T>) -> (next: (Query, QueryAction<T>))
        ensures
            query_step(self@, event, next.0@, next.1),
    {
        let Query { question, scope, collection, model, dimension, stage, context_found } = self;
        match (stage, event) {
            (QueryStage::Embedding, QueryEvent::Embedded(outcome)) => {
                match embed_one(outcome, dimension) {
                    Ok(vector) => {
                        let filter = match &scope {
                            Some(id) => Filter::scoped_to(id.as_str()),
                            None => Filter::any(),
                        };
                        let request = query_points(collection.as_str(), vector.values, filter);
                        (
                            Query {
                                question,
                                scope,
                                collection,
                                model,
                                dimension,
                                stage: QueryStage::Searching,
                                context_found,
                            },
                            QueryAction::Search(request),
                        )
                    },
                    Err(failure) => (
                        Query {
                            question,
                            scope,
                            collection,
                            model,
                            dimension,
                            stage: QueryStage::Over,
                            context_found,
                        },
                        QueryAction::Failed(PipelineError::EmbeddingRequestFailed(failure)),
                    ),
                }
            },
            (QueryStage::Searching, QueryEvent::Found(Ok(points))) => {
                let context = match &scope {
                    Some(id) => assemble_context(&points, Some(id.as_str()), TOP_K as usize),
                    None => assemble_context(&points, None, TOP_K as usize),
                };
                let found = !context.as_str().is_empty();
                let request = compose_request(question.as_str(), context.as_str());
                (
                    Query {
                        question,
                        scope,
                        collection,
                        model,
                        dimension,
                        stage: QueryStage::Chatting,
                        context_found: found,
                    },
                    QueryAction::Chat(request),
                )
            },
            (QueryStage::Searching, QueryEvent::Found(Err(cause))) => (
                Query {
                    question,
                    scope,
                    collection,
                    model,
                    dimension,
                    stage: QueryStage::Over,
                    context_found,
                },
                QueryAction::Failed(PipelineError::StoreError(cause)),
            ),
            (QueryStage::Chatting, QueryEvent::Answered(outcome)) => {
                let action = match answer_of(outcome) {
                    Ok(answer) => QueryAction::Done { answer, context_found },
                    Err(error) => QueryAction::Failed(error),
                };
                (
                    Query {
                        question,
                        scope,
                        collection,
                        model,
                        dimension,
                        stage: QueryStage::Over,
                        context_found,
                    },
                    action,
                )
            },
            (stage, _) => (
                Query { question, scope, collection, model, dimension, stage, context_found },
                QueryAction::Idle,
            ),
        }
    }
}

impl Book {
    /// Begins the query that answers `question` from the chunks of the
    /// document `book_id` in the collection of all documents, with the
    /// default embedding model.
    pub fn query_book_with_chat<T>(question: &str, book_id: String) -> (begun: (
        Query,
        QueryAction<T>,
    ))
        ensures
            begun.0@ == (QueryState {
                question: question@,
                scope: Some(book_id@),
                collection: COLLECTION@,
                model: Model::Ada002,
                dimension: 1536,
                stage: QueryStage::Embedding,
                context_found: false,
            }),
            begun.1 matches QueryAction::Embed(payload) && payload.model == Model::Ada002
                && payload.input@ == question@ && payload.user is None,
    {
        Query::start(question, Some(book_id), COLLECTION, Model::Ada002, 1536)
    }
}

} // verus!
