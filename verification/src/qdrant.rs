//! What is exchanged with the vector store: points with their metadata,
//! filters over that metadata, and the requests that write and search.
//!
//! The store itself is reached elsewhere. This module fixes what is handed
//! to it and what its filters mean, so that a result can be held to the
//! filter that asked for it.

use crate::ident::fresh_id;
use crate::openai::datamap::EmbeddingData;
use crate::text::same_text;
use vstd::prelude::*;
use vstd::string::StringExecFns;

verus! {

/// The payload key of the document that a point belongs to.
pub const DOCUMENT_ID: &'static str = "document_id";

/// The payload key of the chunk text that a point was embedded from.
pub const RAW_TEXT: &'static str = "raw_text";

/// The payload key of the number of tokens that the embedding request used.
pub const TOKEN_COUNT: &'static str = "token_count";

/// The payload key of the batch that a point was embedded in.
pub const BATCH_ID: &'static str = "batch_id";

/// The number of points that a search asks for.
pub const TOP_K: u64 = 5;

/// The number of components of a vector of the collection.
pub const VECTOR_SIZE: u64 = 1536;

/// A value of a payload. `Other` stands for the values that are neither
/// read nor written here: numbers with a fraction, lists and structures.
#[derive(Debug, Clone, PartialEq, Eq)]
pub enum PayloadValue {
    Null,
    Bool(bool),
    Integer(i64),
    Text(String),
    Other,
}

/// One entry of a payload.
#[derive(Debug, Clone, PartialEq, Eq)]
pub struct PayloadEntry {
    pub key: String,
    pub value: PayloadValue,
}

/// The payload of a point: its entries, of which the first with a given key
/// counts.
#[derive(Debug, Clone, PartialEq, Eq)]
pub struct Payload {
    pub entries: Vec<PayloadEntry>,
}

/// The metadata stored with each vector.
#[derive(Debug, Clone, PartialEq, Eq)]
pub struct PointMetadata {
    /// The batch in which the chunk was embedded.
    pub batch_id: String,
    /// The exact text of the chunk that the vector was computed from.
    pub raw_text: String,
    /// The document that the chunk belongs to, by which searches are scoped.
    pub document_id: Option<String>,
    /// The tokens that the embedding request used.
    pub token_count: i32,
}

/// The value that the first `upto` entries hold under `key`, if any.
pub open spec fn lookup_upto(entries: Seq<PayloadEntry>, key: Seq<char>, upto: int) -> Option<
    PayloadValue,
>
    decreases upto,
{
    if upto <= 0 {
        None
    } else {
        match lookup_upto(entries, key, upto - 1) {
            Some(value) => Some(value),
            None => if entries[upto - 1].key@ == key {
                Some(entries[upto - 1].value)
            } else {
                None
            },
        }
    }
}

/// The text that the first `upto` entries hold under `key`; `None` where
/// they hold nothing under it, or something that is no text.
pub open spec fn text_upto(entries: Seq<PayloadEntry>, key: Seq<char>, upto: int) -> Option<
    Seq<char>,
> {
    match lookup_upto(entries, key, upto) {
        Some(PayloadValue::Text(text)) => Some(text@),
        _ => None,
    }
}

impl Payload {
    /// The value under `key`, if any.
    pub open spec fn spec_get(self, key: Seq<char>) -> Option<PayloadValue> {
        lookup_upto(self.entries@, key, self.entries@.len() as int)
    }

    /// The text under `key`; `None` where nothing is held under it, or
    /// something that is no text.
    pub open spec fn spec_text(self, key: Seq<char>) -> Option<Seq<char>> {
        text_upto(self.entries@, key, self.entries@.len() as int)
    }

    /// The position of the first entry under `key`, if any.
    fn position(&self, key: &str) -> (at: Option<usize>)
        ensures
            match at {
                Some(i) => i < self.entries@.len() && self.spec_get(key@) == Some(
                    self.entries@[i as int].value,
                ),
                None => self.spec_get(key@) is None,
            },
    {
        let n: usize = self.entries.len();
        let mut i: usize = 0;
        while i < n
            invariant
                n == self.entries@.len(),
                i <= n,
                lookup_upto(self.entries@, key@, i as int) is None,
            decreases n - i,
        {
            if same_text(self.entries[i].key.as_str(), key) {
                proof {
                    lemma_lookup_found(self.entries@, key@, i as int, n as int);
                }
                return Some(i);
            }
            i = i + 1;
        }
        None
    }

    /// The value under `key`, if any.
    pub fn get(&self, key: &str) -> (value: Option<&PayloadValue>)
        ensures
            match value {
                Some(v) => self.spec_get(key@) == Some(*v),
                None => self.spec_get(key@) is None,
            },
    {
        match self.position(key) {
            Some(i) => Some(&self.entries[i].value),
            None => None,
        }
    }

    /// The text under `key`; `None` where nothing is held under it, or
    /// something that is no text.
    pub fn text(&self, key: &str) -> (text: Option<&str>)
        ensures
            match text {
                Some(t) => self.spec_text(key@) == Some(t@),
                None => self.spec_text(key@) is None,
            },
    {
        match self.get(key) {
            Some(PayloadValue::Text(text)) => Some(text.as_str()),
            _ => None,
        }
    }
}

/// Once an entry under the key is found with none before it, the entries
/// behind it do not matter.
pub proof fn lemma_lookup_found(entries: Seq<PayloadEntry>, key: Seq<char>, at: int, upto: int)
    requires
        0 <= at < upto <= entries.len(),
        lookup_upto(entries, key, at) is None,
        entries[at].key@ == key,
    ensures
        lookup_upto(entries, key, upto) == Some(entries[at].value),
    decreases upto,
{
    if upto > at + 1 {
        lemma_lookup_found(entries, key, at, upto - 1);
    }
}

/// The payload entries that metadata is stored as: the batch, the chunk
/// text, the document where there is one, and the token count.
pub open spec fn metadata_entries(metadata: PointMetadata) -> Seq<(Seq<char>, PayloadValue)> {
    let head = seq![
        (BATCH_ID@, PayloadValue::Text(metadata.batch_id)),
        (RAW_TEXT@, PayloadValue::Text(metadata.raw_text)),
    ];
    let scope = match metadata.document_id {
        Some(id) => seq![(DOCUMENT_ID@, PayloadValue::Text(id))],
        None => Seq::empty(),
    };
    head + scope + seq![(TOKEN_COUNT@, PayloadValue::Integer(metadata.token_count as i64))]
}

/// The entries of a payload as pairs of key text and value.
pub open spec fn entry_pairs(entries: Seq<PayloadEntry>) -> Seq<(Seq<char>, PayloadValue)> {
    entries.map_values(|entry: PayloadEntry| (entry.key@, entry.value))
}

impl PointMetadata {
    /// The payload that this metadata is stored as.
    pub fn into_payload(self) -> (payload: Payload)
        ensures
            entry_pairs(payload.entries@) == metadata_entries(self),
    {
        let mut entries: Vec<PayloadEntry> = Vec::new();
        entries.push(
            PayloadEntry { key: String::from_str(BATCH_ID), value: PayloadValue::Text(self.batch_id) },
        );
        entries.push(
            PayloadEntry { key: String::from_str(RAW_TEXT), value: PayloadValue::Text(self.raw_text) },
        );
        match self.document_id {
            Some(id) => {
                entries.push(
                    PayloadEntry { key: String::from_str(DOCUMENT_ID), value: PayloadValue::Text(id) },
                );
            },
            None => {},
        }
        entries.push(
            PayloadEntry {
                key: String::from_str(TOKEN_COUNT),
                value: PayloadValue::Integer(self.token_count as i64),
            },
        );
        assert(entry_pairs(entries@) =~= metadata_entries(self));
        Payload { entries }
    }
}

impl From<PointMetadata> for Payload {
    /// The payload that the metadata is stored as.
    fn from(metadata: PointMetadata) -> (payload: Payload)
        ensures
            entry_pairs(payload.entries@) == metadata_entries(metadata),
    {
        metadata.into_payload()
    }
}

impl vstd::std_specs::convert::FromSpecImpl<PointMetadata> for Payload {
    /// The conversion is specified by the `ensures` of `from`: the keys of a
    /// payload are fixed by their text only.
    open spec fn obeys_from_spec() -> bool {
        false
    }

    open spec fn from_spec(metadata: PointMetadata) -> Payload {
        arbitrary()
    }
}

/// What is found under each key of a payload that stores the given
/// metadata: the metadata can be read back from the payload, field by field.
pub proof fn lemma_metadata_can_be_read_back(payload: Payload, metadata: PointMetadata)
    requires
        entry_pairs(payload.entries@) == metadata_entries(metadata),
    ensures
        payload.spec_text(RAW_TEXT@) == Some(metadata.raw_text@),
        payload.spec_text(BATCH_ID@) == Some(metadata.batch_id@),
        payload.spec_text(DOCUMENT_ID@) == match metadata.document_id {
            Some(id) => Some(id@),
            None => None,
        },
        payload.spec_get(TOKEN_COUNT@) == Some(
            PayloadValue::Integer(metadata.token_count as i64),
        ),
{
    reveal_strlit("document_id");
    reveal_strlit("raw_text");
    reveal_strlit("token_count");
    reveal_strlit("batch_id");
    reveal_with_fuel(lookup_upto, 5);
    let entries = payload.entries@;
    let pairs = entry_pairs(entries);
    assert(BATCH_ID@[0] == 'b' && RAW_TEXT@[0] == 'r' && DOCUMENT_ID@[0] == 'd' && TOKEN_COUNT@[0]
        == 't');
    let stored = metadata_entries(metadata);
    assert(entries.len() == pairs.len() == stored.len());
    if metadata.document_id is Some {
        assert(stored.len() == 4);
        assert(pairs[3] == (entries[3].key@, entries[3].value));
    } else {
        assert(stored.len() == 3);
    }
    assert(pairs[0] == (entries[0].key@, entries[0].value));
    assert(pairs[1] == (entries[1].key@, entries[1].value));
    assert(pairs[2] == (entries[2].key@, entries[2].value));
}

/// A condition on one field of a payload: the field holds exactly `text`.
#[derive(Debug, Clone, PartialEq, Eq)]
pub struct FieldCondition {
    pub key: String,
    pub text: String,
}

/// A filter over payloads. A payload passes if every condition of `must`
/// holds of it, none of `must_not` does, and, where `should` is not empty,
/// at least one of `should` does.
#[derive(Debug, Clone, PartialEq, Eq)]
pub struct Filter {
    pub should: Vec<FieldCondition>,
    pub must: Vec<FieldCondition>,
    pub must_not: Vec<FieldCondition>,
}

/// Whether the condition holds of the payload.
pub open spec fn holds(condition: FieldCondition, payload: Payload) -> bool {
    payload.spec_text(condition.key@) == Some(condition.text@)
}

/// Whether every condition holds of the payload.
pub open spec fn all_hold(conditions: Seq<FieldCondition>, payload: Payload) -> bool {
    forall|i: int| 0 <= i < conditions.len() ==> holds(#[trigger] conditions[i], payload)
}

/// Whether at least one condition holds of the payload.
pub open spec fn any_holds(conditions: Seq<FieldCondition>, payload: Payload) -> bool {
    exists|i: int| 0 <= i < conditions.len() && holds(#[trigger] conditions[i], payload)
}

impl FieldCondition {
    /// Tests whether this condition holds of the payload.
    pub fn holds_of(&self, payload: &Payload) -> (b: bool)
        ensures
            b == holds(*self, *payload),
    {
        match payload.text(self.key.as_str()) {
            Some(text) => same_text(text, self.text.as_str()),
            None => false,
        }
    }
}

/// Tests whether every condition holds of the payload.
fn every(conditions: &Vec<FieldCondition>, payload: &Payload) -> (b: bool)
    ensures
        b == all_hold(conditions@, *payload),
{
    let n: usize = conditions.len();
    let mut i: usize = 0;
    while i < n
        invariant
            n == conditions@.len(),
            i <= n,
            forall|j: int| 0 <= j < i ==> holds(#[trigger] conditions@[j], *payload),
        decreases n - i,
    {
        if !conditions[i].holds_of(payload) {
            return false;
        }
        i = i + 1;
    }
    true
}

/// Tests whether at least one condition holds of the payload.
fn some(conditions: &Vec<FieldCondition>, payload: &Payload) -> (b: bool)
    ensures
        b == any_holds(conditions@, *payload),
{
    let n: usize = conditions.len();
    let mut i: usize = 0;
    while i < n
        invariant
            n == conditions@.len(),
            i <= n,
            forall|j: int| 0 <= j < i ==> !holds(#[trigger] conditions@[j], *payload),
        decreases n - i,
    {
        if conditions[i].holds_of(payload) {
            return true;
        }
        i = i + 1;
    }
    false
}

impl Filter {
    /// Whether the payload passes this filter.
    pub open spec fn spec_accepts(self, payload: Payload) -> bool {
        &&& all_hold(self.must@, payload)
        &&& self.should@.len() == 0 || any_holds(self.should@, payload)
        &&& !any_holds(self.must_not@, payload)
    }

    /// Tests whether the payload passes this filter.
    pub fn accepts(&self, payload: &Payload) -> (b: bool)
        ensures
            b == self.spec_accepts(*payload),
    {
        every(&self.must, payload) && (self.should.len() == 0 || some(&self.should, payload))
            && !some(&self.must_not, payload)
    }

    /// The filter that every payload passes.
    pub fn any() -> (filter: Filter)
        ensures
            filter.should@.len() == 0,
            filter.must@.len() == 0,
            filter.must_not@.len() == 0,
            forall|payload: Payload| filter.spec_accepts(payload),
    {
        Filter { should: Vec::new(), must: Vec::new(), must_not: Vec::new() }
    }

    /// The filter that exactly the payloads of the given document pass.
    pub fn scoped_to(document_id: &str) -> (filter: Filter)
        ensures
            filter.should@.len() == 0,
            filter.must_not@.len() == 0,
            filter.must@.len() == 1,
            filter.must@[0].key@ == DOCUMENT_ID@,
            filter.must@[0].text@ == document_id@,
            forall|payload: Payload|
                filter.spec_accepts(payload) <==> #[trigger] payload.spec_text(DOCUMENT_ID@)
                    == Some(document_id@),
    {
        let mut must: Vec<FieldCondition> = Vec::new();
        must.push(
            FieldCondition { key: String::from_str(DOCUMENT_ID), text: document_id.to_owned() },
        );
        let filter = Filter { should: Vec::new(), must, must_not: Vec::new() };
        assert forall|payload: Payload|
            filter.spec_accepts(payload) <==> #[trigger] payload.spec_text(DOCUMENT_ID@)
                == Some(document_id@) by {
            assert(holds(filter.must@[0], payload) <==> payload.spec_text(DOCUMENT_ID@)
                == Some(document_id@));
        }
        filter
    }
}

/// A point as it is written to the store: an identifier, a vector and
/// the payload that describes it. `T` is the type of a component.
#[derive(Debug, Clone, PartialEq)]
pub struct PointStruct<T> {
    pub id: String,
    pub vectors: Vec<T>,
    pub payload: Payload,
}

/// The request that writes points to a collection.
#[derive(Debug, Clone, PartialEq)]
pub struct UpsertPoints<T> {
    pub collection_name: String,
    pub points: Vec<PointStruct<T>>,
}

/// The measure by which the vectors of a collection are compared.
#[derive(Debug, Clone, Copy, PartialEq, Eq, Structural)]
pub enum Distance {
    Cosine,
    Euclid,
    Dot,
}

/// The request that creates a collection.
#[derive(Debug, Clone, PartialEq, Eq)]
pub struct CreateCollection {
    pub collection_name: String,
    pub size: u64,
    pub distance: Distance,
}

/// The request that lists the points of a collection.
#[derive(Debug, Clone, PartialEq, Eq)]
pub struct ScrollPoints {
    pub collection_name: String,
    pub limit: u32,
    pub with_payload: bool,
}

/// The request that deletes the points of a collection that pass a filter.
#[derive(Debug, Clone, PartialEq, Eq)]
pub struct DeletePoints {
    pub collection_name: String,
    pub filter: Filter,
}

/// The request that searches a collection for the points nearest to a
/// vector among those that pass the filter.
#[derive(Debug, Clone, PartialEq)]
pub struct SearchPoints<T> {
    pub collection_name: String,
    pub vector: Vec<T>,
    pub filter: Option<Filter>,
    pub limit: u64,
    pub with_payload: bool,
}

/// A point that a search has found. The points of a result stand in the
/// order of their rank, nearest first.
#[derive(Debug, Clone, PartialEq, Eq)]
pub struct RetrievedPoint {
    pub payload: Payload,
}

/// Whether the point stores the vector with the metadata.
pub open spec fn stores<T>(point: PointStruct<T>, vector: Vec<T>, metadata: PointMetadata) -> bool {
    &&& point.vectors == vector
    &&& entry_pairs(point.payload.entries@) == metadata_entries(metadata)
}

/// The same items in reverse order.
fn reversed<T>(items: Vec<T>) -> (out: Vec<T>)
    ensures
        out@ == items@.reverse(),
{
    let mut items = items;
    let ghost all = items@;
    let mut out: Vec<T> = Vec::new();
    while items.len() > 0
        invariant
            items@.len() <= all.len(),
            items@ == all.take(items@.len() as int),
            out@ == all.skip(items@.len() as int).reverse(),
        decreases items@.len(),
    {
        let ghost left = items@.len() as int;
        let item = items.pop().unwrap();
        out.push(item);
        assert(out@ =~= all.skip(left - 1).reverse());
    }
    assert(all.skip(0) =~= all);
    out
}

/// Pairs each vector with the metadata at the same position into a point
/// with a fresh identifier. If one of the two is longer than the other, what
/// it holds beyond the length of the other is left out.
pub fn zip_points<T>(vectors: Vec<Vec<T>>, metadata: Vec<PointMetadata>) -> (points: Vec<
    PointStruct<T>,
>)
    ensures
        points@.len() == vectors@.len() || points@.len() == metadata@.len(),
        points@.len() <= vectors@.len(),
        points@.len() <= metadata@.len(),
        forall|i: int|
            0 <= i < points@.len() ==> stores(#[trigger] points@[i], vectors@[i], metadata@[i]),
{
    let mut left = reversed(metadata);
    let mut points: Vec<PointStruct<T>> = Vec::new();
    let ghost all = vectors@;
    for vector in it: vectors
        invariant
            it.seq() == all,
            points@.len() <= it.index(),
            points@.len() + left@.len() == metadata@.len(),
            points@.len() < it.index() ==> left@.len() == 0,
            left@ == metadata@.skip(points@.len() as int).reverse(),
            forall|i: int|
                0 <= i < points@.len() ==> stores(#[trigger] points@[i], all[i], metadata@[i]),
    {
        let ghost done = points@.len() as int;
        match left.pop() {
            Some(data) => {
                assert(data == metadata@[done]);
                let point = PointStruct { id: fresh_id(), vectors: vector, payload: data.into_payload() };
                points.push(point);
                assert(left@ =~= metadata@.skip(done + 1).reverse());
            },
            None => {},
        }
    }
    points
}

/// The embeddings of the data, in order.
fn embeddings_of<T>(data: Vec<EmbeddingData<T>>) -> (vectors: Vec<Vec<T>>)
    ensures
        vectors@ == data@.map_values(|d: EmbeddingData<T>| d.embedding),
{
    let mut vectors: Vec<Vec<T>> = Vec::new();
    let ghost all = data@;
    for item in it: data
        invariant
            it.seq() == all,
            vectors@ == all.take(it.index() as int).map_values(|d: EmbeddingData<T>| d.embedding),
    {
        vectors.push(item.embedding);
        assert(vectors@ =~= all.take(it.index() + 1).map_values(
            |d: EmbeddingData<T>| d.embedding,
        ));
    }
    assert(all.take(all.len() as int) =~= all);
    vectors
}

/// The request that writes to the collection one point for each embedding
/// with the metadata at the same position.
pub fn upsert_points<T>(
    data: Vec<EmbeddingData<T>>,
    collection_name: &str,
    payload: Vec<PointMetadata>,
) -> (request: UpsertPoints<T>)
    ensures
        request.collection_name@ == collection_name@,
        request.points@.len() == data@.len() || request.points@.len() == payload@.len(),
        request.points@.len() <= data@.len(),
        request.points@.len() <= payload@.len(),
        forall|i: int|
            0 <= i < request.points@.len() ==> stores(
                #[trigger] request.points@[i],
                data@[i].embedding,
                payload@[i],
            ),
{
    let vectors = embeddings_of(data);
    let points = zip_points(vectors, payload);
    UpsertPoints { collection_name: collection_name.to_owned(), points }
}

/// The request that searches the collection for the `TOP_K` points nearest
/// to the vector among those that pass the filter, payloads included.
pub fn query_points<T>(collection_name: &str, vector: Vec<T>, filter: Filter) -> (request:
    SearchPoints<T>)
    ensures
        request.collection_name@ == collection_name@,
        request.vector == vector,
        request.filter == Some(filter),
        request.limit == TOP_K,
        request.with_payload,
{
    SearchPoints {
        collection_name: collection_name.to_owned(),
        vector,
        filter: Some(filter),
        limit: TOP_K,
        with_payload: true,
    }
}

/// The request that creates the collection, for vectors of `VECTOR_SIZE`
/// components compared by cosine.
pub fn create_collection(collection_name: &str) -> (request: CreateCollection)
    ensures
        request.collection_name@ == collection_name@,
        request.size == VECTOR_SIZE,
        request.distance == Distance::Cosine,
{
    CreateCollection {
        collection_name: collection_name.to_owned(),
        size: VECTOR_SIZE,
        distance: Distance::Cosine,
    }
}

/// The request that lists up to a hundred points of the collection with
/// their payloads.
pub fn retrieve_points(collection_name: &str) -> (request: ScrollPoints)
    ensures
        request.collection_name@ == collection_name@,
        request.limit == 100,
        request.with_payload,
{
    ScrollPoints { collection_name: collection_name.to_owned(), limit: 100, with_payload: true }
}

/// The request that deletes every point of the collection.
pub fn clear_points(collection_name: &str) -> (request: DeletePoints)
    ensures
        request.collection_name@ == collection_name@,
        forall|payload: Payload| request.filter.spec_accepts(payload),
{
    DeletePoints { collection_name: collection_name.to_owned(), filter: Filter::any() }
}

} // verus!
