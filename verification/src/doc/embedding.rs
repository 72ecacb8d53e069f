//! The embedding orchestrator: decides which chunk is sent for embedding
//! next, how many requests may be under way at once, and what the batch
//! comes to once every request has settled.
//!
//! The orchestrator performs no request itself. Its caller performs each
//! [`BatchAction`] and reports what happened as a [`BatchEvent`]; completions
//! may be reported in any order, since each names the chunk it belongs to.

use crate::openai::datamap::{EmbeddingPayload, EmbeddingResponse, Model, Usage, UsageReport};
use crate::openai::error::Error;
use vstd::prelude::*;

verus! {

/// An embedding, with the index of the chunk of the batch that it was
/// computed for. `T` is the type of a component.
#[derive(Debug, Clone, PartialEq)]
pub struct EmbeddingVector<T> {
    pub index: usize,
    pub values: Vec<T>,
}

/// Why a chunk has no embedding.
#[derive(Debug, Clone, PartialEq, Eq)]
pub enum FailureCause {
    /// The service or the transport failed the request.
    Request(Error),
    /// The response held no embedding.
    NoEmbedding,
    /// The embedding of the response has `actual` components where the
    /// model has `expected`.
    WrongDimension { expected: usize, actual: usize },
    /// The request was never sent, or no completion was reported for it.
    Abandoned,
}

/// The request for one chunk of a batch has failed.
#[derive(Debug, Clone, PartialEq, Eq)]
pub struct EmbeddingRequestFailed {
    pub index: usize,
    pub cause: FailureCause,
}

/// Some chunks of a batch have no embedding; the batch yields none at all.
/// The failures are listed by rising index.
#[derive(Debug, Clone, PartialEq, Eq)]
pub struct BatchIncomplete {
    pub failures: Vec<EmbeddingRequestFailed>,
}

/// How a batch is embedded.
#[derive(Debug, Clone, Copy, PartialEq, Eq, Structural)]
pub struct EmbedConfig {
    /// The model asked for the embeddings.
    pub model: Model,
    /// The number of components of an embedding of that model.
    pub dimension: usize,
    /// The most requests that may be under way at once; zero counts as one.
    pub max_in_flight: usize,
    /// The pause, in milliseconds, between two submissions.
    pub pacing_ms: u64,
}

impl Default for EmbedConfig {
    fn default() -> (config: EmbedConfig)
        ensures
            config == (EmbedConfig {
                model: Model::Ada002,
                dimension: 1536,
                max_in_flight: 16,
                pacing_ms: 100,
            }),
    {
        EmbedConfig { model: Model::Ada002, dimension: 1536, max_in_flight: 16, pacing_ms: 100 }
    }
}

impl EmbedConfig {
    /// The most requests that may be under way at once.
    pub open spec fn bound(self) -> nat {
        if self.max_in_flight == 0 {
            1
        } else {
            self.max_in_flight as nat
        }
    }
}

/// Where the request for one chunk stands.
#[derive(Debug, Clone, PartialEq)]
pub enum Slot<T> {
    /// Not sent yet.
    Pending,
    /// Sent, no completion reported yet.
    InFlight,
    /// Completed with an embedding of the model's dimension.
    Embedded { values: Vec<T>, usage: Usage },
    /// Completed without one.
    Failed(FailureCause),
}

/// What the caller reports to the orchestrator.
#[derive(Debug, PartialEq)]
pub enum BatchEvent<T> {
    /// The caller is ready for the next action: at the start, and after the
    /// pause that follows a submission.
    Ready,
    /// The request for chunk `index` has completed.
    Completed { index: usize, outcome: Result<EmbeddingResponse<T>, Error> },
}

/// What the orchestrator asks its caller to do next.
#[derive(Debug, Clone, PartialEq, Eq)]
pub enum BatchAction {
    /// Send `payload`, the request for chunk `index`, without waiting for its
    /// completion; pause for `pacing_ms` milliseconds; then report `Ready`.
    Submit { index: usize, payload: EmbeddingPayload, pacing_ms: u64 },
    /// Wait until a request completes, and report the completion.
    Await,
    /// Nothing is under way and nothing more will be sent: finish the batch.
    Finish,
}

/// What a completion makes of the slot of its chunk.
pub open spec fn settled<T>(outcome: Result<EmbeddingResponse<T>, Error>, dimension: usize) -> Slot<
    T,
> {
    match outcome {
        Err(e) => Slot::Failed(FailureCause::Request(e)),
        Ok(response) => if response.data@.len() == 0 {
            Slot::Failed(FailureCause::NoEmbedding)
        } else if response.data@[0].embedding@.len() != dimension {
            Slot::Failed(
                FailureCause::WrongDimension {
                    expected: dimension,
                    actual: response.data@[0].embedding@.len() as usize,
                },
            )
        } else {
            Slot::Embedded { values: response.data@[0].embedding, usage: response.usage }
        },
    }
}

/// The number of requests under way among the first `upto` slots.
pub open spec fn in_flight_upto<T>(slots: Seq<Slot<T>>, upto: int) -> nat
    decreases upto,
{
    if upto <= 0 {
        0
    } else {
        in_flight_upto(slots, upto - 1) + if slots[upto - 1] is InFlight {
            1nat
        } else {
            0nat
        }
    }
}

/// The number of failed requests among the first `upto` slots.
pub open spec fn failed_upto<T>(slots: Seq<Slot<T>>, upto: int) -> nat
    decreases upto,
{
    if upto <= 0 {
        0
    } else {
        failed_upto(slots, upto - 1) + if slots[upto - 1] is Failed {
            1nat
        } else {
            0nat
        }
    }
}

/// Why a slot has no embedding.
pub open spec fn cause_of<T>(slot: Slot<T>) -> FailureCause {
    match slot {
        Slot::Failed(cause) => cause,
        _ => FailureCause::Abandoned,
    }
}

/// The failures among the first `upto` slots, by rising index: one for each
/// slot without embedding.
pub open spec fn failures_upto<T>(slots: Seq<Slot<T>>, upto: int) -> Seq<EmbeddingRequestFailed>
    decreases upto,
{
    if upto <= 0 {
        Seq::empty()
    } else if slots[upto - 1] is Embedded {
        failures_upto(slots, upto - 1)
    } else {
        failures_upto(slots, upto - 1).push(
            EmbeddingRequestFailed {
                index: (upto - 1) as usize,
                cause: cause_of(slots[upto - 1]),
            },
        )
    }
}

/// The state of a batch, as the contracts speak of it.
pub struct BatchState<T> {
    pub config: EmbedConfig,
    /// The texts of the chunks.
    pub chunks: Seq<Seq<char>>,
    /// One slot per chunk.
    pub slots: Seq<Slot<T>>,
    /// The number of chunks sent so far: chunks are sent by rising index.
    pub submitted: nat,
}

impl<T> BatchState<T> {
    /// The state of a batch before anything is sent.
    pub open spec fn start(chunks: Seq<Seq<char>>, config: EmbedConfig) -> BatchState<T> {
        BatchState {
            config,
            chunks,
            slots: Seq::new(chunks.len(), |i: int| Slot::Pending),
            submitted: 0,
        }
    }

    /// The number of requests under way.
    pub open spec fn in_flight(self) -> nat {
        in_flight_upto(self.slots, self.slots.len() as int)
    }

    /// The number of failed requests.
    pub open spec fn failed(self) -> nat {
        failed_upto(self.slots, self.slots.len() as int)
    }

    /// What holds of every state of a batch: there is one slot per chunk,
    /// exactly the chunks below `submitted` have been sent, an embedding
    /// that is kept has the model's dimension, and no more requests are
    /// under way than the configuration allows.
    pub open spec fn valid(self) -> bool {
        &&& self.slots.len() == self.chunks.len()
        &&& self.submitted <= self.slots.len()
        &&& forall|i: int| 0 <= i < self.slots.len() ==> (i < self.submitted <==> !(
        #[trigger] self.slots[i] is Pending))
        &&& forall|i: int|
            0 <= i < self.slots.len() ==> (#[trigger] self.slots[i] matches Slot::Embedded {
                values,
                ..
            } ==> values@.len() == self.config.dimension)
        &&& self.in_flight() <= self.config.bound()
    }

    /// The state after an event. A completion settles the slot of its chunk
    /// if a request for that chunk is under way; any other completion, and
    /// `Ready`, change nothing.
    pub open spec fn after(self, event: BatchEvent<T>) -> BatchState<T> {
        match event {
            BatchEvent::Ready => self,
            BatchEvent::Completed { index, outcome } => if index < self.slots.len()
                && self.slots[index as int] is InFlight {
                BatchState {
                    slots: self.slots.update(
                        index as int,
                        settled(outcome, self.config.dimension),
                    ),
                    ..self
                }
            } else {
                self
            },
        }
    }

    /// Whether the next chunk may be sent now: no request has failed, a
    /// chunk is left, and fewer requests are under way than may be.
    pub open spec fn may_submit(self) -> bool {
        &&& self.failed() == 0
        &&& self.submitted < self.slots.len()
        &&& self.in_flight() < self.config.bound()
    }

    /// The state after the decision that follows an event: where the next
    /// chunk may be sent, it is under way now.
    pub open spec fn decided(self) -> BatchState<T> {
        if self.may_submit() {
            BatchState {
                slots: self.slots.update(self.submitted as int, Slot::InFlight),
                submitted: self.submitted + 1,
                ..self
            }
        } else {
            self
        }
    }

    /// Whether `action` is the action that the decision in this state asks
    /// for: the next chunk where it may be sent, else to wait while a request
    /// is under way, else to finish.
    pub open spec fn asks_for(self, action: BatchAction) -> bool {
        match action {
            BatchAction::Submit { index, payload, pacing_ms } => {
                &&& self.may_submit()
                &&& index == self.submitted
                &&& payload.model == self.config.model
                &&& payload.input@ == self.chunks[index as int]
                &&& payload.user is None
                &&& pacing_ms == self.config.pacing_ms
            },
            BatchAction::Await => !self.may_submit() && self.in_flight() > 0,
            BatchAction::Finish => !self.may_submit() && self.in_flight() == 0,
        }
    }

    /// Whether every chunk has its embedding.
    pub open spec fn all_embedded(self) -> bool {
        forall|i: int| 0 <= i < self.slots.len() ==> #[trigger] self.slots[i] is Embedded
    }

    /// Whether `vectors` and `report` are the embeddings and the usage of
    /// this batch: one of each per chunk, in the order of the chunks, each
    /// embedding with the index of its chunk and of the model's dimension.
    pub open spec fn yields(self, vectors: Seq<EmbeddingVector<T>>, report: UsageReport) -> bool {
        &&& vectors.len() == self.chunks.len()
        &&& report.0@.len() == self.chunks.len()
        &&& forall|i: int|
            0 <= i < vectors.len() ==> {
                &&& (#[trigger] vectors[i]).index == i
                &&& vectors[i].values@.len() == self.config.dimension
                &&& self.slots[i] == (Slot::Embedded {
                    values: vectors[i].values,
                    usage: report.0@[i],
                })
            }
    }
}

/// Changing one slot changes the count of requests under way by what that
/// slot adds or takes away.
pub proof fn lemma_in_flight_update<T>(slots: Seq<Slot<T>>, at: int, slot: Slot<T>, upto: int)
    requires
        0 <= at < slots.len(),
        0 <= upto <= slots.len(),
    ensures
        in_flight_upto(slots.update(at, slot), upto) + (if at < upto && slots[at] is InFlight {
            1int
        } else {
            0int
        }) == in_flight_upto(slots, upto) + (if at < upto && slot is InFlight {
            1int
        } else {
            0int
        }),
    decreases upto,
{
    if upto > 0 {
        lemma_in_flight_update(slots, at, slot, upto - 1);
    }
}

/// Changing one slot changes the count of failed requests by what that slot
/// adds or takes away.
pub proof fn lemma_failed_update<T>(slots: Seq<Slot<T>>, at: int, slot: Slot<T>, upto: int)
    requires
        0 <= at < slots.len(),
        0 <= upto <= slots.len(),
    ensures
        failed_upto(slots.update(at, slot), upto) + (if at < upto && slots[at] is Failed {
            1int
        } else {
            0int
        }) == failed_upto(slots, upto) + (if at < upto && slot is Failed {
            1int
        } else {
            0int
        }),
    decreases upto,
{
    if upto > 0 {
        lemma_failed_update(slots, at, slot, upto - 1);
    }
}

/// Neither count exceeds the number of slots counted, and slots that are
/// all pending count nothing.
pub proof fn lemma_counts_bounded<T>(slots: Seq<Slot<T>>, upto: int)
    requires
        0 <= upto <= slots.len(),
    ensures
        in_flight_upto(slots, upto) + failed_upto(slots, upto) <= upto,
        (forall|i: int| 0 <= i < upto ==> #[trigger] slots[i] is Pending) ==> in_flight_upto(
            slots,
            upto,
        ) == 0 && failed_upto(slots, upto) == 0,
    decreases upto,
{
    if upto > 0 {
        lemma_counts_bounded(slots, upto - 1);
    }
}

/// There is no failure exactly where every slot holds an embedding; and
/// there are at most as many failures as slots.
pub proof fn lemma_failures_none<T>(slots: Seq<Slot<T>>, upto: int)
    requires
        0 <= upto <= slots.len(),
    ensures
        failures_upto(slots, upto).len() <= upto,
        failures_upto(slots, upto).len() == 0 <==> (forall|i: int|
            0 <= i < upto ==> #[trigger] slots[i] is Embedded),
    decreases upto,
{
    if upto > 0 {
        lemma_failures_none(slots, upto - 1);
    }
}

/// A failure is listed for a chunk exactly where that chunk has no
/// embedding, and it names the cause that the slot of the chunk holds.
pub proof fn lemma_failures_name_the_chunks<T>(slots: Seq<Slot<T>>, upto: int)
    requires
        0 <= upto <= slots.len(),
        slots.len() <= usize::MAX,
    ensures
        forall|k: int|
            0 <= k < failures_upto(slots, upto).len() ==> {
                let failure = #[trigger] failures_upto(slots, upto)[k];
                &&& failure.index < upto
                &&& !(slots[failure.index as int] is Embedded)
                &&& failure.cause == cause_of(slots[failure.index as int])
            },
        forall|i: int|
            0 <= i < upto && !(#[trigger] slots[i] is Embedded) ==> exists|k: int|
                0 <= k < failures_upto(slots, upto).len() && (#[trigger] failures_upto(
                    slots,
                    upto,
                )[k]).index == i,
    decreases upto,
{
    if upto > 0 {
        lemma_failures_name_the_chunks(slots, upto - 1);
        let before = failures_upto(slots, upto - 1);
        let all = failures_upto(slots, upto);
        if slots[upto - 1] is Embedded {
        } else {
            assert(all == before.push(all.last()));
            assert forall|i: int| 0 <= i < upto && !(#[trigger] slots[i] is Embedded) implies exists|
                k: int,
            |
                0 <= k < all.len() && (#[trigger] all[k]).index == i by {
                if i < upto - 1 {
                    let k = choose|k: int| 0 <= k < before.len() && (#[trigger] before[k]).index == i;
                    assert(all[k] == before[k]);
                } else {
                    assert(all[all.len() - 1].index == i);
                }
            }
        }
    }
}

/// Every step keeps a batch valid: whatever is reported, and in whatever
/// order, there is one slot per chunk, chunks are sent by rising index, kept
/// embeddings have the model's dimension, and no more requests are under way
/// than the configuration allows. A step changes neither the chunks nor the
/// configuration.
pub proof fn lemma_step_keeps_valid<T>(state: BatchState<T>, event: BatchEvent<T>)
    requires
        state.valid(),
    ensures
        state.after(event).valid(),
        state.after(event).decided().valid(),
        state.after(event).decided().chunks == state.chunks,
        state.after(event).decided().config == state.config,
{
    let n = state.slots.len() as int;
    let seen = state.after(event);
    match event {
        BatchEvent::Ready => {},
        BatchEvent::Completed { index, outcome } => {
            if index < state.slots.len() && state.slots[index as int] is InFlight {
                lemma_in_flight_update(
                    state.slots,
                    index as int,
                    settled(outcome, state.config.dimension),
                    n,
                );
            }
        },
    }
    assert(seen.valid());
    if seen.may_submit() {
        lemma_in_flight_update(seen.slots, seen.submitted as int, Slot::InFlight, n);
    }
}

/// Makes of a completion the slot of its chunk: an embedding is kept only
/// if the response holds one and it has `dimension` components.
fn settle<T>(outcome: Result<EmbeddingResponse<T>, Error>, dimension: usize) -> (slot: Slot<T>)
    ensures
        slot == settled(outcome, dimension),
{
    match outcome {
        Err(e) => Slot::Failed(FailureCause::Request(e)),
        Ok(response) => {
            let usage = response.usage;
            let mut data = response.data;
            if data.len() == 0 {
                Slot::Failed(FailureCause::NoEmbedding)
            } else {
                let first = data.swap_remove(0);
                let actual: usize = first.embedding.len();
                if actual != dimension {
                    Slot::Failed(FailureCause::WrongDimension { expected: dimension, actual })
                } else {
                    Slot::Embedded { values: first.embedding, usage }
                }
            }
        },
    }
}

/// A batch of chunks on its way to its embeddings.
pub struct EmbedBatch<T> {
    config: EmbedConfig,
    chunks: Vec<String>,
    slots: Vec<Slot<T>>,
    submitted: usize,
    in_flight: usize,
    failed: usize,
}

impl<T> View for EmbedBatch<T> {
    type V = BatchState<T>;

    closed spec fn view(&self) -> BatchState<T> {
        BatchState {
            config: self.config,
            chunks: self.chunks.deep_view(),
            slots: self.slots@,
            submitted: self.submitted as nat,
        }
    }
}

impl<T> EmbedBatch<T> {
    /// Whether this batch is in a state that `new` and `step` can lead to.
    pub closed spec fn wf(&self) -> bool {
        &&& self@.valid()
        &&& self.in_flight == self@.in_flight()
        &&& self.failed == self@.failed()
    }

    /// A batch that is well formed is in a valid state: in particular, no
    /// more requests are under way than its configuration allows.
    pub proof fn lemma_valid(&self)
        requires
            self.wf(),
        ensures
            self@.valid(),
            self@.in_flight() <= self@.config.bound(),
    {
    }

    /// A batch for the given chunks, with nothing sent yet.
    pub fn new(chunks: Vec<String>, config: EmbedConfig) -> (batch: EmbedBatch<T>)
        ensures
            batch.wf(),
            batch@ == BatchState::<T>::start(chunks.deep_view(), config),
    {
        let n: usize = chunks.len();
        let mut slots: Vec<Slot<T>> = Vec::new();
        let mut i: usize = 0;
        while i < n
            invariant
                i <= n,
                slots@.len() == i,
                forall|j: int| 0 <= j < i ==> #[trigger] slots@[j] is Pending,
            decreases n - i,
        {
            slots.push(Slot::Pending);
            i = i + 1;
        }
        proof {
            lemma_counts_bounded(slots@, n as int);
            assert(slots@ =~= Seq::new(chunks.deep_view().len(), |i: int| Slot::<T>::Pending));
        }
        EmbedBatch { config, chunks, slots, submitted: 0, in_flight: 0, failed: 0 }
    }

    /// The number of chunks of the batch.
    pub fn len(&self) -> (n: usize)
        ensures
            n == self@.chunks.len(),
    {
        self.chunks.len()
    }

    /// The number of requests under way.
    pub fn in_flight(&self) -> (n: usize)
        requires
            self.wf(),
        ensures
            n == self@.in_flight(),
            n <= self@.config.bound(),
    {
        self.in_flight
    }

    /// Takes an event and decides what the caller is to do next.
    ///
    /// A completion settles its chunk. Then the next chunk is sent if no
    /// request has failed, a chunk is left and the bound on requests under
    /// way allows it; else the caller waits while requests are under way;
    /// else the batch is ready to be finished. After a failure nothing more
    /// is sent, but what is under way is waited for.
    pub fn step(&mut self, event: BatchEvent<T>) -> (action: BatchAction)
        requires
            old(self).wf(),
        ensures
            final(self).wf(),
            final(self)@ == old(self)@.after(event).decided(),
            old(self)@.after(event).asks_for(action),
    {
        let ghost n = self.slots@.len() as int;
        match event {
            BatchEvent::Ready => {},
            BatchEvent::Completed { index, outcome } => {
                if index < self.slots.len() && matches!(self.slots[index], Slot::InFlight) {
                    let slot = settle(outcome, self.config.dimension);
                    let has_failed = matches!(slot, Slot::Failed(_));
                    proof {
                        lemma_in_flight_update(self.slots@, index as int, slot, n);
                        lemma_failed_update(self.slots@, index as int, slot, n);
                        lemma_counts_bounded(self.slots@.update(index as int, slot), n);
                    }
                    self.slots.set(index, slot);
                    self.in_flight = self.in_flight - 1;
                    if has_failed {
                        self.failed = self.failed + 1;
                    }
                }
            },
        }
        let bound: usize = if self.config.max_in_flight == 0 {
            1
        } else {
            self.config.max_in_flight
        };
        if self.failed == 0 && self.submitted < self.slots.len() && self.in_flight < bound {
            let index: usize = self.submitted;
            proof {
                lemma_in_flight_update(self.slots@, index as int, Slot::InFlight, n);
                lemma_failed_update(self.slots@, index as int, Slot::InFlight, n);
            }
            self.slots.set(index, Slot::InFlight);
            self.submitted = index + 1;
            self.in_flight = self.in_flight + 1;
            let payload = EmbeddingPayload {
                model: self.config.model,
                input: self.chunks[index].clone(),
                user: None,
            };
            BatchAction::Submit { index, payload, pacing_ms: self.config.pacing_ms }
        } else if self.in_flight > 0 {
            BatchAction::Await
        } else {
            BatchAction::Finish
        }
    }

    /// Ends the batch: the embeddings and the usage of all chunks, in the
    /// order of the chunks, if every chunk has its embedding; else the
    /// failures, one for each chunk without embedding, and no embedding at
    /// all. A chunk whose request was never sent or never completed counts
    /// as abandoned.
    pub fn finish(self) -> (result: Result<(Vec<EmbeddingVector<T>>, UsageReport), BatchIncomplete>)
        requires
            self.wf(),
        ensures
            match result {
                Ok((vectors, report)) => self@.all_embedded() && self@.yields(vectors@, report),
                Err(incomplete) => !self@.all_embedded() && incomplete.failures@ == failures_upto(
                    self@.slots,
                    self@.slots.len() as int,
                ),
            },
    {
        let ghost state = self@;
        let ghost all = self.slots@;
        let dimension: usize = self.config.dimension;
        let total: usize = self.slots.len();
        let slots = self.slots;
        let mut vectors: Vec<EmbeddingVector<T>> = Vec::new();
        let mut usages: Vec<Usage> = Vec::new();
        let mut failures: Vec<EmbeddingRequestFailed> = Vec::new();
        let mut i: usize = 0;
        for slot in it: slots
            invariant
                all == state.slots,
                state.valid(),
                dimension == state.config.dimension,
                it.seq() == all,
                i == it.index(),
                i <= all.len() == total,
                failures@ == failures_upto(all, i as int),
                failures@.len() == 0 ==> {
                    &&& vectors@.len() == i
                    &&& usages@.len() == i
                    &&& forall|j: int|
                        0 <= j < i ==> {
                            &&& (#[trigger] vectors@[j]).index == j
                            &&& vectors@[j].values@.len() == dimension
                            &&& all[j] == (Slot::Embedded {
                                values: vectors@[j].values,
                                usage: usages@[j],
                            })
                        }
                },
        {
            proof {
                lemma_failures_none(all, i as int);
            }
            match slot {
                Slot::Embedded { values, usage } => {
                    if failures.len() == 0 {
                        vectors.push(EmbeddingVector { index: i, values });
                        usages.push(usage);
                    }
                },
                Slot::Failed(cause) => {
                    failures.push(EmbeddingRequestFailed { index: i, cause });
                },
                _ => {
                    failures.push(
                        EmbeddingRequestFailed { index: i, cause: FailureCause::Abandoned },
                    );
                },
            }
            i = i + 1;
        }
        proof {
            lemma_failures_none(all, all.len() as int);
        }
        if failures.len() == 0 {
            Ok((vectors, UsageReport(usages)))
        } else {
            Err(BatchIncomplete { failures })
        }
    }
}

/// The request that asks `model` for the embedding of `text`.
pub fn embedding_request(text: &str, model: Model) -> (payload: EmbeddingPayload)
    ensures
        payload.model == model,
        payload.input@ == text@,
        payload.user is None,
{
    EmbeddingPayload { model, input: text.to_owned(), user: None }
}

/// What the completion of a single request comes to: the embedding, with
/// index 0, or the failure of request 0.
pub open spec fn embedded_one<T>(
    outcome: Result<EmbeddingResponse<T>, Error>,
    dimension: usize,
) -> Result<EmbeddingVector<T>, EmbeddingRequestFailed> {
    match settled(outcome, dimension) {
        Slot::Embedded { values, .. } => Ok(EmbeddingVector { index: 0, values }),
        slot => Err(EmbeddingRequestFailed { index: 0, cause: cause_of(slot) }),
    }
}

/// Takes the completion of the request for a single text, such as a
/// question: its embedding if the response holds one of `dimension`
/// components, else the failure, of the same causes as in a batch.
pub fn embed_one<T>(outcome: Result<EmbeddingResponse<T>, Error>, dimension: usize) -> (result:
    Result<EmbeddingVector<T>, EmbeddingRequestFailed>)
    ensures
        result == embedded_one(outcome, dimension),
        result matches Ok(vector) ==> vector.values@.len() == dimension,
{
    match settle(outcome, dimension) {
        Slot::Embedded { values, usage: _ } => Ok(EmbeddingVector { index: 0, values }),
        Slot::Failed(cause) => Err(EmbeddingRequestFailed { index: 0, cause }),
        _ => Err(EmbeddingRequestFailed { index: 0, cause: FailureCause::Abandoned }),
    }
}

} // verus!
