//! The retrieval assembler and the chat composer: from the points that a
//! search has found to the context of a prompt, and from context and
//! question to the chat request and its answer.

use crate::doc::error::{chat_failure, PipelineError};
use crate::openai::datamap::{ChatPayload, ChatResponse, Message, Model};
use crate::openai::error::Error;
use crate::qdrant::{RetrievedPoint, DOCUMENT_ID, RAW_TEXT};
use crate::text::same_text;
use vstd::prelude::*;
use vstd::string::StringExecFns;

verus! {

/// What a point contributes to the context: its chunk text; nothing where
/// its payload holds none, or holds something under that key that is no text.
pub open spec fn fragment(point: RetrievedPoint) -> Seq<char> {
    match point.payload.spec_text(RAW_TEXT@) {
        Some(text) => text,
        None => Seq::empty(),
    }
}

/// Whether a point lies within the scope of a query: any point where the
/// query has no scope, else the points whose payload names the document of
/// the scope.
pub open spec fn in_scope(point: RetrievedPoint, scope: Option<Seq<char>>) -> bool {
    match scope {
        None => true,
        Some(id) => point.payload.spec_text(DOCUMENT_ID@) == Some(id),
    }
}

/// The predicate that holds of the points within the scope.
pub open spec fn within(scope: Option<Seq<char>>) -> spec_fn(RetrievedPoint) -> bool {
    |point: RetrievedPoint| in_scope(point, scope)
}

/// The points that make the context: of the points within the scope, in
/// the order of their rank, the first `top_k`.
pub open spec fn selected(points: Seq<RetrievedPoint>, scope: Option<Seq<char>>, top_k: nat) -> Seq<
    RetrievedPoint,
> {
    let kept = points.filter(within(scope));
    if kept.len() <= top_k {
        kept
    } else {
        kept.take(top_k as int)
    }
}

/// What each of the points contributes, in order.
pub open spec fn fragments(points: Seq<RetrievedPoint>) -> Seq<Seq<char>> {
    points.map_values(|point: RetrievedPoint| fragment(point))
}

/// The context: what the selected points contribute, in the order of their
/// rank, with nothing between the contributions.
pub open spec fn context_of(points: Seq<RetrievedPoint>, scope: Option<Seq<char>>, top_k: nat) -> Seq<
    char,
> {
    fragments(selected(points, scope, top_k)).flatten()
}

/// Every point that contributes to the context of a scoped query belongs to
/// the document of the scope, whatever the store has returned; and no more
/// than `top_k` points contribute.
pub proof fn lemma_context_stays_in_scope(
    points: Seq<RetrievedPoint>,
    scope: Option<Seq<char>>,
    top_k: nat,
)
    ensures
        selected(points, scope, top_k).len() <= top_k,
        forall|i: int|
            0 <= i < selected(points, scope, top_k).len() ==> in_scope(
                #[trigger] selected(points, scope, top_k)[i],
                scope,
            ),
        forall|i: int|
            0 <= i < selected(points, scope, top_k).len() ==> points.contains(
                #[trigger] selected(points, scope, top_k)[i],
            ),
{
    let kept = points.filter(within(scope));
    assert forall|i: int| 0 <= i < selected(points, scope, top_k).len() implies in_scope(
        #[trigger] selected(points, scope, top_k)[i],
        scope,
    ) && points.contains(selected(points, scope, top_k)[i]) by {
        assert(selected(points, scope, top_k)[i] == kept[i]);
        points.lemma_filter_pred(within(scope), i);
        assert(kept.contains(kept[i]));
        points.lemma_filter_contains_rev(within(scope), kept[i]);
    }
}

/// Without points there is no context.
pub proof fn lemma_no_points_no_context(scope: Option<Seq<char>>, top_k: nat)
    ensures
        context_of(Seq::empty(), scope, top_k) == Seq::<char>::empty(),
{
    reveal(Seq::filter);
    let none = Seq::<RetrievedPoint>::empty();
    assert(none.filter(within(scope)) =~= none);
    assert(fragments(none) =~= Seq::<Seq<char>>::empty());
}

/// Tests whether the point lies within the scope.
fn is_in_scope(point: &RetrievedPoint, document_id: Option<&str>) -> (b: bool)
    ensures
        b == in_scope(
            *point,
            match document_id {
                Some(id) => Some(id@),
                None => None,
            },
        ),
{
    match document_id {
        None => true,
        Some(id) => match point.payload.text(DOCUMENT_ID) {
            Some(found) => same_text(found, id),
            None => false,
        },
    }
}

/// The view of an optional text.
pub open spec fn scope_view(document_id: Option<&str>) -> Option<Seq<char>> {
    match document_id {
        Some(id) => Some(id@),
        None => None,
    }
}

/// Assembles the context of a prompt from the points that a search has
/// returned, in the order of their rank. Where the query is scoped to a
/// document, points of other documents are passed over; the first `top_k`
/// points that are left contribute their chunk text, a point without chunk
/// text contributes nothing, and the contributions are put one behind the
/// other with nothing between them.
pub fn assemble_context(points: &Vec<RetrievedPoint>, document_id: Option<&str>, top_k: usize) -> (context:
    String)
    ensures
        context@ == context_of(points@, scope_view(document_id), top_k as nat),
{
    let ghost scope = scope_view(document_id);
    let n: usize = points.len();
    let mut context = String::new();
    let mut taken: usize = 0;
    let mut i: usize = 0;
    proof {
        reveal(Seq::filter);
        assert(points@.take(0) =~= Seq::<RetrievedPoint>::empty());
        assert(fragments(points@.take(0).filter(within(scope))) =~= Seq::<Seq<char>>::empty());
    }
    while i < n && taken < top_k
        invariant
            n == points@.len(),
            i <= n,
            scope == scope_view(document_id),
            taken == points@.take(i as int).filter(within(scope)).len(),
            taken <= top_k,
            context@ == fragments(points@.take(i as int).filter(within(scope))).flatten(),
        decreases n - i,
    {
        let ghost kept = points@.take(i as int).filter(within(scope));
        proof {
            assert(points@.take(i + 1) =~= points@.take(i as int).push(points@[i as int]));
            points@.take(i as int).lemma_filter_push(points@[i as int], within(scope));
        }
        if is_in_scope(&points[i], document_id) {
            proof {
                assert(fragments(kept.push(points@[i as int])) =~= fragments(kept).push(
                    fragment(points@[i as int]),
                ));
                fragments(kept).lemma_flatten_push(fragment(points@[i as int]));
            }
            match points[i].payload.text(RAW_TEXT) {
                Some(text) => {
                    context.append(text);
                },
                None => {
                    assert(context@ + Seq::<char>::empty() =~= context@);
                },
            }
            taken = taken + 1;
        }
        i = i + 1;
    }
    proof {
        let kept = points@.take(i as int).filter(within(scope));
        let all = points@.filter(within(scope));
        assert(points@.take(i as int) + points@.skip(i as int) =~= points@);
        Seq::filter_distributes_over_add(points@.take(i as int), points@.skip(i as int), within(scope));
        if i == n {
            assert(points@.take(i as int) =~= points@);
        } else {
            assert(all.take(top_k as int) =~= kept);
            if all.len() <= top_k {
                assert(all =~= kept);
            }
        }
        assert(selected(points@, scope, top_k as nat) == kept);
    }
    context
}

/// What the chat service is told: to answer from the content that follows
/// alone, and to decline where the content gives no basis for an answer.
pub const INSTRUCTION: &'static str =
    "我会在接下来的内容中提供一份文章内容,请你仔细理解文章,我会基于文章内容向你提问,请你完全基于文章内容回答我,如果无法基于文章内容回答则回答无可奉告. 文章内容: ";

/// The marks that enclose the context in a prompt.
pub const FENCE: &'static str = "'''";

/// The line break between context and question.
pub const LINE_BREAK: &'static str = "\r\n";

/// The words that introduce the question in a prompt.
pub const QUESTION_LABEL: &'static str = "问题: ";

/// The role under which a prompt is sent.
pub const USER_ROLE: &'static str = "user";

/// The prompt for a question over a context: the instruction, the context
/// between its marks, and on a line of its own the question.
pub open spec fn prompt_of(question: Seq<char>, context: Seq<char>) -> Seq<char> {
    INSTRUCTION@ + FENCE@ + context + FENCE@ + LINE_BREAK@ + QUESTION_LABEL@ + question
}

/// Writes the prompt for a question over a context.
pub fn compose_prompt(question: &str, context: &str) -> (prompt: String)
    ensures
        prompt@ == prompt_of(question@, context@),
{
    let mut prompt = String::from_str(INSTRUCTION);
    prompt.append(FENCE);
    prompt.append(context);
    prompt.append(FENCE);
    prompt.append(LINE_BREAK);
    prompt.append(QUESTION_LABEL);
    prompt.append(question);
    prompt
}

/// Whether `request` is the chat request for a question over a context: one
/// message of the user, which is the prompt, to the chat model, and nothing
/// else set.
pub open spec fn asks(request: ChatPayload, question: Seq<char>, context: Seq<char>) -> bool {
    &&& request.model == Model::Gpt35Turbo
    &&& request.messages@.len() == 1
    &&& request.messages@[0].role@ == USER_ROLE@
    &&& request.messages@[0].content@ == prompt_of(question, context)
    &&& request.n is None
    &&& request.stop is None
    &&& request.max_tokens is None
    &&& request.user is None
}

/// Builds the chat request for a question over a context. The request is
/// made also where the context is empty: the instruction then leaves the
/// service nothing to answer from.
pub fn compose_request(question: &str, context: &str) -> (request: ChatPayload)
    ensures
        asks(request, question@, context@),
{
    let message = Message {
        role: String::from_str(USER_ROLE),
        content: compose_prompt(question, context),
    };
    let mut messages: Vec<Message> = Vec::new();
    messages.push(message);
    ChatPayload {
        model: Model::Gpt35Turbo,
        messages,
        n: None,
        stop: None,
        max_tokens: None,
        user: None,
    }
}

/// What the outcome of a chat request comes to.
pub open spec fn answered(outcome: Result<ChatResponse, Error>) -> Result<Seq<char>, PipelineError> {
    match outcome {
        Ok(response) => Ok(response.text()),
        Err(error) => Err(chat_failure(error)),
    }
}

/// The view of an answer: its text, or the error.
pub open spec fn answer_view(result: Result<String, PipelineError>) -> Result<
    Seq<char>,
    PipelineError,
> {
    match result {
        Ok(text) => Ok(text@),
        Err(error) => Err(error),
    }
}

/// Takes the outcome of a chat request: the answer is the text of all
/// completions of the response, in order; an error of the service or of the
/// transport is handed on as it is.
pub fn answer_of(outcome: Result<ChatResponse, Error>) -> (result: Result<String, PipelineError>)
    ensures
        answer_view(result) == answered(outcome),
{
    match outcome {
        Ok(response) => Ok(response.to_string()),
        Err(error) => Err(PipelineError::from_chat(error)),
    }
}

} // verus!
