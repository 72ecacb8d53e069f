//! The records of the conversation transcript and how they are keyed.

use crate::openai::datamap::{ChatPayload, ChatResponse, Message, Model};
use crate::text::string_of;
use vstd::prelude::*;
use vstd::string::StringExecFns;

verus! {

/// A conversation, as the transcript store keeps it under its identifier.
#[derive(Debug, Clone, PartialEq, Eq)]
pub struct Conversation {
    pub conversation_id: String,
    pub created_at: String,
    pub updated_at: String,
    pub user_id: String,
}

/// One message of a conversation, as the transcript store keeps it.
#[derive(Debug, Clone, PartialEq, Eq)]
pub struct Sentances {
    pub sentance_id: u64,
    pub conversation_id: String,
    pub sender: String,
    pub content: String,
    pub timestamp: String,
}

/// The chat message that a transcript record stands for: the sender is the
/// role, the content is the content.
pub open spec fn as_message(sentance: Sentances) -> Message {
    Message { role: sentance.sender, content: sentance.content }
}

/// Turns transcript records into chat messages, one for one and in order.
pub fn convert_to_messages(sentances: Vec<Sentances>) -> (messages: Vec<Message>)
    ensures
        messages@ == sentances@.map_values(|s: Sentances| as_message(s)),
{
    let n: usize = sentances.len();
    let mut messages: Vec<Message> = Vec::new();
    let mut i: usize = 0;
    while i < n
        invariant
            n == sentances@.len(),
            i <= n,
            messages@ == sentances@.take(i as int).map_values(|s: Sentances| as_message(s)),
        decreases n - i,
    {
        let message = Message {
            role: sentances[i].sender.clone(),
            content: sentances[i].content.clone(),
        };
        messages.push(message);
        assert(messages@ =~= sentances@.take(i + 1).map_values(|s: Sentances| as_message(s)));
        i = i + 1;
    }
    assert(sentances@.take(n as int) =~= sentances@);
    messages
}

/// The character of a decimal digit.
pub open spec fn digit(d: nat) -> char {
    if d == 0 {
        '0'
    } else if d == 1 {
        '1'
    } else if d == 2 {
        '2'
    } else if d == 3 {
        '3'
    } else if d == 4 {
        '4'
    } else if d == 5 {
        '5'
    } else if d == 6 {
        '6'
    } else if d == 7 {
        '7'
    } else if d == 8 {
        '8'
    } else {
        '9'
    }
}

/// The decimal numeral of a number, without leading zeros.
pub open spec fn decimal(n: nat) -> Seq<char>
    decreases n,
{
    if n < 10 {
        seq![digit(n)]
    } else {
        decimal(n / 10).push(digit(n % 10))
    }
}

/// The separator between the conversation and the sequence number in the
/// key of a message.
pub const KEY_SEPARATOR: &'static str = ":";

/// The role under which replies of the service are recorded.
pub const ASSISTANT: &'static str = "assistant";

/// The key of a conversation record: the conversation identifier.
pub open spec fn conversation_key(conversation_id: Seq<char>) -> Seq<char> {
    conversation_id
}

/// The key of a message record: the conversation identifier, a colon and
/// the sequence number of the message in decimal.
pub open spec fn message_key(conversation_id: Seq<char>, sentance_id: nat) -> Seq<char> {
    conversation_id + KEY_SEPARATOR@ + decimal(sentance_id)
}

fn digit_char(d: u64) -> (c: char)
    requires
        d < 10,
    ensures
        c == digit(d as nat),
{
    if d == 0 {
        '0'
    } else if d == 1 {
        '1'
    } else if d == 2 {
        '2'
    } else if d == 3 {
        '3'
    } else if d == 4 {
        '4'
    } else if d == 5 {
        '5'
    } else if d == 6 {
        '6'
    } else if d == 7 {
        '7'
    } else if d == 8 {
        '8'
    } else {
        '9'
    }
}

/// Writes a number in decimal.
pub fn decimal_of(n: u64) -> (out: String)
    ensures
        out@ == decimal(n as nat),
{
    let mut reversed: Vec<char> = Vec::new();
    let mut rest: u64 = n;
    while rest >= 10
        invariant
            decimal(n as nat) == decimal(rest as nat) + reversed@.reverse(),
        decreases rest,
    {
        let ghost before = reversed@;
        reversed.push(digit_char(rest % 10));
        proof {
            assert(reversed@.reverse() =~= seq![digit((rest % 10) as nat)] + before.reverse());
            assert(decimal(rest as nat) == decimal((rest / 10) as nat).push(
                digit((rest % 10) as nat),
            ));
            assert(decimal((rest / 10) as nat).push(digit((rest % 10) as nat)) + before.reverse()
                =~= decimal((rest / 10) as nat) + reversed@.reverse());
        }
        rest = rest / 10;
    }
    let mut digits: Vec<char> = Vec::new();
    digits.push(digit_char(rest));
    let ghost tail = reversed@;
    while reversed.len() > 0
        invariant
            reversed@.len() <= tail.len(),
            reversed@ == tail.take(reversed@.len() as int),
            digits@ == seq![digit(rest as nat)] + tail.skip(reversed@.len() as int).reverse(),
        decreases reversed@.len(),
    {
        let ghost left = reversed@.len() as int;
        let c = reversed.pop().unwrap();
        digits.push(c);
        assert(digits@ =~= seq![digit(rest as nat)] + tail.skip(left - 1).reverse());
    }
    assert(tail.skip(0) =~= tail);
    string_of(&digits)
}

/// Writes the key of a message record.
pub fn message_key_of(conversation_id: &str, sentance_id: u64) -> (key: String)
    ensures
        key@ == message_key(conversation_id@, sentance_id as nat),
{
    let mut key = conversation_id.to_owned();
    key.append(KEY_SEPARATOR);
    let number = decimal_of(sentance_id);
    key.append(number.as_str());
    key
}

/// The keys under which a conversation and the given messages are written:
/// first the key of the conversation, then the key of each message, in
/// order.
pub open spec fn write_keys(conversation: Conversation, messages: Seq<Sentances>) -> Seq<Seq<char>> {
    seq![conversation_key(conversation.conversation_id@)] + Seq::new(
        messages.len(),
        |i: int| message_key(conversation.conversation_id@, messages[i].sentance_id as nat),
    )
}

/// Lists the keys under which `update_database` writes its records.
pub fn update_database(conversation: &Conversation, messages: &Vec<Sentances>) -> (keys: Vec<String>)
    ensures
        keys.deep_view() == write_keys(*conversation, messages@),
{
    let n: usize = messages.len();
    let mut keys: Vec<String> = Vec::new();
    keys.push(conversation.conversation_id.clone());
    let mut i: usize = 0;
    while i < n
        invariant
            n == messages@.len(),
            i <= n,
            keys@.len() == i + 1,
            keys@[0]@ == conversation.conversation_id@,
            forall|j: int|
                0 <= j < i ==> (#[trigger] keys@[j + 1])@ == message_key(
                    conversation.conversation_id@,
                    messages@[j].sentance_id as nat,
                ),
        decreases n - i,
    {
        keys.push(message_key_of(conversation.conversation_id.as_str(), messages[i].sentance_id));
        i = i + 1;
    }
    proof {
        let want = write_keys(*conversation, messages@);
        assert(keys.deep_view().len() == want.len());
        assert forall|k: int| 0 <= k < want.len() implies keys.deep_view()[k] == want[k] by {
            if k > 0 {
                assert(keys@[(k - 1) + 1]@ == want[k]);
            }
        }
        assert(keys.deep_view() =~= want);
    }
    keys
}

/// What reading a conversation asks of the store next.
#[derive(Debug, Clone, PartialEq, Eq)]
pub enum ReadAction {
    /// Look up this key and report what is found.
    Get(String),
    /// The conversation is read.
    Done,
}

/// A conversation being read: its messages are looked up by rising sequence
/// number, from 1, until a key is missing.
#[derive(Debug, Clone, PartialEq, Eq)]
pub struct ConversationReader {
    conversation_id: String,
    messages: Vec<Sentances>,
    done: bool,
}

/// The state of a reader, as the contracts speak of it.
pub struct ReaderState {
    pub conversation_id: Seq<char>,
    pub messages: Seq<Sentances>,
    pub done: bool,
}

impl View for ConversationReader {
    type V = ReaderState;

    closed spec fn view(&self) -> ReaderState {
        ReaderState {
            conversation_id: self.conversation_id@,
            messages: self.messages@,
            done: self.done,
        }
    }
}

/// The state of a reader after it is told what was found under the key it
/// last asked for: a record is one more message, a missing key ends the
/// reading, and so does the last sequence number there is.
pub open spec fn reader_after(state: ReaderState, found: Option<Sentances>) -> ReaderState {
    if state.done {
        state
    } else {
        match found {
            Some(record) => ReaderState {
                messages: state.messages.push(record),
                done: state.messages.len() + 1 >= u64::MAX,
                ..state
            },
            None => ReaderState { done: true, ..state },
        }
    }
}

/// Whether `action` is what a reader in `state` asks for: the key of the
/// message behind those read so far, or nothing more.
pub open spec fn reader_asks(state: ReaderState, action: ReadAction) -> bool {
    match action {
        ReadAction::Get(key) => !state.done && key@ == message_key(
            state.conversation_id,
            state.messages.len() + 1,
        ),
        ReadAction::Done => state.done,
    }
}

impl ConversationReader {
    fn ask(&self) -> (action: ReadAction)
        requires
            !self.done ==> self.messages@.len() < u64::MAX,
        ensures
            reader_asks(self@, action),
    {
        if self.done {
            ReadAction::Done
        } else {
            let next: u64 = self.messages.len() as u64 + 1;
            ReadAction::Get(message_key_of(self.conversation_id.as_str(), next))
        }
    }

    /// Whether this reader is in a state that `query_conversation` and
    /// `step` can lead to.
    pub closed spec fn wf(&self) -> bool {
        !self.done ==> self.messages@.len() < u64::MAX
    }

    /// Takes what was found under the key last asked for and decides what is
    /// to be looked up next.
    pub fn step(self, found: Option<Sentances>) -> (next: (ConversationReader, ReadAction))
        requires
            self.wf(),
        ensures
            next.0.wf(),
            next.0@ == reader_after(self@, found),
            reader_asks(next.0@, next.1),
    {
        let ConversationReader { conversation_id, messages, done } = self;
        let mut messages = messages;
        let mut done = done;
        if !done {
            match found {
                Some(record) => {
                    messages.push(record);
                    done = messages.len() as u64 >= u64::MAX;
                },
                None => {
                    done = true;
                },
            }
        }
        let reader = ConversationReader { conversation_id, messages, done };
        let action = reader.ask();
        (reader, action)
    }

    /// The messages read so far, in order.
    pub fn into_messages(self) -> (messages: Vec<Sentances>)
        ensures
            messages@ == self@.messages,
    {
        self.messages
    }
}

/// Begins to read the conversation: nothing is read yet, and the message
/// with sequence number 1 is asked for.
pub fn query_conversation(conversation_id: &str) -> (begun: (ConversationReader, ReadAction))
    ensures
        begun.0.wf(),
        begun.0@ == (ReaderState {
            conversation_id: conversation_id@,
            messages: Seq::empty(),
            done: false,
        }),
        reader_asks(begun.0@, begun.1),
{
    let reader = ConversationReader {
        conversation_id: conversation_id.to_owned(),
        messages: Vec::new(),
        done: false,
    };
    let action = reader.ask();
    (reader, action)
}

/// The chat request that continues a conversation: its messages so far, to
/// the chat model, and nothing else set.
pub fn continue_conversation(sentances: Vec<Sentances>) -> (request: ChatPayload)
    ensures
        request.model == Model::Gpt35Turbo,
        request.messages@ == sentances@.map_values(|s: Sentances| as_message(s)),
        request.n is None,
        request.stop is None,
        request.max_tokens is None,
        request.user is None,
{
    ChatPayload {
        model: Model::Gpt35Turbo,
        messages: convert_to_messages(sentances),
        n: None,
        stop: None,
        max_tokens: None,
        user: None,
    }
}

/// The record of the reply to a conversation of `count` messages: the
/// content of the first completion, under the next sequence number and the
/// role of the assistant. There is none where the response holds no
/// completion or the sequence numbers are used up.
pub fn reply_sentance(
    conversation_id: &str,
    count: u64,
    response: &ChatResponse,
    timestamp: String,
) -> (reply: Option<Sentances>)
    ensures
        reply is Some <==> response.choices@.len() > 0 && count < u64::MAX,
        reply matches Some(record) ==> {
            &&& record.sentance_id == count + 1
            &&& record.conversation_id@ == conversation_id@
            &&& record.sender@ == ASSISTANT@
            &&& record.content@ == response.choices@[0].message.content@
            &&& record.timestamp == timestamp
        },
{
    if response.choices.len() == 0 || count == u64::MAX {
        None
    } else {
        Some(
            Sentances {
                sentance_id: count + 1,
                conversation_id: conversation_id.to_owned(),
                sender: String::from_str(ASSISTANT),
                content: response.choices[0].message.content.clone(),
                timestamp,
            },
        )
    }
}

} // verus!
