use std::collections::BTreeMap;

use ai_toolbox::db::{
    continue_conversation, convert_to_messages, decimal_of, message_key_of, query_conversation,
    reply_sentance, update_database, Conversation, ReadAction, Sentances,
};
use ai_toolbox::openai::datamap::{ChatResponse, Choice, Message, Model, Usage};

/// A store in memory: the records of conversations and messages by key.
struct Store {
    conversations: BTreeMap<String, Conversation>,
    messages: BTreeMap<String, Sentances>,
}

impl Store {
    fn new() -> Store {
        Store { conversations: BTreeMap::new(), messages: BTreeMap::new() }
    }

    fn update(&mut self, conversation: &Conversation, messages: &[&Sentances]) {
        let owned: Vec<Sentances> = messages.iter().map(|m| (*m).clone()).collect();
        let keys = update_database(conversation, &owned);
        assert_eq!(keys.len(), owned.len() + 1);
        self.conversations.insert(keys[0].clone(), conversation.clone());
        for (key, message) in keys[1..].iter().zip(owned) {
            self.messages.insert(key.clone(), message);
        }
    }

    fn query(&self, conversation_id: &str) -> Vec<Sentances> {
        let (mut reader, mut action) = query_conversation(conversation_id);
        loop {
            match action {
                ReadAction::Get(key) => {
                    let (next, asked) = reader.step(self.messages.get(&key).cloned());
                    reader = next;
                    action = asked;
                }
                ReadAction::Done => return reader.into_messages(),
            }
        }
    }
}

fn sentance(id: u64, conversation_id: &str, sender: &str, content: &str, timestamp: &str) -> Sentances {
    Sentances {
        sentance_id: id,
        conversation_id: conversation_id.to_string(),
        sender: sender.to_string(),
        content: content.to_string(),
        timestamp: timestamp.to_string(),
    }
}

fn filled_store() -> Store {
    let mut db = Store::new();
    let conversation_id = "1".to_string();
    let conversation = Conversation {
        conversation_id: conversation_id.clone(),
        created_at: "2023-03-15T10:00:00Z".to_string(),
        updated_at: "2023-03-15T10:00:00Z".to_string(),
        user_id: "12345".to_string(),
    };
    let user_message =
        sentance(1, &conversation_id, "user", "你好，GPT-3！", "2023-03-15T10:00:30Z");
    let gpt3_response = "你好！请问有什么问题我可以帮您解答？".to_string();
    let gpt3_message =
        sentance(2, &conversation_id, "GPT-3", &gpt3_response, "2023-03-15T10:01:00Z");
    db.update(&conversation, &[&user_message, &gpt3_message]);
    db
}

#[test]
fn test() {
    let db = filled_store();
    let conversation_id = "1".to_string();
    let messages = db.query(&conversation_id);
    println!("对话内容：");
    for message in &messages {
        println!("[{}][{}]: {}", message.timestamp, message.sender, message.content);
    }
    assert_eq!(messages.len(), 2);
    assert_eq!(messages[0].content, "你好，GPT-3！");
    assert_eq!(messages[1].sender, "GPT-3");
    assert_eq!(db.conversations["1"].user_id, "12345");
}

#[test]
fn test2() {
    let db = filled_store();
    let messages = db.query("1");
    println!("对话内容：");
    for message in &messages {
        println!("[{}][{}]: {}", message.timestamp, message.sender, message.content);
    }
    assert_eq!(messages.len(), 2);
    assert!(db.query("2").is_empty());
}

#[test]
fn test_is_in_db() {
    let db = filled_store();
    let messages = db.query("1");
    let gpt_messages = convert_to_messages(messages);
    println!("{:?}", gpt_messages);
    assert_eq!(
        gpt_messages,
        vec![
            Message { role: "user".to_string(), content: "你好，GPT-3！".to_string() },
            Message {
                role: "GPT-3".to_string(),
                content: "你好！请问有什么问题我可以帮您解答？".to_string(),
            },
        ]
    );
}

#[test]
fn messages_keep_sender_and_content_in_order() {
    assert_eq!(convert_to_messages(Vec::new()), Vec::<Message>::new());
    let converted = convert_to_messages(vec![
        sentance(1, "c", "user", "hello", "t1"),
        sentance(2, "c", "assistant", "hi", "t2"),
        sentance(3, "c", "user", "", "t3"),
    ]);
    assert_eq!(
        converted,
        vec![
            Message { role: "user".to_string(), content: "hello".to_string() },
            Message { role: "assistant".to_string(), content: "hi".to_string() },
            Message { role: "user".to_string(), content: String::new() },
        ]
    );
}

#[test]
fn numbers_are_written_in_decimal() {
    for n in [0u64, 1, 9, 10, 11, 99, 100, 101, 12345, 1_000_000, u64::MAX - 1, u64::MAX] {
        assert_eq!(decimal_of(n), n.to_string());
    }
}

#[test]
fn message_keys() {
    assert_eq!(message_key_of("1", 1), "1:1");
    assert_eq!(message_key_of("conv-7", 120), "conv-7:120");
    assert_eq!(message_key_of("", 0), ":0");
    let conversation = Conversation {
        conversation_id: "c9".to_string(),
        created_at: String::new(),
        updated_at: String::new(),
        user_id: String::new(),
    };
    let keys = update_database(
        &conversation,
        &vec![sentance(4, "c9", "user", "x", ""), sentance(2, "c9", "user", "y", "")],
    );
    assert_eq!(keys, vec!["c9", "c9:4", "c9:2"]);
}

#[test]
fn reading_stops_at_the_first_missing_key() {
    let mut db = Store::new();
    let conversation = Conversation {
        conversation_id: "gap".to_string(),
        created_at: String::new(),
        updated_at: String::new(),
        user_id: String::new(),
    };
    let one = sentance(1, "gap", "user", "one", "");
    let two = sentance(2, "gap", "user", "two", "");
    let four = sentance(4, "gap", "user", "four", "");
    db.update(&conversation, &[&one, &two, &four]);
    let read = db.query("gap");
    assert_eq!(read, vec![one, two]);
    let (reader, action) = query_conversation("gap");
    assert_eq!(action, ReadAction::Get("gap:1".to_string()));
    let (reader, action) = reader.step(None);
    assert_eq!(action, ReadAction::Done);
    let (reader, action) = reader.step(Some(four));
    assert_eq!(action, ReadAction::Done);
    assert!(reader.into_messages().is_empty());
}

#[test]
fn conversation_is_continued_with_all_its_messages() {
    let request = continue_conversation(vec![
        sentance(1, "c", "user", "Tell me a joke.", "t1"),
        sentance(2, "c", "assistant", "Why?", "t2"),
    ]);
    assert_eq!(request.model, Model::Gpt35Turbo);
    assert_eq!(
        request.messages,
        vec![
            Message { role: "user".to_string(), content: "Tell me a joke.".to_string() },
            Message { role: "assistant".to_string(), content: "Why?".to_string() },
        ]
    );
    assert_eq!((request.n, request.max_tokens), (None, None));
}

#[test]
fn reply_is_recorded_under_the_next_number() {
    let response = ChatResponse {
        id: "r".to_string(),
        object: "chat.completion".to_string(),
        created: 0,
        choices: vec![
            Choice {
                index: 0,
                message: Message { role: "assistant".to_string(), content: "first".to_string() },
                finish_reason: "stop".to_string(),
            },
            Choice {
                index: 1,
                message: Message { role: "assistant".to_string(), content: "second".to_string() },
                finish_reason: "stop".to_string(),
            },
        ],
        usage: Usage { prompt_tokens: 1, completion_tokens: 0, total_tokens: 1 },
    };
    assert_eq!(
        reply_sentance("1", 2, &response, "2023-03-15T10:01:30Z".to_string()),
        Some(sentance(3, "1", "assistant", "first", "2023-03-15T10:01:30Z"))
    );
    assert_eq!(reply_sentance("1", u64::MAX, &response, String::new()), None);
    let empty = ChatResponse { choices: Vec::new(), ..response };
    assert_eq!(reply_sentance("1", 2, &empty, String::new()), None);
}
