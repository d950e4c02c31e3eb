//! Messages of AI conversations.
use vstd::prelude::*;
use crate::clock::utc_now_rfc3339;
use crate::json::JsonValue;
use crate::storage::query::{select_all_where_eq, select_all_where_sql};
use crate::storage::query::{
    column, differs_from_all, distinct_names, field_names, insert_row, insert_sql,
    int_or_null, int_value, lemma_distinct_names, simple_select, simple_select_params,
    simple_select_sql, text_is, text_or_null, text_value, QueryOrder,
};
use crate::text::{chars_of, int_text, owned, push_int, string_of};

verus! {

/// One message of a conversation, as stored.
#[derive(Debug, Clone)]
pub struct Message {
    pub id: Option<i64>,
    pub conversation_id: i64,
    pub role: String,
    pub content: String,
    /// the agent's steps, as JSON text
    pub steps_json: Option<String>,
    pub status: Option<String>,
    pub duration_ms: Option<i64>,
    /// RFC 3339 time of creation
    pub created_at: String,
}

impl Message {
    /// A new, unsaved message created now.
    pub fn new(conversation_id: i64, role: String, content: String) -> (r: Self)
        ensures
            r.id is None,
            r.conversation_id == conversation_id,
            r.role == role,
            r.content == content,
            r.steps_json is None,
            r.status is None,
            r.duration_ms is None,
    {
        Message {
            id: None,
            conversation_id,
            role,
            content,
            steps_json: None,
            status: None,
            duration_ms: None,
            created_at: utc_now_rfc3339(),
        }
    }
}

/// A conversation with the AI.
#[derive(Debug, Clone)]
pub struct Conversation {
    pub id: Option<i64>,
    pub title: String,
    pub message_count: i64,
    /// RFC 3339, UTC
    pub created_at: String,
    /// RFC 3339, UTC
    pub updated_at: String,
}

impl Conversation {
    /// A new, unsaved conversation without messages, created now.
    pub fn new(title: String) -> (r: Self)
        ensures
            r.id is None,
            r.title == title,
            r.message_count == 0,
            r.created_at == r.updated_at,
    {
        let now = utc_now_rfc3339();
        Conversation { id: None, title, message_count: 0, created_at: now.clone(), updated_at: now }
    }
}

/// The columns written for a message.
pub open spec fn message_columns() -> Seq<Seq<char>> {
    seq![
        "conversation_id"@,
        "role"@,
        "content"@,
        "steps_json"@,
        "status"@,
        "duration_ms"@,
        "created_at"@,
    ]
}

/// The columns written for a conversation.
pub open spec fn conversation_columns() -> Seq<Seq<char>> {
    seq![
        "title"@,
        "message_count"@,
        "created_at"@,
        "updated_at"@,
    ]
}

/// The fields read back for a conversation.
pub open spec fn conversation_fields() -> Seq<Seq<char>> {
    seq![
        "id"@,
        "title"@,
        "message_count"@,
        "created_at"@,
        "updated_at"@,
    ]
}

/// The fields read back for a message.
pub open spec fn message_fields() -> Seq<Seq<char>> {
    seq![
        "id"@,
        "conversation_id"@,
        "role"@,
        "content"@,
        "steps_json"@,
        "status"@,
        "duration_ms"@,
        "created_at"@,
    ]
}

/// The columns of a message's row are named once each.
proof fn lemma_message_columns_distinct()
    ensures
        distinct_names(message_columns()),
{
    reveal_strlit("content");
    reveal_strlit("conversation_id");
    reveal_strlit("created_at");
    reveal_strlit("duration_ms");
    reveal_strlit("role");
    reveal_strlit("status");
    reveal_strlit("steps_json");
    assert("content"@.len() == 7);
    assert("conversation_id"@.len() == 15);
    assert("created_at"@.len() == 10);
    assert("duration_ms"@.len() == 11);
    assert("role"@.len() == 4);
    assert("status"@.len() == 6);
    assert("steps_json"@.len() == 10);
    assert("steps_json"@[0] != "created_at"@[0]);
    let n = message_columns();
    assert(n[0] == "conversation_id"@);
    assert(n[1] == "role"@);
    assert(n[2] == "content"@);
    assert(n[3] == "steps_json"@);
    assert(n[4] == "status"@);
    assert(n[5] == "duration_ms"@);
    assert(n[6] == "created_at"@);
    reveal_with_fuel(distinct_names, 8);
    reveal_with_fuel(differs_from_all, 7);
}

/// The columns of a conversation's row are named once each.
proof fn lemma_conversation_columns_distinct()
    ensures
        distinct_names(conversation_columns()),
{
    reveal_strlit("created_at");
    reveal_strlit("message_count");
    reveal_strlit("title");
    reveal_strlit("updated_at");
    assert("created_at"@.len() == 10);
    assert("message_count"@.len() == 13);
    assert("title"@.len() == 5);
    assert("updated_at"@.len() == 10);
    assert("created_at"@[0] != "updated_at"@[0]);
    let n = conversation_columns();
    assert(n[0] == "title"@);
    assert(n[1] == "message_count"@);
    assert(n[2] == "created_at"@);
    assert(n[3] == "updated_at"@);
    reveal_with_fuel(distinct_names, 5);
    reveal_with_fuel(differs_from_all, 4);
}

/// The statements and decisions of the conversation store; running the
/// statements is the caller's part.
pub struct ConversationRepository;

impl ConversationRepository {
    /// The query of the conversations, most recently updated first, at most
    /// `limit` of them after skipping `offset`, each when given.
    pub fn find_conversations_statement(limit: Option<i64>, offset: Option<i64>) -> (r: (String, Vec<JsonValue>))
        ensures
            r.0@ == simple_select_sql(
                "ai_conversations"@,
                conversation_fields(),
                None,
                "updated_at"@ + " DESC"@,
                limit is Some,
                offset is Some,
            ),
            r.1@ == simple_select_params(None, limit, offset),
    {
        let fields: [&str; 5] = ["id", "title", "message_count", "created_at", "updated_at"];
        let order = QueryOrder::Desc(owned("updated_at"));
        let r = simple_select("ai_conversations", &fields, None, order, limit, offset);
        assert(fields@.map_values(|f: &str| f@) =~= conversation_fields());
        r
    }

    /// The query of a conversation's messages, oldest first, at most
    /// `limit` of them after skipping `offset`, each when given.
    pub fn get_messages_statement(conversation_id: i64, limit: Option<i64>, offset: Option<i64>) -> (r: (
        String,
        Vec<JsonValue>,
    ))
        ensures
            r.0@ == simple_select_sql(
                "ai_messages"@,
                message_fields(),
                Some("conversation_id"@),
                "created_at"@ + " ASC"@,
                limit is Some,
                offset is Some,
            ),
            r.1@ == simple_select_params(Some(JsonValue::Number(conversation_id)), limit, offset),
    {
        let fields: [&str; 8] = [
            "id",
            "conversation_id",
            "role",
            "content",
            "steps_json",
            "status",
            "duration_ms",
            "created_at",
        ];
        let order = QueryOrder::Asc(owned("created_at"));
        let r = simple_select(
            "ai_messages",
            &fields,
            Some(("conversation_id", JsonValue::Number(conversation_id))),
            order,
            limit,
            offset,
        );
        assert(fields@.map_values(|f: &str| f@) =~= message_fields());
        r
    }

    /// The INSERT of a message's row into `ai_messages`, with its values in
    /// column order (see `message_columns`).
    pub fn save_message_statement(message: &Message) -> (r: (String, Vec<JsonValue>))
        ensures
            r.0@ == insert_sql("ai_messages"@, message_columns()),
            r.1@.len() == 7,
            r.1@[0] == JsonValue::Number(message.conversation_id),
            r.1@[1] == JsonValue::String(message.role),
            r.1@[2] == JsonValue::String(message.content),
            r.1@[3] == text_or_null(message.steps_json),
            r.1@[4] == text_or_null(message.status),
            r.1@[5] == int_or_null(message.duration_ms),
            r.1@[6] == JsonValue::String(message.created_at),
    {
        let mut cols: Vec<(String, JsonValue)> = Vec::new();
        cols.push(column("conversation_id", JsonValue::Number(message.conversation_id)));
        cols.push(column("role", JsonValue::String(message.role.clone())));
        cols.push(column("content", JsonValue::String(message.content.clone())));
        cols.push(column("steps_json", text_value(&message.steps_json)));
        cols.push(column("status", text_value(&message.status)));
        cols.push(column("duration_ms", int_value(message.duration_ms)));
        cols.push(column("created_at", JsonValue::String(message.created_at.clone())));
        proof {
            assert(field_names(cols@) =~= message_columns());
            lemma_message_columns_distinct();
            lemma_distinct_names(cols@);
        }
        insert_row("ai_messages", cols)
    }

    /// The INSERT of a conversation's row into `ai_conversations`, with its
    /// values in column order (see `conversation_columns`).
    pub fn save_statement(conversation: &Conversation) -> (r: (String, Vec<JsonValue>))
        ensures
            r.0@ == insert_sql("ai_conversations"@, conversation_columns()),
            r.1@ == seq![
                JsonValue::String(conversation.title),
                JsonValue::Number(conversation.message_count),
                JsonValue::String(conversation.created_at),
                JsonValue::String(conversation.updated_at),
            ],
    {
        let mut cols: Vec<(String, JsonValue)> = Vec::new();
        cols.push(column("title", JsonValue::String(conversation.title.clone())));
        cols.push(column("message_count", JsonValue::Number(conversation.message_count)));
        cols.push(column("created_at", JsonValue::String(conversation.created_at.clone())));
        cols.push(column("updated_at", JsonValue::String(conversation.updated_at.clone())));
        proof {
            assert(field_names(cols@) =~= conversation_columns());
            lemma_conversation_columns_distinct();
            lemma_distinct_names(cols@);
        }
        let r = insert_row("ai_conversations", cols);
        assert(r.1@ =~= seq![
            JsonValue::String(conversation.title),
            JsonValue::Number(conversation.message_count),
            JsonValue::String(conversation.created_at),
            JsonValue::String(conversation.updated_at),
        ]);
        r
    }

    /// A conversation can only be updated once it has an id: its id, or
    /// the refusal.
    pub fn update_target(conversation: &Conversation) -> (r: Result<i64, String>)
        ensures
            match conversation.id {
                Some(id) => r == Ok::<i64, String>(id),
                None => r matches Err(m) && m@ == "无法更新没有ID的会话"@,
            },
    {
        match conversation.id {
            Some(id) => Ok(id),
            None => Err(owned("无法更新没有ID的会话")),
        }
    }

    /// The outcome of deleting conversation `id`, from the number of rows
    /// the DELETE removed: refused when it removed none.
    pub fn delete_outcome(id: i64, rows_affected: u64) -> (r: Result<(), String>)
        ensures
            rows_affected > 0 ==> r is Ok,
            rows_affected == 0 ==> (r matches Err(m) && m@ == "会话不存在: "@ + int_text(id as int)),
    {
        if rows_affected == 0 {
            let mut m = chars_of("会话不存在: ");
            push_int(&mut m, id);
            return Err(string_of(&m));
        }
        Ok(())
    }
}


// The remaining statements of the conversation store.

/// The SQL of `update_title_statement`.
pub open spec fn conversation_title_sql() -> Seq<char> {
    "UPDATE ai_conversations SET title = ?, updated_at = CURRENT_TIMESTAMP WHERE id = ?"@
}

/// The SQL of `delete_messages_after_statement`.
pub open spec fn messages_after_delete_sql() -> Seq<char> {
    "DELETE FROM ai_messages WHERE conversation_id = ? AND id > ?"@
}

/// The SQL of `update_message_content_statement`.
pub open spec fn message_content_sql() -> Seq<char> {
    "UPDATE ai_messages SET content = ? WHERE id = ?"@
}

/// The SQL of `update_message_steps_statement`.
pub open spec fn message_steps_sql() -> Seq<char> {
    "UPDATE ai_messages SET steps_json = ? WHERE id = ?"@
}

/// The SQL of `update_message_status_statement`.
pub open spec fn message_status_sql() -> Seq<char> {
    "UPDATE ai_messages SET status = ?, duration_ms = ? WHERE id = ?"@
}

/// The SQL of `delete_statement`.
pub open spec fn conversation_delete_sql() -> Seq<char> {
    "DELETE FROM ai_conversations WHERE id = ?"@
}

/// The SQL of `rewrite_statement`.
pub open spec fn conversation_update_sql() -> Seq<char> {
    "UPDATE ai_conversations SET title = ?, message_count = ?, updated_at = ? WHERE id = ?"@
}

impl ConversationRepository {
    /// Renaming conversation `conversation_id` (updated now).
    pub fn update_title_statement(conversation_id: i64, title: &str) -> (r: (String, Vec<JsonValue>))
        ensures
            r.0@ == conversation_title_sql(),
            r.1@.len() == 2,
            text_is(r.1@[0], title@),
            r.1@[1] == JsonValue::Number(conversation_id),
    {
        let mut params: Vec<JsonValue> = Vec::new();
        params.push(JsonValue::String(owned(title)));
        params.push(JsonValue::Number(conversation_id));
        (owned("UPDATE ai_conversations SET title = ?, updated_at = CURRENT_TIMESTAMP WHERE id = ?"), params)
    }

    /// The statement that drops the messages of a conversation after message `after_message_id`.
    pub fn delete_messages_after_statement(conversation_id: i64, after_message_id: i64) -> (r: (String, Vec<JsonValue>))
        ensures
            r.0@ == messages_after_delete_sql(),
            r.1@.len() == 2,
            r.1@[0] == JsonValue::Number(conversation_id),
            r.1@[1] == JsonValue::Number(after_message_id),
    {
        let mut params: Vec<JsonValue> = Vec::new();
        params.push(JsonValue::Number(conversation_id));
        params.push(JsonValue::Number(after_message_id));
        (owned("DELETE FROM ai_messages WHERE conversation_id = ? AND id > ?"), params)
    }

    /// Rewriting the content of message `message_id`.
    pub fn update_message_content_statement(message_id: i64, content: &str) -> (r: (String, Vec<JsonValue>))
        ensures
            r.0@ == message_content_sql(),
            r.1@.len() == 2,
            text_is(r.1@[0], content@),
            r.1@[1] == JsonValue::Number(message_id),
    {
        let mut params: Vec<JsonValue> = Vec::new();
        params.push(JsonValue::String(owned(content)));
        params.push(JsonValue::Number(message_id));
        (owned("UPDATE ai_messages SET content = ? WHERE id = ?"), params)
    }

    /// Rewriting the steps (JSON text) of message `message_id`.
    pub fn update_message_steps_statement(message_id: i64, steps_json: &str) -> (r: (String, Vec<JsonValue>))
        ensures
            r.0@ == message_steps_sql(),
            r.1@.len() == 2,
            text_is(r.1@[0], steps_json@),
            r.1@[1] == JsonValue::Number(message_id),
    {
        let mut params: Vec<JsonValue> = Vec::new();
        params.push(JsonValue::String(owned(steps_json)));
        params.push(JsonValue::Number(message_id));
        (owned("UPDATE ai_messages SET steps_json = ? WHERE id = ?"), params)
    }

    /// Setting the state and duration of message `message_id` (each null when not given).
    pub fn update_message_status_statement(message_id: i64, status: Option<&str>, duration_ms: Option<i64>) -> (r: (String, Vec<JsonValue>))
        ensures
            r.0@ == message_status_sql(),
            r.1@.len() == 3,
            (match status { Some(s) => text_is(r.1@[0], s@), None => r.1@[0] == JsonValue::Null }),
            r.1@[1] == int_or_null(duration_ms),
            r.1@[2] == JsonValue::Number(message_id),
    {
        let mut params: Vec<JsonValue> = Vec::new();
        params.push(match status { Some(s) => JsonValue::String(owned(s)), None => JsonValue::Null });
        params.push(int_value(duration_ms));
        params.push(JsonValue::Number(message_id));
        (owned("UPDATE ai_messages SET status = ?, duration_ms = ? WHERE id = ?"), params)
    }

    /// The statement that drops conversation `id`.
    pub fn delete_statement(id: i64) -> (r: (String, Vec<JsonValue>))
        ensures
            r.0@ == conversation_delete_sql(),
            r.1@.len() == 1,
            r.1@[0] == JsonValue::Number(id),
    {
        let mut params: Vec<JsonValue> = Vec::new();
        params.push(JsonValue::Number(id));
        (owned("DELETE FROM ai_conversations WHERE id = ?"), params)
    }

    /// Writing back a conversation's title, message count and update time under row id `id`.
    pub fn rewrite_statement(id: i64, conversation: &Conversation) -> (r: (String, Vec<JsonValue>))
        ensures
            r.0@ == conversation_update_sql(),
            r.1@.len() == 4,
            r.1@[0] == JsonValue::String(conversation.title),
            r.1@[1] == JsonValue::Number(conversation.message_count),
            r.1@[2] == JsonValue::String(conversation.updated_at),
            r.1@[3] == JsonValue::Number(id),
    {
        let mut params: Vec<JsonValue> = Vec::new();
        params.push(JsonValue::String(conversation.title.clone()));
        params.push(JsonValue::Number(conversation.message_count));
        params.push(JsonValue::String(conversation.updated_at.clone()));
        params.push(JsonValue::Number(id));
        (owned("UPDATE ai_conversations SET title = ?, message_count = ?, updated_at = ? WHERE id = ?"), params)
    }

    /// The query of conversation `id`.
    pub fn find_by_id_statement(id: i64) -> (r: (String, Vec<JsonValue>))
        ensures
            r.0@ == select_all_where_sql("ai_conversations"@, "id"@),
            r.1@ == seq![JsonValue::Number(id)],
    {
        select_all_where_eq("ai_conversations", "id", JsonValue::Number(id))
    }

    /// Writing back a conversation, which must have a row id (see
    /// `update_target` and `rewrite_statement`).
    pub fn update_statement(conversation: &Conversation) -> (r: Result<(String, Vec<JsonValue>), String>)
        ensures
            match conversation.id {
                Some(id) => r matches Ok(st) && st.0@ == conversation_update_sql() && st.1@ == seq![
                    JsonValue::String(conversation.title),
                    JsonValue::Number(conversation.message_count),
                    JsonValue::String(conversation.updated_at),
                    JsonValue::Number(id),
                ],
                None => r matches Err(m) && m@ == "无法更新没有ID的会话"@,
            },
    {
        match Self::update_target(conversation) {
            Ok(id) => {
                let st = Self::rewrite_statement(id, conversation);
                assert(st.1@ =~= seq![
                    JsonValue::String(conversation.title),
                    JsonValue::Number(conversation.message_count),
                    JsonValue::String(conversation.updated_at),
                    JsonValue::Number(id),
                ]);
                Ok(st)
            },
            Err(m) => Err(m),
        }
    }
}

} // verus!
