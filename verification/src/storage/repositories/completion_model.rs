//! The offline model that learns which commands follow which: command keys,
//! the steps between them and the entities seen, with the statements that
//! count uses and keep the tables small.
use vstd::prelude::*;
use crate::json::JsonValue;
use crate::storage::query::text_is;
use crate::text::owned;

verus! {

/// What a use adds to the success and failure counts: one to the one that
/// is known, nothing when neither is.
pub open spec fn usage_increments(success: Option<bool>) -> (i64, i64) {
    match success {
        Some(true) => (1, 0),
        Some(false) => (0, 1),
        None => (0, 0),
    }
}

/// The SQL of `upsert_command_key_statement`.
pub open spec fn command_key_upsert_sql() -> Seq<char> {
    r#"
            INSERT INTO completion_command_keys
                (key, root, sub, use_count, success_count, fail_count, last_used_ts)
            VALUES
                (?, ?, ?, 1, ?, ?, ?)
            ON CONFLICT(key) DO UPDATE SET
                use_count = use_count + 1,
                success_count = success_count + excluded.success_count,
                fail_count = fail_count + excluded.fail_count,
                last_used_ts = CASE
                    WHEN excluded.last_used_ts > last_used_ts THEN excluded.last_used_ts
                    ELSE last_used_ts
                END
            RETURNING id
            "#@
}

/// The SQL of `upsert_transition_statement`.
pub open spec fn transition_upsert_sql() -> Seq<char> {
    r#"
            INSERT INTO completion_transitions
                (prev_id, next_id, count, success_count, fail_count, last_used_ts)
            VALUES
                (?, ?, 1, ?, ?, ?)
            ON CONFLICT(prev_id, next_id) DO UPDATE SET
                count = count + 1,
                success_count = success_count + excluded.success_count,
                fail_count = fail_count + excluded.fail_count,
                last_used_ts = CASE
                    WHEN excluded.last_used_ts > last_used_ts THEN excluded.last_used_ts
                    ELSE last_used_ts
                END
            "#@
}

/// The SQL of `upsert_entity_statement`.
pub open spec fn entity_upsert_sql() -> Seq<char> {
    r#"
            INSERT INTO completion_entity_stats
                (entity_type, value, use_count, last_used_ts)
            VALUES
                (?, ?, 1, ?)
            ON CONFLICT(entity_type, value) DO UPDATE SET
                use_count = use_count + 1,
                last_used_ts = CASE
                    WHEN excluded.last_used_ts > last_used_ts THEN excluded.last_used_ts
                    ELSE last_used_ts
                END
            "#@
}

/// The SQL of `top_next_keys_statement`.
pub open spec fn top_next_keys_sql() -> Seq<char> {
    r#"
            SELECT k.key, t.count, t.success_count, t.last_used_ts
            FROM completion_transitions t
            JOIN completion_command_keys k ON k.id = t.next_id
            WHERE t.prev_id = ?
            ORDER BY t.count DESC, t.last_used_ts DESC
            LIMIT ?
            "#@
}

/// The SQL of `find_key_id_statement`.
pub open spec fn find_key_id_sql() -> Seq<char> {
    "SELECT id FROM completion_command_keys WHERE key = ? LIMIT 1"@
}

/// The SQL of `top_commands_by_frecency_statement`.
pub open spec fn top_commands_sql() -> Seq<char> {
    r#"
            SELECT key, use_count, success_count, last_used_ts
            FROM completion_command_keys
            WHERE key LIKE (? || '%')
            ORDER BY last_used_ts DESC, use_count DESC
            LIMIT ?
            "#@
}

/// The SQL of `prune_transitions_statement`.
pub open spec fn prune_transitions_sql() -> Seq<char> {
    "DELETE FROM completion_transitions WHERE last_used_ts < ?"@
}

/// The SQL of `prune_entities_statement`.
pub open spec fn prune_entities_sql() -> Seq<char> {
    "DELETE FROM completion_entity_stats WHERE last_used_ts < ?"@
}

/// The SQL of `prune_keys_statement`.
pub open spec fn prune_keys_sql() -> Seq<char> {
    r#"
            DELETE FROM completion_command_keys
            WHERE last_used_ts < ?
              AND id NOT IN (SELECT prev_id FROM completion_transitions)
              AND id NOT IN (SELECT next_id FROM completion_transitions)
            "#@
}

/// The SQL of `enforce_transition_top_k_per_prev_statement`.
pub open spec fn transition_top_k_sql() -> Seq<char> {
    r#"
            DELETE FROM completion_transitions
            WHERE prev_id = ?
              AND (prev_id, next_id) NOT IN (
                SELECT prev_id, next_id
                FROM completion_transitions
                WHERE prev_id = ?
                ORDER BY count DESC, last_used_ts DESC
                LIMIT ?
              )
            "#@
}

/// The SQL of `enforce_command_key_limit_statement`.
pub open spec fn command_key_limit_sql() -> Seq<char> {
    r#"
            DELETE FROM completion_command_keys
            WHERE id IN (
                SELECT id
                FROM completion_command_keys
                WHERE id NOT IN (SELECT prev_id FROM completion_transitions)
                  AND id NOT IN (SELECT next_id FROM completion_transitions)
                ORDER BY last_used_ts ASC
                LIMIT (
                    SELECT CASE
                        WHEN COUNT(*) > ? THEN COUNT(*) - ?
                        ELSE 0
                    END
                    FROM completion_command_keys
                )
            )
            "#@
}

/// The statements of the completion model; running them is the caller's
/// part.
pub struct CompletionModelRepo;

impl CompletionModelRepo {
    /// The success and failure counts a use adds.
    pub fn increments(success: Option<bool>) -> (r: (i64, i64))
        ensures
            r == usage_increments(success),
    {
        match success {
            Some(true) => (1, 0),
            Some(false) => (0, 1),
            None => (0, 0),
        }
    }

    /// Counting a use of command key `key` at `used_ts` (its success or failure when known); the statement returns the key's row id.
    pub fn upsert_command_key_statement(key: &str, root: &str, sub: Option<&str>, used_ts: u64, success: Option<bool>) -> (r: (String, Vec<JsonValue>))
        ensures
            r.0@ == command_key_upsert_sql(),
            r.1@.len() == 6,
            text_is(r.1@[0], key@),
            text_is(r.1@[1], root@),
            (match sub { Some(s) => text_is(r.1@[2], s@), None => r.1@[2] == JsonValue::Null }),
            r.1@[3] == JsonValue::Number(usage_increments(success).0),
            r.1@[4] == JsonValue::Number(usage_increments(success).1),
            r.1@[5] == JsonValue::Number(used_ts as i64),
    {
        let inc = Self::increments(success);
        let mut params: Vec<JsonValue> = Vec::new();
        params.push(JsonValue::String(owned(key)));
        params.push(JsonValue::String(owned(root)));
        params.push(match sub { Some(s) => JsonValue::String(owned(s)), None => JsonValue::Null });
        params.push(JsonValue::Number(inc.0));
        params.push(JsonValue::Number(inc.1));
        params.push(JsonValue::Number(used_ts as i64));
        (owned(r#"
            INSERT INTO completion_command_keys
                (key, root, sub, use_count, success_count, fail_count, last_used_ts)
            VALUES
                (?, ?, ?, 1, ?, ?, ?)
            ON CONFLICT(key) DO UPDATE SET
                use_count = use_count + 1,
                success_count = success_count + excluded.success_count,
                fail_count = fail_count + excluded.fail_count,
                last_used_ts = CASE
                    WHEN excluded.last_used_ts > last_used_ts THEN excluded.last_used_ts
                    ELSE last_used_ts
                END
            RETURNING id
            "#), params)
    }

    /// Counting a step from key `prev_id` to key `next_id` at `used_ts` (its success or failure when known).
    pub fn upsert_transition_statement(prev_id: i64, next_id: i64, used_ts: u64, success: Option<bool>) -> (r: (String, Vec<JsonValue>))
        ensures
            r.0@ == transition_upsert_sql(),
            r.1@.len() == 5,
            r.1@[0] == JsonValue::Number(prev_id),
            r.1@[1] == JsonValue::Number(next_id),
            r.1@[2] == JsonValue::Number(usage_increments(success).0),
            r.1@[3] == JsonValue::Number(usage_increments(success).1),
            r.1@[4] == JsonValue::Number(used_ts as i64),
    {
        let inc = Self::increments(success);
        let mut params: Vec<JsonValue> = Vec::new();
        params.push(JsonValue::Number(prev_id));
        params.push(JsonValue::Number(next_id));
        params.push(JsonValue::Number(inc.0));
        params.push(JsonValue::Number(inc.1));
        params.push(JsonValue::Number(used_ts as i64));
        (owned(r#"
            INSERT INTO completion_transitions
                (prev_id, next_id, count, success_count, fail_count, last_used_ts)
            VALUES
                (?, ?, 1, ?, ?, ?)
            ON CONFLICT(prev_id, next_id) DO UPDATE SET
                count = count + 1,
                success_count = success_count + excluded.success_count,
                fail_count = fail_count + excluded.fail_count,
                last_used_ts = CASE
                    WHEN excluded.last_used_ts > last_used_ts THEN excluded.last_used_ts
                    ELSE last_used_ts
                END
            "#), params)
    }

    /// Counting a use of an entity at `used_ts`.
    pub fn upsert_entity_statement(entity_type: &str, value: &str, used_ts: u64) -> (r: (String, Vec<JsonValue>))
        ensures
            r.0@ == entity_upsert_sql(),
            r.1@.len() == 3,
            text_is(r.1@[0], entity_type@),
            text_is(r.1@[1], value@),
            r.1@[2] == JsonValue::Number(used_ts as i64),
    {
        let mut params: Vec<JsonValue> = Vec::new();
        params.push(JsonValue::String(owned(entity_type)));
        params.push(JsonValue::String(owned(value)));
        params.push(JsonValue::Number(used_ts as i64));
        (owned(r#"
            INSERT INTO completion_entity_stats
                (entity_type, value, use_count, last_used_ts)
            VALUES
                (?, ?, 1, ?)
            ON CONFLICT(entity_type, value) DO UPDATE SET
                use_count = use_count + 1,
                last_used_ts = CASE
                    WHEN excluded.last_used_ts > last_used_ts THEN excluded.last_used_ts
                    ELSE last_used_ts
                END
            "#), params)
    }

    /// The query of the `limit` keys most often (then most recently) used after key `prev_id`.
    pub fn top_next_keys_statement(prev_id: i64, limit: i64) -> (r: (String, Vec<JsonValue>))
        ensures
            r.0@ == top_next_keys_sql(),
            r.1@.len() == 2,
            r.1@[0] == JsonValue::Number(prev_id),
            r.1@[1] == JsonValue::Number(limit),
    {
        let mut params: Vec<JsonValue> = Vec::new();
        params.push(JsonValue::Number(prev_id));
        params.push(JsonValue::Number(limit));
        (owned(r#"
            SELECT k.key, t.count, t.success_count, t.last_used_ts
            FROM completion_transitions t
            JOIN completion_command_keys k ON k.id = t.next_id
            WHERE t.prev_id = ?
            ORDER BY t.count DESC, t.last_used_ts DESC
            LIMIT ?
            "#), params)
    }

    /// The query of the row id of command key `key`.
    pub fn find_key_id_statement(key: &str) -> (r: (String, Vec<JsonValue>))
        ensures
            r.0@ == find_key_id_sql(),
            r.1@.len() == 1,
            text_is(r.1@[0], key@),
    {
        let mut params: Vec<JsonValue> = Vec::new();
        params.push(JsonValue::String(owned(key)));
        (owned("SELECT id FROM completion_command_keys WHERE key = ? LIMIT 1"), params)
    }

    /// The query of the `limit` keys starting with `prefix`, most recently (then most often) used first.
    pub fn top_commands_by_frecency_statement(prefix: &str, limit: i64) -> (r: (String, Vec<JsonValue>))
        ensures
            r.0@ == top_commands_sql(),
            r.1@.len() == 2,
            text_is(r.1@[0], prefix@),
            r.1@[1] == JsonValue::Number(limit),
    {
        let mut params: Vec<JsonValue> = Vec::new();
        params.push(JsonValue::String(owned(prefix)));
        params.push(JsonValue::Number(limit));
        (owned(r#"
            SELECT key, use_count, success_count, last_used_ts
            FROM completion_command_keys
            WHERE key LIKE (? || '%')
            ORDER BY last_used_ts DESC, use_count DESC
            LIMIT ?
            "#), params)
    }

    /// The statement that drops the steps last used before `cutoff_ts`.
    pub fn prune_transitions_statement(cutoff_ts: u64) -> (r: (String, Vec<JsonValue>))
        ensures
            r.0@ == prune_transitions_sql(),
            r.1@.len() == 1,
            r.1@[0] == JsonValue::Number(cutoff_ts as i64),
    {
        let mut params: Vec<JsonValue> = Vec::new();
        params.push(JsonValue::Number(cutoff_ts as i64));
        (owned("DELETE FROM completion_transitions WHERE last_used_ts < ?"), params)
    }

    /// The statement that drops the entities last used before `cutoff_ts`.
    pub fn prune_entities_statement(cutoff_ts: u64) -> (r: (String, Vec<JsonValue>))
        ensures
            r.0@ == prune_entities_sql(),
            r.1@.len() == 1,
            r.1@[0] == JsonValue::Number(cutoff_ts as i64),
    {
        let mut params: Vec<JsonValue> = Vec::new();
        params.push(JsonValue::Number(cutoff_ts as i64));
        (owned("DELETE FROM completion_entity_stats WHERE last_used_ts < ?"), params)
    }

    /// The statement that drops the keys last used before `cutoff_ts` that no step refers to.
    pub fn prune_keys_statement(cutoff_ts: u64) -> (r: (String, Vec<JsonValue>))
        ensures
            r.0@ == prune_keys_sql(),
            r.1@.len() == 1,
            r.1@[0] == JsonValue::Number(cutoff_ts as i64),
    {
        let mut params: Vec<JsonValue> = Vec::new();
        params.push(JsonValue::Number(cutoff_ts as i64));
        (owned(r#"
            DELETE FROM completion_command_keys
            WHERE last_used_ts < ?
              AND id NOT IN (SELECT prev_id FROM completion_transitions)
              AND id NOT IN (SELECT next_id FROM completion_transitions)
            "#), params)
    }

    /// The statement that keeps only the `keep_k` most used (then most recent) steps after key `prev_id`.
    pub fn enforce_transition_top_k_per_prev_statement(prev_id: i64, keep_k: i64) -> (r: (String, Vec<JsonValue>))
        ensures
            r.0@ == transition_top_k_sql(),
            r.1@.len() == 3,
            r.1@[0] == JsonValue::Number(prev_id),
            r.1@[1] == JsonValue::Number(prev_id),
            r.1@[2] == JsonValue::Number(keep_k),
    {
        let mut params: Vec<JsonValue> = Vec::new();
        params.push(JsonValue::Number(prev_id));
        params.push(JsonValue::Number(prev_id));
        params.push(JsonValue::Number(keep_k));
        (owned(r#"
            DELETE FROM completion_transitions
            WHERE prev_id = ?
              AND (prev_id, next_id) NOT IN (
                SELECT prev_id, next_id
                FROM completion_transitions
                WHERE prev_id = ?
                ORDER BY count DESC, last_used_ts DESC
                LIMIT ?
              )
            "#), params)
    }

    /// The statement that drops the least recently used keys that no step refers to, until at most `max_keys` remain.
    pub fn enforce_command_key_limit_statement(max_keys: i64) -> (r: (String, Vec<JsonValue>))
        ensures
            r.0@ == command_key_limit_sql(),
            r.1@.len() == 2,
            r.1@[0] == JsonValue::Number(max_keys),
            r.1@[1] == JsonValue::Number(max_keys),
    {
        let mut params: Vec<JsonValue> = Vec::new();
        params.push(JsonValue::Number(max_keys));
        params.push(JsonValue::Number(max_keys));
        (owned(r#"
            DELETE FROM completion_command_keys
            WHERE id IN (
                SELECT id
                FROM completion_command_keys
                WHERE id NOT IN (SELECT prev_id FROM completion_transitions)
                  AND id NOT IN (SELECT next_id FROM completion_transitions)
                ORDER BY last_used_ts ASC
                LIMIT (
                    SELECT CASE
                        WHEN COUNT(*) > ? THEN COUNT(*) - ?
                        ELSE 0
                    END
                    FROM completion_command_keys
                )
            )
            "#), params)
    }
}

} // verus!
