//! Preferences kept as key and text value (project and user rules, ...).
use vstd::prelude::*;
use crate::json::JsonValue;
use crate::text::owned;

verus! {

/// The statement that reads a preference.
pub open spec fn preference_get_sql() -> Seq<char> {
    "SELECT value FROM app_preferences WHERE key = ? LIMIT 1"@
}

/// The statement that writes a preference.
pub open spec fn preference_upsert_sql() -> Seq<char> {
    "INSERT INTO app_preferences (key, value, updated_at) VALUES (?, ?, CURRENT_TIMESTAMP) ON CONFLICT(key) DO UPDATE SET value = excluded.value, updated_at = excluded.updated_at"@
}

/// The statement that drops a preference.
pub open spec fn preference_delete_sql() -> Seq<char> {
    "DELETE FROM app_preferences WHERE key = ?"@
}

/// The statements of the preference store; running them is the caller's
/// part.
pub struct AppPreferences;

impl AppPreferences {
    /// The query of a preference's value.
    pub fn get_statement(key: &str) -> (r: (String, Vec<JsonValue>))
        ensures
            r.0@ == preference_get_sql(),
            r.1@.len() == 1,
            r.1@[0] matches JsonValue::String(k) && k@ == key@,
    {
        let mut params: Vec<JsonValue> = Vec::new();
        params.push(JsonValue::String(owned(key)));
        (owned("SELECT value FROM app_preferences WHERE key = ? LIMIT 1"), params)
    }

    /// Setting a preference: the value is written (replacing any before),
    /// or, for no value, the preference is dropped.
    pub fn set_statement(key: &str, value: Option<&str>) -> (r: (String, Vec<JsonValue>))
        ensures
            r.1@.len() >= 1,
            r.1@[0] matches JsonValue::String(k) && k@ == key@,
            match value {
                Some(v) => r.0@ == preference_upsert_sql() && r.1@.len() == 2 && (r.1@[1] matches JsonValue::String(t) && t@ == v@),
                None => r.0@ == preference_delete_sql() && r.1@.len() == 1,
            },
    {
        let mut params: Vec<JsonValue> = Vec::new();
        params.push(JsonValue::String(owned(key)));
        match value {
            Some(v) => {
                params.push(JsonValue::String(owned(v)));
                (owned("INSERT INTO app_preferences (key, value, updated_at) VALUES (?, ?, CURRENT_TIMESTAMP) ON CONFLICT(key) DO UPDATE SET value = excluded.value, updated_at = excluded.updated_at"), params)
            },
            None => (owned("DELETE FROM app_preferences WHERE key = ?"), params),
        }
    }
}

} // verus!
