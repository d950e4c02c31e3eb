//! Recently opened workspaces.
use vstd::prelude::*;
use crate::json::JsonValue;
use crate::storage::error::RepositoryError;
use crate::storage::query::text_is;
use crate::text::{chars_of, concat_chars, owned, push_str, slice_chars, starts_with, starts_with_chars, string_of};

verus! {

/// A workspace and when it was last opened.
#[derive(Debug, Clone)]
pub struct RecentWorkspace {
    pub id: i64,
    pub path: String,
    /// seconds since the Unix epoch
    pub last_accessed_at: i64,
}

/// The path with a leading `~/` standing for the home directory, when the
/// home directory is known (its first `~` replaced by it).
pub open spec fn expanded_path(path: Seq<char>, home: Option<Seq<char>>) -> Seq<char> {
    if starts_with(path, "~/"@) && home is Some {
        home->0 + path.drop_first()
    } else {
        path
    }
}

/// The path without the `/` characters at its end.
pub open spec fn without_trailing_slashes(path: Seq<char>) -> Seq<char>
    decreases path.len(),
{
    if path.len() > 0 && path.last() == '/' {
        without_trailing_slashes(path.drop_last())
    } else {
        path
    }
}

/// A path stripped of its trailing slashes ends with none, so stripping it
/// again leaves it as it is: a normal path is its own normal form.
pub proof fn law_trailing_slashes_idempotent(path: Seq<char>)
    ensures
        without_trailing_slashes(path).len() == 0 || without_trailing_slashes(path).last() != '/',
        without_trailing_slashes(without_trailing_slashes(path)) == without_trailing_slashes(path),
    decreases path.len(),
{
    if path.len() > 0 && path.last() == '/' {
        law_trailing_slashes_idempotent(path.drop_last());
    }
}

/// Where a workspace's path is normalised: expanding `~/` with the home
/// directory (read from the environment by the caller).
pub fn expand_home(path: &str, home: Option<&str>) -> (r: String)
    ensures
        r@ == expanded_path(
            path@,
            match home {
                Some(h) => Some(h@),
                None => None,
            },
        ),
{
    let p = chars_of(path);
    let tilde = chars_of("~/");
    proof {
        reveal_strlit("~/");
    }
    if starts_with_chars(&p, &tilde) {
        if let Some(h) = home {
            let rest = slice_chars(&p, 1, p.len());
            assert(rest@ =~= p@.drop_first());
            return string_of(&concat_chars(&chars_of(h), &rest));
        }
    }
    owned(path)
}

/// `str::trim_end_matches('/')`.
pub fn trim_trailing_slashes(path: &str) -> (r: String)
    ensures
        r@ == without_trailing_slashes(path@),
{
    let p = chars_of(path);
    let mut n: usize = p.len();
    assert(p@.take(p@.len() as int) =~= p@);
    while n > 0 && p[n - 1] == '/'
        invariant
            n <= p@.len(),
            without_trailing_slashes(p@.take(n as int)) == without_trailing_slashes(p@),
        decreases n,
    {
        proof {
            assert(p@.take(n as int).drop_last() =~= p@.take(n - 1));
        }
        n -= 1;
    }
    let r = slice_chars(&p, 0, n);
    assert(r@ =~= p@.take(n as int));
    string_of(&r)
}

/// The normal form of an expanded workspace path: its canonical form when
/// the path exists (`canonical`, as the file system gave it, or the error
/// it gave), else the path without trailing `/`.
pub fn normalized_path(expanded: &str, canonical: Option<Result<String, String>>) -> (r: Result<String, RepositoryError>)
    ensures
        match canonical {
            None => r matches Ok(p) && p@ == without_trailing_slashes(expanded@),
            Some(Ok(c)) => r == Ok::<String, RepositoryError>(c),
            Some(Err(e)) => r matches Err(RepositoryError::Validation { reason }) && reason@
                == "Failed to canonicalize path: "@ + e@,
        },
{
    match canonical {
        None => Ok(trim_trailing_slashes(expanded)),
        Some(Ok(c)) => Ok(c),
        Some(Err(e)) => {
            let mut reason = owned("Failed to canonicalize path: ");
            push_str(&mut reason, e.as_str());
            Err(RepositoryError::Validation { reason })
        },
    }
}

/// The time before which records are old: `days` days before `now`
/// (seconds since the epoch).
pub fn cleanup_cutoff(now: i64, days: i64) -> (r: i64)
    requires
        i64::MIN <= now - days * 86400 <= i64::MAX,
        i64::MIN <= days * 86400 <= i64::MAX,
    ensures
        r == now - days * 86400,
{
    now - days * 86400
}


/// The SQL of `add_or_update_statement`.
pub open spec fn recent_upsert_sql() -> Seq<char> {
    r#"
            INSERT INTO recent_workspaces (path, last_accessed_at)
            VALUES (?, ?)
            ON CONFLICT(path) DO UPDATE SET
                last_accessed_at = excluded.last_accessed_at
        "#@
}

/// The SQL of `get_recent_statement`.
pub open spec fn recent_list_sql() -> Seq<char> {
    r#"
            SELECT id, path, last_accessed_at
            FROM recent_workspaces
            ORDER BY last_accessed_at DESC
            LIMIT ?
        "#@
}

/// The SQL of `remove_statement`.
pub open spec fn recent_remove_sql() -> Seq<char> {
    "DELETE FROM recent_workspaces WHERE path = ?"@
}

/// The SQL of `cleanup_old_statement`.
pub open spec fn recent_cleanup_sql() -> Seq<char> {
    "DELETE FROM recent_workspaces WHERE last_accessed_at < ?"@
}

/// The SQL of `limit_records_statement`.
pub open spec fn recent_limit_sql() -> Seq<char> {
    r#"
            DELETE FROM recent_workspaces
            WHERE id NOT IN (
                SELECT id FROM recent_workspaces
                ORDER BY last_accessed_at DESC
                LIMIT ?
            )
        "#@
}

/// The statements of the recent workspace store; running them is the
/// caller's part.
pub struct RecentWorkspaceRepository;

impl RecentWorkspaceRepository {
    /// Recording an access to a (normalized) path at `now` (seconds), in place of any earlier one.
    pub fn add_or_update_statement(normalized_path: &str, now: i64) -> (r: (String, Vec<JsonValue>))
        ensures
            r.0@ == recent_upsert_sql(),
            r.1@.len() == 2,
            text_is(r.1@[0], normalized_path@),
            r.1@[1] == JsonValue::Number(now),
    {
        let mut params: Vec<JsonValue> = Vec::new();
        params.push(JsonValue::String(owned(normalized_path)));
        params.push(JsonValue::Number(now));
        (owned(r#"
            INSERT INTO recent_workspaces (path, last_accessed_at)
            VALUES (?, ?)
            ON CONFLICT(path) DO UPDATE SET
                last_accessed_at = excluded.last_accessed_at
        "#), params)
    }

    /// The query of the `limit` most recently accessed workspaces.
    pub fn get_recent_statement(limit: i64) -> (r: (String, Vec<JsonValue>))
        ensures
            r.0@ == recent_list_sql(),
            r.1@.len() == 1,
            r.1@[0] == JsonValue::Number(limit),
    {
        let mut params: Vec<JsonValue> = Vec::new();
        params.push(JsonValue::Number(limit));
        (owned(r#"
            SELECT id, path, last_accessed_at
            FROM recent_workspaces
            ORDER BY last_accessed_at DESC
            LIMIT ?
        "#), params)
    }

    /// The statement that drops the record of a (normalized) path.
    pub fn remove_statement(normalized_path: &str) -> (r: (String, Vec<JsonValue>))
        ensures
            r.0@ == recent_remove_sql(),
            r.1@.len() == 1,
            text_is(r.1@[0], normalized_path@),
    {
        let mut params: Vec<JsonValue> = Vec::new();
        params.push(JsonValue::String(owned(normalized_path)));
        (owned("DELETE FROM recent_workspaces WHERE path = ?"), params)
    }

    /// The statement that drops the records last accessed before `cutoff` (seconds).
    pub fn cleanup_old_statement(cutoff: i64) -> (r: (String, Vec<JsonValue>))
        ensures
            r.0@ == recent_cleanup_sql(),
            r.1@.len() == 1,
            r.1@[0] == JsonValue::Number(cutoff),
    {
        let mut params: Vec<JsonValue> = Vec::new();
        params.push(JsonValue::Number(cutoff));
        (owned("DELETE FROM recent_workspaces WHERE last_accessed_at < ?"), params)
    }

    /// The statement that keeps only the `max_count` most recently accessed records.
    pub fn limit_records_statement(max_count: i64) -> (r: (String, Vec<JsonValue>))
        ensures
            r.0@ == recent_limit_sql(),
            r.1@.len() == 1,
            r.1@[0] == JsonValue::Number(max_count),
    {
        let mut params: Vec<JsonValue> = Vec::new();
        params.push(JsonValue::Number(max_count));
        (owned(r#"
            DELETE FROM recent_workspaces
            WHERE id NOT IN (
                SELECT id FROM recent_workspaces
                ORDER BY last_accessed_at DESC
                LIMIT ?
            )
        "#), params)
    }
}

} // verus!
