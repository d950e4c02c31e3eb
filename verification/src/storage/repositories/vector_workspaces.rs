//! The vector index of a workspace.
use vstd::prelude::*;
use crate::storage::repositories::invalid_value;
use crate::clock::utc_now_millis;
use crate::json::JsonValue;
use crate::storage::query::{
    column, differs_from_all, distinct_names, field_names, insert_row, insert_sql, lemma_distinct_names,
    select_all_where_eq, select_all_where_sql, text_or_null, text_value,
};
use crate::text::{chars_of, owned, str_eq};

verus! {

/// The state of a workspace index.
#[derive(Debug, Clone, Copy, PartialEq, Eq, Structural)]
pub enum IndexStatus {
    Building,
    Ready,
    Error,
}

/// The name under which each value is stored.
pub open spec fn index_status_name(v: IndexStatus) -> Seq<char> {
    match v {
        IndexStatus::Building => "building"@,
        IndexStatus::Ready => "ready"@,
        IndexStatus::Error => "error"@,
    }
}

/// The value a stored name stands for, if any.
pub open spec fn parse_index_status(s: Seq<char>) -> Option<IndexStatus> {
    if s == "building"@ {
        Some(IndexStatus::Building)
    } else if s == "ready"@ {
        Some(IndexStatus::Ready)
    } else if s == "error"@ {
        Some(IndexStatus::Error)
    } else {
        None
    }
}

impl IndexStatus {
    /// The name stored in the database.
    pub fn as_str(&self) -> (r: &'static str)
        ensures
            r@ == index_status_name(*self),
    {
        match self {
            IndexStatus::Building => "building",
            IndexStatus::Ready => "ready",
            IndexStatus::Error => "error",
        }
    }

    /// Reads a stored name; any other text is an error.
    pub fn from_str(s: &str) -> (r: Result<Self, anyhow::Error>)
        ensures
            match r {
                Ok(v) => parse_index_status(s@) == Some(v),
                Err(_) => parse_index_status(s@) is None,
            },
    {
        let c = chars_of(s);
        if str_eq("building", &c) {
            Ok(IndexStatus::Building)
        } else if str_eq("ready", &c) {
            Ok(IndexStatus::Ready)
        } else if str_eq("error", &c) {
            Ok(IndexStatus::Error)
        } else {
            Err(invalid_value("无效的索引状态: ", s))
        }
    }
}

/// Reading back the stored name of a value gives the value.
pub proof fn law_index_status_roundtrip(v: IndexStatus)
    ensures
        parse_index_status(index_status_name(v)) == Some(v),
{
    reveal_strlit("building");
    reveal_strlit("ready");
    reveal_strlit("error");
    match v {
        IndexStatus::Building => {
        },
        IndexStatus::Ready => {
            assert("ready"@.len() != "building"@.len());
        },
        IndexStatus::Error => {
            assert("error"@.len() != "building"@.len());
            assert("error"@[0] != "ready"@[0]);
        },
    }
}
/// The index record of a workspace.
#[derive(Debug, Clone)]
pub struct WorkspaceIndex {
    pub id: Option<i32>,
    pub workspace_path: String,
    pub name: Option<String>,
    pub status: IndexStatus,
    pub file_count: i32,
    pub index_size_bytes: i64,
    pub error_message: Option<String>,
    /// milliseconds since the Unix epoch, UTC
    pub created_at: i64,
    pub updated_at: i64,
}

impl WorkspaceIndex {
    /// A record for an index about to be built: building, empty, created
    /// and updated now.
    pub fn new(workspace_path: String, name: Option<String>) -> (r: Self)
        ensures
            r.id is None,
            r.workspace_path == workspace_path,
            r.name == name,
            r.status == IndexStatus::Building,
            r.file_count == 0,
            r.index_size_bytes == 0,
            r.error_message is None,
            r.created_at == r.updated_at,
    {
        let now = utc_now_millis();
        WorkspaceIndex {
            id: None,
            workspace_path,
            name,
            status: IndexStatus::Building,
            file_count: 0,
            index_size_bytes: 0,
            error_message: None,
            created_at: now,
            updated_at: now,
        }
    }

    /// The index is built: ready, with its size, and no error.
    pub fn mark_ready(&mut self, file_count: i32, index_size_bytes: i64)
        ensures
            final(self).status == IndexStatus::Ready,
            final(self).file_count == file_count,
            final(self).index_size_bytes == index_size_bytes,
            final(self).error_message is None,
            final(self).id == old(self).id,
            final(self).workspace_path == old(self).workspace_path,
            final(self).name == old(self).name,
            final(self).created_at == old(self).created_at,
    {
        self.status = IndexStatus::Ready;
        self.file_count = file_count;
        self.index_size_bytes = index_size_bytes;
        self.error_message = None;
        self.updated_at = utc_now_millis();
    }

    /// The build failed with `error_message`; the counts are kept.
    pub fn mark_error(&mut self, error_message: String)
        ensures
            final(self).status == IndexStatus::Error,
            final(self).error_message == Some(error_message),
            final(self).file_count == old(self).file_count,
            final(self).index_size_bytes == old(self).index_size_bytes,
            final(self).id == old(self).id,
            final(self).workspace_path == old(self).workspace_path,
            final(self).name == old(self).name,
            final(self).created_at == old(self).created_at,
    {
        self.status = IndexStatus::Error;
        self.error_message = Some(error_message);
        self.updated_at = utc_now_millis();
    }

    pub fn is_building(&self) -> (r: bool)
        ensures
            r == (self.status == IndexStatus::Building),
    {
        self.status == IndexStatus::Building
    }

    pub fn is_ready(&self) -> (r: bool)
        ensures
            r == (self.status == IndexStatus::Ready),
    {
        self.status == IndexStatus::Ready
    }

    pub fn is_error(&self) -> (r: bool)
        ensures
            r == (self.status == IndexStatus::Error),
    {
        self.status == IndexStatus::Error
    }
}


/// The columns written for a workspace index.
pub open spec fn workspace_columns() -> Seq<Seq<char>> {
    seq![
        "workspace_path"@,
        "name"@,
        "status"@,
        "file_count"@,
        "index_size_bytes"@,
        "error_message"@,
        "created_at"@,
        "updated_at"@,
    ]
}

/// The columns of a workspace index row are named once each.
proof fn lemma_workspace_columns_distinct()
    ensures
        distinct_names(workspace_columns()),
{
    reveal_strlit("created_at");
    reveal_strlit("error_message");
    reveal_strlit("file_count");
    reveal_strlit("index_size_bytes");
    reveal_strlit("name");
    reveal_strlit("status");
    reveal_strlit("updated_at");
    reveal_strlit("workspace_path");
    assert("created_at"@.len() == 10);
    assert("error_message"@.len() == 13);
    assert("file_count"@.len() == 10);
    assert("index_size_bytes"@.len() == 16);
    assert("name"@.len() == 4);
    assert("status"@.len() == 6);
    assert("updated_at"@.len() == 10);
    assert("workspace_path"@.len() == 14);
    assert("file_count"@[0] != "created_at"@[0]);
    assert("file_count"@[0] != "updated_at"@[0]);
    assert("created_at"@[0] != "updated_at"@[0]);
    let n = workspace_columns();
    assert(n[0] == "workspace_path"@);
    assert(n[1] == "name"@);
    assert(n[2] == "status"@);
    assert(n[3] == "file_count"@);
    assert(n[4] == "index_size_bytes"@);
    assert(n[5] == "error_message"@);
    assert(n[6] == "created_at"@);
    assert(n[7] == "updated_at"@);
    reveal_with_fuel(distinct_names, 9);
    reveal_with_fuel(differs_from_all, 8);
}

/// The query of every index, most recently updated first.
pub open spec fn find_all_workspaces_sql() -> Seq<char> {
    "SELECT * FROM vector_workspaces ORDER BY updated_at DESC"@
}

/// The statement that sets an index's state and counts.
pub open spec fn update_status_sql() -> Seq<char> {
    "UPDATE vector_workspaces SET status = ?, file_count = ?, index_size_bytes = ?, error_message = ?, updated_at = ? WHERE id = ?"@
}

/// The statement that rewrites an index's row.
pub open spec fn update_workspace_sql() -> Seq<char> {
    "UPDATE vector_workspaces SET workspace_path = ?, name = ?, status = ?, file_count = ?, index_size_bytes = ?, error_message = ?, updated_at = ? WHERE id = ?"@
}

/// The query that counts the indexes of a path.
pub open spec fn path_count_sql() -> Seq<char> {
    "SELECT COUNT(*) as count FROM vector_workspaces WHERE workspace_path = ?"@
}

/// The statement that drops an index.
pub open spec fn delete_workspace_sql() -> Seq<char> {
    "DELETE FROM vector_workspaces WHERE id = ?"@
}

/// The text value of a status's stored name.
fn status_text(s: IndexStatus) -> (r: JsonValue)
    ensures
        r matches JsonValue::String(t) && t@ == index_status_name(s),
{
    JsonValue::String(owned(s.as_str()))
}

/// An optional `i32` as a value, or null.
pub open spec fn small_int_or_null(v: Option<i32>) -> JsonValue {
    match v {
        Some(i) => JsonValue::Number(i as i64),
        None => JsonValue::Null,
    }
}

/// The statements of the workspace index store; running them is the
/// caller's part.
pub struct VectorWorkspaceRepository;

impl VectorWorkspaceRepository {
    /// The query of the index of a workspace path.
    pub fn find_by_path_statement(workspace_path: &str) -> (r: (String, Vec<JsonValue>))
        ensures
            r.0@ == select_all_where_sql("vector_workspaces"@, "workspace_path"@),
            r.1@.len() == 1,
            r.1@[0] matches JsonValue::String(p) && p@ == workspace_path@,
    {
        select_all_where_eq("vector_workspaces", "workspace_path", JsonValue::String(owned(workspace_path)))
    }

    /// The query of the indexes in a state.
    pub fn find_by_status_statement(status: IndexStatus) -> (r: (String, Vec<JsonValue>))
        ensures
            r.0@ == select_all_where_sql("vector_workspaces"@, "status"@),
            r.1@.len() == 1,
            r.1@[0] matches JsonValue::String(t) && t@ == index_status_name(status),
    {
        select_all_where_eq("vector_workspaces", "status", status_text(status))
    }

    /// The query of the index with row id `id`.
    pub fn find_by_id_statement(id: i64) -> (r: (String, Vec<JsonValue>))
        ensures
            r.0@ == select_all_where_sql("vector_workspaces"@, "id"@),
            r.1@ == seq![JsonValue::Number(id)],
    {
        select_all_where_eq("vector_workspaces", "id", JsonValue::Number(id))
    }

    /// The query of every index, most recently updated first.
    pub fn find_all_statement() -> (r: String)
        ensures
            r@ == find_all_workspaces_sql(),
    {
        owned("SELECT * FROM vector_workspaces ORDER BY updated_at DESC")
    }

    /// Setting index `id` to `status` with its counts and error (each null
    /// when not given), updated at `now` (ms).
    pub fn update_status_statement(
        id: i32,
        status: IndexStatus,
        file_count: Option<i32>,
        index_size_bytes: Option<i64>,
        error_message: Option<String>,
        now: i64,
    ) -> (r: (String, Vec<JsonValue>))
        ensures
            r.0@ == update_status_sql(),
            r.1@.len() == 6,
            r.1@[0] matches JsonValue::String(t) && t@ == index_status_name(status),
            r.1@[1] == small_int_or_null(file_count),
            r.1@[2] == crate::storage::query::int_or_null(index_size_bytes),
            r.1@[3] == text_or_null(error_message),
            r.1@[4] == JsonValue::Number(now),
            r.1@[5] == JsonValue::Number(id as i64),
    {
        let mut params: Vec<JsonValue> = Vec::new();
        params.push(status_text(status));
        params.push(
            match file_count {
                Some(c) => JsonValue::Number(c as i64),
                None => JsonValue::Null,
            },
        );
        params.push(crate::storage::query::int_value(index_size_bytes));
        params.push(text_value(&error_message));
        params.push(JsonValue::Number(now));
        params.push(JsonValue::Number(id as i64));
        (
            owned(
                "UPDATE vector_workspaces SET status = ?, file_count = ?, index_size_bytes = ?, error_message = ?, updated_at = ? WHERE id = ?",
            ),
            params,
        )
    }

    /// The INSERT of an index's row, with its values in column order (see
    /// `workspace_columns`).
    pub fn save_statement(index: &WorkspaceIndex) -> (r: (String, Vec<JsonValue>))
        ensures
            r.0@ == insert_sql("vector_workspaces"@, workspace_columns()),
            r.1@.len() == 8,
            r.1@[0] == JsonValue::String(index.workspace_path),
            r.1@[1] == text_or_null(index.name),
            r.1@[2] matches JsonValue::String(t) && t@ == index_status_name(index.status),
            r.1@[3] == JsonValue::Number(index.file_count as i64),
            r.1@[4] == JsonValue::Number(index.index_size_bytes),
            r.1@[5] == text_or_null(index.error_message),
            r.1@[6] == JsonValue::Number(index.created_at),
            r.1@[7] == JsonValue::Number(index.updated_at),
    {
        let mut cols: Vec<(String, JsonValue)> = Vec::new();
        cols.push(column("workspace_path", JsonValue::String(index.workspace_path.clone())));
        cols.push(column("name", text_value(&index.name)));
        cols.push(column("status", status_text(index.status)));
        cols.push(column("file_count", JsonValue::Number(index.file_count as i64)));
        cols.push(column("index_size_bytes", JsonValue::Number(index.index_size_bytes)));
        cols.push(column("error_message", text_value(&index.error_message)));
        cols.push(column("created_at", JsonValue::Number(index.created_at)));
        cols.push(column("updated_at", JsonValue::Number(index.updated_at)));
        proof {
            assert(field_names(cols@) =~= workspace_columns());
            lemma_workspace_columns_distinct();
            lemma_distinct_names(cols@);
        }
        insert_row("vector_workspaces", cols)
    }

    /// The rewrite of an index's row, which must have an id: its values in
    /// the order of `update_workspace_sql`, the id last.
    pub fn update_statement(index: &WorkspaceIndex) -> (r: Result<(String, Vec<JsonValue>), String>)
        ensures
            match index.id {
                None => r matches Err(m) && m@ == "工作区索引ID不能为空"@,
                Some(id) => r matches Ok(st) && st.0@ == update_workspace_sql() && st.1@.len() == 8
                    && st.1@[0] == JsonValue::String(index.workspace_path)
                    && st.1@[1] == text_or_null(index.name)
                    && (st.1@[2] matches JsonValue::String(t) && t@ == index_status_name(index.status))
                    && st.1@[3] == JsonValue::Number(index.file_count as i64)
                    && st.1@[4] == JsonValue::Number(index.index_size_bytes)
                    && st.1@[5] == text_or_null(index.error_message)
                    && st.1@[6] == JsonValue::Number(index.updated_at)
                    && st.1@[7] == JsonValue::Number(id as i64),
            },
    {
        let id = match index.id {
            Some(id) => id,
            None => return Err(owned("工作区索引ID不能为空")),
        };
        let mut params: Vec<JsonValue> = Vec::new();
        params.push(JsonValue::String(index.workspace_path.clone()));
        params.push(text_value(&index.name));
        params.push(status_text(index.status));
        params.push(JsonValue::Number(index.file_count as i64));
        params.push(JsonValue::Number(index.index_size_bytes));
        params.push(text_value(&index.error_message));
        params.push(JsonValue::Number(index.updated_at));
        params.push(JsonValue::Number(id as i64));
        Ok((
            owned(
                "UPDATE vector_workspaces SET workspace_path = ?, name = ?, status = ?, file_count = ?, index_size_bytes = ?, error_message = ?, updated_at = ? WHERE id = ?",
            ),
            params,
        ))
    }

    /// The count query of a workspace path.
    pub fn path_count_statement(workspace_path: &str) -> (r: (String, Vec<JsonValue>))
        ensures
            r.0@ == path_count_sql(),
            r.1@.len() == 1,
            r.1@[0] matches JsonValue::String(p) && p@ == workspace_path@,
    {
        let mut params: Vec<JsonValue> = Vec::new();
        params.push(JsonValue::String(owned(workspace_path)));
        (owned("SELECT COUNT(*) as count FROM vector_workspaces WHERE workspace_path = ?"), params)
    }

    /// Whether a path is indexed, from the count that query returned.
    pub fn path_exists(count: i64) -> (r: bool)
        ensures
            r == (count > 0),
    {
        count > 0
    }

    /// The statement that drops index `id`.
    pub fn delete_statement(id: i64) -> (r: (String, Vec<JsonValue>))
        ensures
            r.0@ == delete_workspace_sql(),
            r.1@ == seq![JsonValue::Number(id)],
    {
        let mut params: Vec<JsonValue> = Vec::new();
        params.push(JsonValue::Number(id));
        (owned("DELETE FROM vector_workspaces WHERE id = ?"), params)
    }
}

} // verus!
