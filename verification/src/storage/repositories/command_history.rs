//! The command history: the records of commands run in terminals, the
//! statements that store and query them, and the key of a command's usage
//! statistics.
use vstd::prelude::*;
use crate::clock::utc_now_rfc3339;
use crate::json::JsonValue;
use crate::storage::codec::{md5_hex, md5_hex_digest};
use crate::storage::error::QueryBuilderError;
use crate::storage::query::{
    field_map, select_params, select_statement, texts, InsertBuilder, QueryCondition, QueryOrder,
    SafeQueryBuilder,
};
use crate::storage::repositories::SortOrder;
use crate::storage::query::{select_all_where_eq, select_all_where_sql, text_is};
use crate::text::{chars_of, int_text, owned, push_int, push_str, string_of};

verus! {

/// One command run, as stored.
#[derive(Debug, Clone)]
pub struct CommandHistoryEntry {
    pub id: Option<i64>,
    pub command: String,
    pub working_directory: String,
    pub exit_code: Option<i32>,
    pub output: Option<String>,
    pub duration_ms: Option<i64>,
    /// RFC 3339 time the command ran
    pub executed_at: String,
    pub session_id: Option<String>,
    pub tags: Option<String>,
}

impl CommandHistoryEntry {
    /// A new, unsaved record of a command run now, without tags.
    pub fn new(
        command: String,
        working_directory: String,
        exit_code: Option<i32>,
        output: Option<String>,
        duration_ms: Option<i64>,
        session_id: Option<String>,
    ) -> (r: Self)
        ensures
            r.id is None,
            r.command == command,
            r.working_directory == working_directory,
            r.exit_code == exit_code,
            r.output == output,
            r.duration_ms == duration_ms,
            r.session_id == session_id,
            r.tags is None,
    {
        CommandHistoryEntry {
            id: None,
            command,
            working_directory,
            exit_code,
            output,
            duration_ms,
            executed_at: utc_now_rfc3339(),
            session_id,
            tags: None,
        }
    }
}

/// A window of history rows.
#[derive(Debug, Clone, Copy, PartialEq, Eq, Structural)]
pub struct HistoryPage {
    pub limit: Option<i64>,
    pub offset: Option<i64>,
}

/// What to look for in the history.
#[derive(Debug, Clone)]
pub struct HistoryQuery {
    /// text the command contains
    pub command_pattern: Option<String>,
    pub working_directory: Option<String>,
    /// RFC 3339 times bounding when the command ran
    pub date_from: Option<String>,
    pub date_to: Option<String>,
    pub session_id: Option<String>,
    pub pagination: Option<HistoryPage>,
    pub ordering: Option<SortOrder>,
}

impl Default for HistoryQuery {
    /// Everything, latest first.
    fn default() -> (r: Self)
        ensures
            r.command_pattern is None,
            r.working_directory is None,
            r.date_from is None,
            r.date_to is None,
            r.session_id is None,
            r.pagination is None,
            r.ordering matches Some(o) && o.field@ == "executed_at"@ && o.desc,
    {
        HistoryQuery {
            command_pattern: None,
            working_directory: None,
            date_from: None,
            date_to: None,
            session_id: None,
            pagination: None,
            ordering: Some(SortOrder::desc("executed_at")),
        }
    }
}

/// The columns read from the history table, in order.
pub open spec fn history_columns() -> Seq<Seq<char>> {
    seq![
        "id"@,
        "command"@,
        "working_directory"@,
        "exit_code"@,
        "output"@,
        "duration_ms"@,
        "executed_at"@,
        "session_id"@,
        "tags"@,
    ]
}

/// A filter of a history query: the kind of comparison (0 LIKE, 1 =, 2 >=,
/// 3 <=), the column, and the text compared with.
pub open spec fn condition_is(c: QueryCondition, kind: int, field: Seq<char>, text: Seq<char>) -> bool {
    if kind == 0 {
        c matches QueryCondition::Like(f, p) && f@ == field && p@ == text
    } else if kind == 1 {
        c matches QueryCondition::Eq(f, JsonValue::String(s)) && f@ == field && s@ == text
    } else if kind == 2 {
        c matches QueryCondition::Ge(f, JsonValue::String(s)) && f@ == field && s@ == text
    } else {
        c matches QueryCondition::Le(f, JsonValue::String(s)) && f@ == field && s@ == text
    }
}

/// The filters a query asks for, in this order: the command pattern
/// (`%pattern%`), the working directory, the session, the first and the
/// last time.
pub open spec fn history_filters(q: HistoryQuery) -> Seq<(int, Seq<char>, Seq<char>)> {
    (match q.command_pattern {
        Some(p) => seq![(0int, "command"@, "%"@ + p@ + "%"@)],
        None => Seq::empty(),
    }) + (match q.working_directory {
        Some(d) => seq![(1int, "working_directory"@, d@)],
        None => Seq::empty(),
    }) + (match q.session_id {
        Some(s) => seq![(1int, "session_id"@, s@)],
        None => Seq::empty(),
    }) + (match q.date_from {
        Some(f) => seq![(2int, "executed_at"@, f@)],
        None => Seq::empty(),
    }) + (match q.date_to {
        Some(t) => seq![(3int, "executed_at"@, t@)],
        None => Seq::empty(),
    })
}

/// The builder a query makes: the history columns of `command_history`,
/// its filters in order, its ordering, and its window.
pub open spec fn history_builder_ok(b: SafeQueryBuilder, q: HistoryQuery) -> bool {
    let fs = history_filters(q);
    &&& b.table@ == "command_history"@
    &&& texts(b.select_fields@) == history_columns()
    &&& b.conditions@.len() == fs.len()
    &&& forall|i: int|
        0 <= i < fs.len() ==> condition_is(#[trigger] b.conditions@[i], fs[i].0, fs[i].1, fs[i].2)
    &&& b.orders@.len() == (if q.ordering is Some { 1int } else { 0int })
    &&& (q.ordering matches Some(o) ==> (if o.desc {
        b.orders@[0] matches QueryOrder::Desc(f) && f@ == o.field@
    } else {
        b.orders@[0] matches QueryOrder::Asc(f) && f@ == o.field@
    }))
    &&& b.limit == (match q.pagination {
        Some(p) => p.limit,
        None => None,
    })
    &&& b.offset == (match q.pagination {
        Some(p) => p.offset,
        None => None,
    })
    &&& b.joins@.len() == 0
}

/// The filters of a history query mean what their names say: a command
/// pattern is a `LIKE %pattern%` on the command, the working directory and
/// the session are equalities, `date_from` is a lower bound (`>=`) and
/// `date_to` an upper bound (`<=`) on `executed_at`; no other condition is
/// added, and the time is compared with `>=` only for `date_from` and with
/// `<=` only for `date_to`.
pub proof fn law_history_filters(b: SafeQueryBuilder, q: HistoryQuery)
    requires
        history_builder_ok(b, q),
    ensures
        q.command_pattern matches Some(p) ==> exists|i: int|
            0 <= i < b.conditions@.len() && (#[trigger] b.conditions@[i] matches QueryCondition::Like(
                f,
                pat,
            ) && f@ == "command"@ && pat@ == "%"@ + p@ + "%"@),
        q.working_directory matches Some(d) ==> exists|i: int|
            0 <= i < b.conditions@.len() && (#[trigger] b.conditions@[i] matches QueryCondition::Eq(
                f,
                JsonValue::String(x),
            ) && f@ == "working_directory"@ && x@ == d@),
        q.session_id matches Some(sid) ==> exists|i: int|
            0 <= i < b.conditions@.len() && (#[trigger] b.conditions@[i] matches QueryCondition::Eq(
                f,
                JsonValue::String(x),
            ) && f@ == "session_id"@ && x@ == sid@),
        q.date_from matches Some(t) ==> exists|i: int|
            0 <= i < b.conditions@.len() && (#[trigger] b.conditions@[i] matches QueryCondition::Ge(
                f,
                JsonValue::String(x),
            ) && f@ == "executed_at"@ && x@ == t@),
        q.date_to matches Some(t) ==> exists|i: int|
            0 <= i < b.conditions@.len() && (#[trigger] b.conditions@[i] matches QueryCondition::Le(
                f,
                JsonValue::String(x),
            ) && f@ == "executed_at"@ && x@ == t@),
        forall|i: int|
            0 <= i < b.conditions@.len() && (#[trigger] b.conditions@[i] is Ge) ==> q.date_from is Some,
        forall|i: int|
            0 <= i < b.conditions@.len() && (#[trigger] b.conditions@[i] is Le) ==> q.date_to is Some,
        b.conditions@.len() == (if q.command_pattern is Some { 1int } else { 0int }) + (
        if q.working_directory is Some {
            1int
        } else {
            0int
        }) + (if q.session_id is Some {
            1int
        } else {
            0int
        }) + (if q.date_from is Some {
            1int
        } else {
            0int
        }) + (if q.date_to is Some {
            1int
        } else {
            0int
        }),
{
    let fs = history_filters(q);
    let a = match q.command_pattern {
        Some(p) => seq![(0int, "command"@, "%"@ + p@ + "%"@)],
        None => Seq::<(int, Seq<char>, Seq<char>)>::empty(),
    };
    let bw = match q.working_directory {
        Some(d) => seq![(1int, "working_directory"@, d@)],
        None => Seq::<(int, Seq<char>, Seq<char>)>::empty(),
    };
    let c = match q.session_id {
        Some(x) => seq![(1int, "session_id"@, x@)],
        None => Seq::<(int, Seq<char>, Seq<char>)>::empty(),
    };
    let d = match q.date_from {
        Some(f) => seq![(2int, "executed_at"@, f@)],
        None => Seq::<(int, Seq<char>, Seq<char>)>::empty(),
    };
    let e = match q.date_to {
        Some(t) => seq![(3int, "executed_at"@, t@)],
        None => Seq::<(int, Seq<char>, Seq<char>)>::empty(),
    };
    assert(fs == a + bw + c + d + e);
    let n1 = a.len() as int;
    let n2 = n1 + bw.len();
    let n3 = n2 + c.len();
    let n4 = n3 + d.len();
    assert forall|i: int| 0 <= i < fs.len() implies (#[trigger] fs[i]).0 == (if i < n1 {
        0int
    } else if i < n3 {
        1int
    } else if i < n4 {
        2int
    } else {
        3int
    }) by {
        if i < n1 {
            assert(fs[i] == a[i]);
        } else if i < n2 {
            assert(fs[i] == bw[i - n1]);
        } else if i < n3 {
            assert(fs[i] == c[i - n2]);
        } else if i < n4 {
            assert(fs[i] == d[i - n3]);
        } else {
            assert(fs[i] == e[i - n4]);
        }
    }
    if let Some(p) = q.command_pattern {
        assert(fs[0] == a[0]);
        assert(condition_is(b.conditions@[0], fs[0].0, fs[0].1, fs[0].2));
    }
    if let Some(x) = q.working_directory {
        assert(fs[n1] == bw[0]);
        assert(condition_is(b.conditions@[n1], fs[n1].0, fs[n1].1, fs[n1].2));
    }
    if let Some(x) = q.session_id {
        assert(fs[n2] == c[0]);
        assert(condition_is(b.conditions@[n2], fs[n2].0, fs[n2].1, fs[n2].2));
    }
    if let Some(x) = q.date_from {
        assert(fs[n3] == d[0]);
        assert(condition_is(b.conditions@[n3], fs[n3].0, fs[n3].1, fs[n3].2));
    }
    if let Some(x) = q.date_to {
        assert(fs[n4] == e[0]);
        assert(condition_is(b.conditions@[n4], fs[n4].0, fs[n4].1, fs[n4].2));
    }
    assert forall|i: int| 0 <= i < b.conditions@.len() && (#[trigger] b.conditions@[i] is Ge) implies q.date_from is Some by {
        assert(condition_is(b.conditions@[i], fs[i].0, fs[i].1, fs[i].2));
        assert(fs[i].0 == 2) by {
            assert(fs[i].0 == 0 || fs[i].0 == 1 || fs[i].0 == 2 || fs[i].0 == 3);
        }
        assert(n3 <= i < n4);
    }
    assert forall|i: int| 0 <= i < b.conditions@.len() && (#[trigger] b.conditions@[i] is Le) implies q.date_to is Some by {
        assert(condition_is(b.conditions@[i], fs[i].0, fs[i].1, fs[i].2));
        assert(n4 <= i);
    }
}

/// The SELECT statement of a history query and its values: those of the
/// builder that `history_builder_ok` describes.
pub fn history_query_sql(query: &HistoryQuery) -> (r: Result<(String, Vec<JsonValue>), QueryBuilderError>)
    ensures
        r matches Ok((sql, params)) && exists|b: SafeQueryBuilder|
            history_builder_ok(b, *query) && sql@ == select_statement(b) && params@ == select_params(
                b,
            ),
{
    let mut builder = SafeQueryBuilder::new(owned("command_history")).select(
        &[
            "id",
            "command",
            "working_directory",
            "exit_code",
            "output",
            "duration_ms",
            "executed_at",
            "session_id",
            "tags",
        ],
    );
    proof {
        reveal_strlit("id");
        assert(texts(builder.select_fields@) =~= history_columns());
    }
    let ghost fs = history_filters(*query);
    let ghost mut done: Seq<(int, Seq<char>, Seq<char>)> = Seq::empty();
    if let Some(pattern) = &query.command_pattern {
        let mut p = owned("%");
        push_str(&mut p, pattern.as_str());
        push_str(&mut p, "%");
        builder = builder.where_condition(QueryCondition::Like(owned("command"), p));
        proof {
            done = done.push((0int, "command"@, "%"@ + pattern@ + "%"@));
        }
    }
    if let Some(dir) = &query.working_directory {
        builder = builder.where_condition(
            QueryCondition::Eq(owned("working_directory"), JsonValue::String(dir.clone())),
        );
        proof {
            done = done.push((1int, "working_directory"@, dir@));
        }
    }
    if let Some(session) = &query.session_id {
        builder = builder.where_condition(
            QueryCondition::Eq(owned("session_id"), JsonValue::String(session.clone())),
        );
        proof {
            done = done.push((1int, "session_id"@, session@));
        }
    }
    if let Some(from) = &query.date_from {
        builder = builder.where_condition(
            QueryCondition::Ge(owned("executed_at"), JsonValue::String(from.clone())),
        );
        proof {
            done = done.push((2int, "executed_at"@, from@));
        }
    }
    if let Some(to) = &query.date_to {
        builder = builder.where_condition(
            QueryCondition::Le(owned("executed_at"), JsonValue::String(to.clone())),
        );
        proof {
            done = done.push((3int, "executed_at"@, to@));
        }
    }
    proof {
        assert(done =~= fs);
    }
    if let Some(ordering) = &query.ordering {
        if ordering.desc {
            builder = builder.order_by(QueryOrder::Desc(ordering.field.clone()));
        } else {
            builder = builder.order_by(QueryOrder::Asc(ordering.field.clone()));
        }
    }
    if let Some(page) = &query.pagination {
        if let Some(limit) = page.limit {
            builder = builder.limit(limit);
        }
        if let Some(offset) = page.offset {
            builder = builder.offset(offset);
        }
    }
    let ghost b = builder;
    proof {
        assert(history_builder_ok(b, *query));
    }
    builder.build()
}

/// Whether the history query binds a value: a string, or a number that is an
/// `i64`.
pub open spec fn history_bindable(v: JsonValue) -> bool {
    v is String || v is Number
}

/// Whether every value is one the history query binds.
pub open spec fn query_bindable(params: Seq<JsonValue>) -> bool {
    forall|i: int| 0 <= i < params.len() ==> history_bindable(#[trigger] params[i])
}

/// The message with which a value that the query does not bind is refused.
pub open spec fn refusal_message(v: JsonValue) -> Seq<char> {
    if v is NumberText {
        "Unsupported number type"@
    } else {
        "Unsupported parameter type"@
    }
}

/// Checks the values of a query before they are bound: the first value that
/// is neither a string nor an `i64` number is refused, a number with
/// "Unsupported number type" and any other value with "Unsupported parameter
/// type".
pub fn check_query_params(params: &Vec<JsonValue>) -> (r: Result<(), String>)
    ensures
        r is Ok <==> query_bindable(params@),
        r matches Err(m) ==> exists|k: int|
            0 <= k < params@.len() && query_bindable(params@.take(k)) && !history_bindable(
                params@[k],
            ) && m@ == refusal_message(params@[k]),
{
    let mut i: usize = 0;
    while i < params.len()
        invariant
            i <= params@.len(),
            query_bindable(params@.take(i as int)),
        decreases params.len() - i,
    {
        proof {
            reveal_strlit("Unsupported number type");
            reveal_strlit("Unsupported parameter type");
        }
        match &params[i] {
            JsonValue::String(_) => {},
            JsonValue::Number(_) => {},
            JsonValue::NumberText(_) => {
                return Err(owned("Unsupported number type"));
            },
            _ => {
                return Err(owned("Unsupported parameter type"));
            },
        }
        proof {
            assert forall|k: int| 0 <= k < i + 1 implies history_bindable(
                #[trigger] params@.take(i + 1)[k],
            ) by {
                if k < i {
                    assert(params@.take(i + 1)[k] == params@.take(i as int)[k]);
                }
            }
        }
        i += 1;
    }
    assert(params@.take(params@.len() as int) =~= params@);
    Ok(())
}

/// A text value, or null.
pub open spec fn text_or_null(v: JsonValue, t: Option<String>) -> bool {
    match t {
        Some(s) => v matches JsonValue::String(x) && x@ == s@,
        None => v == JsonValue::Null,
    }
}

/// A number value, or null.
pub open spec fn number_or_null(v: JsonValue, n: Option<int>) -> bool {
    match n {
        Some(x) => v == JsonValue::Number(x as i64),
        None => v == JsonValue::Null,
    }
}

fn text_value(t: &Option<String>) -> (r: JsonValue)
    ensures
        text_or_null(r, *t),
{
    match t {
        Some(s) => JsonValue::String(s.clone()),
        None => JsonValue::Null,
    }
}

/// The INSERT builder that stores an entry: the entry's fields by column,
/// absent ones as null.
pub open spec fn history_insert_ok(b: InsertBuilder, e: CommandHistoryEntry) -> bool {
    let m = field_map(b.fields@);
    &&& b.table@ == "command_history"@
    &&& b.on_conflict is None
    &&& b.wf()
    &&& m.dom() == set![
        "command"@,
        "working_directory"@,
        "exit_code"@,
        "output"@,
        "duration_ms"@,
        "executed_at"@,
        "session_id"@,
        "tags"@,
    ]
    &&& m["command"@] matches JsonValue::String(c) && c@ == e.command@
    &&& m["working_directory"@] matches JsonValue::String(w) && w@
        == e.working_directory@
    &&& number_or_null(
        m["exit_code"@],
        match e.exit_code {
            Some(c) => Some(c as int),
            None => None,
        },
    )
    &&& text_or_null(m["output"@], e.output)
    &&& number_or_null(
        m["duration_ms"@],
        match e.duration_ms {
            Some(d) => Some(d as int),
            None => None,
        },
    )
    &&& m["executed_at"@] matches JsonValue::String(x) && x@ == e.executed_at@
    &&& text_or_null(m["session_id"@], e.session_id)
    &&& text_or_null(m["tags"@], e.tags)
}

/// The INSERT statement that stores an entry and its values: the entry's
/// fields by column, absent ones as null.
pub fn history_insert_sql(entry: &CommandHistoryEntry) -> (r: Result<(String, Vec<JsonValue>), QueryBuilderError>)
    ensures
        r matches Ok((sql, params)) && exists|b: InsertBuilder|
            #[trigger] history_insert_ok(b, *entry) && sql@ == crate::storage::query::insert_statement(b)
                && params@ == crate::storage::query::field_values(b.fields@),
{
    let exit_code = match entry.exit_code {
        Some(c) => JsonValue::Number(c as i64),
        None => JsonValue::Null,
    };
    let duration = match entry.duration_ms {
        Some(d) => JsonValue::Number(d),
        None => JsonValue::Null,
    };
    let b0 = InsertBuilder::new(owned("command_history"));
    proof {
        assert(field_map(b0.fields@) =~= Map::<Seq<char>, JsonValue>::empty());
    }
    let command = JsonValue::String(entry.command.clone());
    let directory = JsonValue::String(entry.working_directory.clone());
    let output = text_value(&entry.output);
    let executed = JsonValue::String(entry.executed_at.clone());
    let session = text_value(&entry.session_id);
    let tags = text_value(&entry.tags);
    let ghost vals = seq![command, directory, exit_code, output, duration, executed, session, tags];
    let b = b0.set(owned("command"), command)
        .set(owned("working_directory"), directory)
        .set(owned("exit_code"), exit_code)
        .set(owned("output"), output)
        .set(owned("duration_ms"), duration)
        .set(owned("executed_at"), executed)
        .set(owned("session_id"), session)
        .set(owned("tags"), tags);
    let ghost g = b;
    proof {
        reveal_strlit("command");
        reveal_strlit("working_directory");
        reveal_strlit("exit_code");
        reveal_strlit("output");
        reveal_strlit("duration_ms");
        reveal_strlit("executed_at");
        reveal_strlit("session_id");
        reveal_strlit("tags");
        let m = Map::<Seq<char>, JsonValue>::empty().insert("command"@, vals[0]).insert(
            "working_directory"@,
            vals[1],
        ).insert("exit_code"@, vals[2]).insert("output"@, vals[3]).insert(
            "duration_ms"@,
            vals[4],
        ).insert("executed_at"@, vals[5]).insert("session_id"@, vals[6]).insert(
            "tags"@,
            vals[7],
        );
        assert(field_map(g.fields@) == m);
        assert("duration_ms"@[1] != "executed_at"@[1]);
        assert("command"@.len() == 7 && "working_directory"@.len() == 17 && "exit_code"@.len()
            == 9 && "output"@.len() == 6 && "duration_ms"@.len() == 11 && "executed_at"@.len()
            == 11 && "session_id"@.len() == 10 && "tags"@.len() == 4);
        assert(m["command"@] == vals[0]);
        assert(m["working_directory"@] == vals[1]);
        assert(m["exit_code"@] == vals[2]);
        assert(m["output"@] == vals[3]);
        assert(m["duration_ms"@] == vals[4]);
        assert(m["executed_at"@] == vals[5]);
        assert(m["session_id"@] == vals[6]);
        assert(m["tags"@] == vals[7]);
        assert(m.dom() =~= set![
            "command"@,
            "working_directory"@,
            "exit_code"@,
            "output"@,
            "duration_ms"@,
            "executed_at"@,
            "session_id"@,
            "tags"@,
        ]);
        assert(history_insert_ok(g, *entry));
        assert(g.fields@.len() > 0) by {
            if g.fields@.len() == 0 {
                assert(field_map(g.fields@) =~= Map::<Seq<char>, JsonValue>::empty());
                assert(m.contains_key("tags"@));
            }
        }
    }
    b.build()
}

/// The key of a command's usage statistics: the MD5 digest of the command,
/// in lower-case hexadecimal.
pub fn command_hash(command: &str) -> (r: String)
    ensures
        r@ == md5_hex(command@),
{
    md5_hex_digest(command)
}

/// The query of the latest activity: the 20 commands run last.
pub fn recent_activity_query() -> (r: HistoryQuery)
    ensures
        r.command_pattern is None,
        r.working_directory is None,
        r.date_from is None,
        r.date_to is None,
        r.session_id is None,
        r.pagination == Some(HistoryPage { limit: Some(20), offset: None }),
        r.ordering matches Some(o) && o.field@ == "executed_at"@ && o.desc,
{
    HistoryQuery { pagination: Some(HistoryPage { limit: Some(20), offset: None }), ..HistoryQuery::default() }
}

/// A statement that stores an entry: the INSERT of an entry's builder.
pub open spec fn stores_entry(st: (String, Vec<JsonValue>), e: CommandHistoryEntry) -> bool {
    exists|b: InsertBuilder|
        #[trigger] history_insert_ok(b, e) && st.0@ == crate::storage::query::insert_statement(b)
            && st.1@ == crate::storage::query::field_values(b.fields@)
}

/// The statements that store a batch of entries, one INSERT per entry in
/// order; none for an empty batch.
pub fn batch_save_statements(entries: &Vec<CommandHistoryEntry>) -> (r: Vec<(String, Vec<JsonValue>)>)
    ensures
        r@.len() == entries@.len(),
        forall|i: int| 0 <= i < r@.len() ==> stores_entry(#[trigger] r@[i], entries@[i]),
{
    let mut out: Vec<(String, Vec<JsonValue>)> = Vec::new();
    let mut i: usize = 0;
    while i < entries.len()
        invariant
            i <= entries@.len(),
            out@.len() == i,
            forall|k: int| 0 <= k < i ==> stores_entry(#[trigger] out@[k], entries@[k]),
        decreases entries.len() - i,
    {
        match history_insert_sql(&entries[i]) {
            Ok(st) => {
                assert(stores_entry(st, entries@[i as int]));
                out.push(st);
            },
            Err(_) => {
                assert(false);
            },
        }
        i += 1;
    }
    out
}

/// The upsert that counts a use of a command in a directory.
pub open spec fn usage_stats_sql() -> Seq<char> {
    "INSERT INTO command_usage_stats (command_hash, command, working_directory, usage_count, last_used, avg_duration_ms) VALUES (?, ?, ?, 1, ?, ?) ON CONFLICT(command_hash, working_directory) DO UPDATE SET usage_count = usage_count + 1, last_used = excluded.last_used, avg_duration_ms = (avg_duration_ms * (usage_count - 1) + excluded.avg_duration_ms) / usage_count"@
}

/// The statement that counts a use of an entry's command: the command's
/// hash, the command, its directory, when it ran and how long it took (0
/// when unknown).
pub fn usage_stats_statement(entry: &CommandHistoryEntry) -> (r: (String, Vec<JsonValue>))
    ensures
        r.0@ == usage_stats_sql(),
        r.1@.len() == 5,
        r.1@[0] matches JsonValue::String(h) && h@ == md5_hex(entry.command@),
        r.1@[1] == JsonValue::String(entry.command),
        r.1@[2] == JsonValue::String(entry.working_directory),
        r.1@[3] == JsonValue::String(entry.executed_at),
        r.1@[4] == JsonValue::Number(match entry.duration_ms {
            Some(d) => d,
            None => 0,
        }),
{
    let sql = owned("INSERT INTO command_usage_stats (command_hash, command, working_directory, usage_count, last_used, avg_duration_ms) VALUES (?, ?, ?, 1, ?, ?) ON CONFLICT(command_hash, working_directory) DO UPDATE SET usage_count = usage_count + 1, last_used = excluded.last_used, avg_duration_ms = (avg_duration_ms * (usage_count - 1) + excluded.avg_duration_ms) / usage_count");
    let mut params: Vec<JsonValue> = Vec::new();
    params.push(JsonValue::String(command_hash(entry.command.as_str())));
    params.push(JsonValue::String(entry.command.clone()));
    params.push(JsonValue::String(entry.working_directory.clone()));
    params.push(JsonValue::String(entry.executed_at.clone()));
    params.push(JsonValue::Number(match entry.duration_ms {
        Some(d) => d,
        None => 0,
    }));
    (sql, params)
}

/// Entries are never changed once stored.
pub fn update_refused() -> (r: Result<(), String>)
    ensures
        r matches Err(m) && m@ == "Command history does not support update operations"@,
{
    Err(owned("Command history does not support update operations"))
}

/// The outcome of deleting entry `id`, from the number of rows the DELETE
/// removed: refused when it removed none.
pub fn delete_outcome(id: i64, rows_affected: u64) -> (r: Result<(), String>)
    ensures
        rows_affected > 0 ==> r is Ok,
        rows_affected == 0 ==> (r matches Err(m) && m@ == "Command history entry does not exist: "@
            + int_text(id as int)),
{
    if rows_affected == 0 {
        let mut m = chars_of("Command history entry does not exist: ");
        push_int(&mut m, id);
        return Err(string_of(&m));
    }
    Ok(())
}


// The remaining statements of the command history.

/// The SQL of `full_text_search_statement`.
pub open spec fn history_search_sql() -> Seq<char> {
    r#"
            SELECT ch.id, ch.command, ch.working_directory, ch.output, ch.executed_at,
                   snippet(command_search, 0, '<mark>', '</mark>', '...', 32) as command_snippet,
                   snippet(command_search, 1, '<mark>', '</mark>', '...', 64) as output_snippet
            FROM command_search
            JOIN command_history ch ON command_search.rowid = ch.id
            WHERE command_search MATCH ?
            ORDER BY rank
            LIMIT 50
        "#@
}

/// The SQL of `total_commands_statement`.
pub open spec fn history_total_sql() -> Seq<char> {
    "SELECT COUNT(*) FROM command_history"@
}

/// The SQL of `unique_commands_statement`.
pub open spec fn history_unique_sql() -> Seq<char> {
    "SELECT COUNT(DISTINCT command) FROM command_history"@
}

/// The SQL of `average_duration_statement`.
pub open spec fn history_average_sql() -> Seq<char> {
    "SELECT AVG(duration_ms) FROM command_history WHERE duration_ms IS NOT NULL"@
}

/// The SQL of `most_used_commands_statement`.
pub open spec fn history_most_used_sql() -> Seq<char> {
    r#"
            SELECT command, COUNT(*) as usage_count
            FROM command_history
            GROUP BY command
            ORDER BY usage_count DESC
            LIMIT 10
        "#@
}

/// The SQL of `delete_statement`.
pub open spec fn history_delete_sql() -> Seq<char> {
    "DELETE FROM command_history WHERE id = ?"@
}

/// The statements of the command history that the free functions above do
/// not build; running them is the caller's part.
pub struct CommandHistoryRepository;

impl CommandHistoryRepository {
    /// The full-text search of the history: the fifty best matches of `search_query`, with marked snippets of the command and output.
    pub fn full_text_search_statement(search_query: &str) -> (r: (String, Vec<JsonValue>))
        ensures
            r.0@ == history_search_sql(),
            r.1@.len() == 1,
            text_is(r.1@[0], search_query@),
    {
        let mut params: Vec<JsonValue> = Vec::new();
        params.push(JsonValue::String(owned(search_query)));
        (owned(r#"
            SELECT ch.id, ch.command, ch.working_directory, ch.output, ch.executed_at,
                   snippet(command_search, 0, '<mark>', '</mark>', '...', 32) as command_snippet,
                   snippet(command_search, 1, '<mark>', '</mark>', '...', 64) as output_snippet
            FROM command_search
            JOIN command_history ch ON command_search.rowid = ch.id
            WHERE command_search MATCH ?
            ORDER BY rank
            LIMIT 50
        "#), params)
    }

    /// The query of the number of commands run.
    pub fn total_commands_statement() -> (r: (String, Vec<JsonValue>))
        ensures
            r.0@ == history_total_sql(),
            r.1@.len() == 0,
    {
        (owned("SELECT COUNT(*) FROM command_history"), Vec::new())
    }

    /// The query of the number of different commands run.
    pub fn unique_commands_statement() -> (r: (String, Vec<JsonValue>))
        ensures
            r.0@ == history_unique_sql(),
            r.1@.len() == 0,
    {
        (owned("SELECT COUNT(DISTINCT command) FROM command_history"), Vec::new())
    }

    /// The query of the mean duration of the commands whose duration is known.
    pub fn average_duration_statement() -> (r: (String, Vec<JsonValue>))
        ensures
            r.0@ == history_average_sql(),
            r.1@.len() == 0,
    {
        (owned("SELECT AVG(duration_ms) FROM command_history WHERE duration_ms IS NOT NULL"), Vec::new())
    }

    /// The query of the ten most run commands with their counts.
    pub fn most_used_commands_statement() -> (r: (String, Vec<JsonValue>))
        ensures
            r.0@ == history_most_used_sql(),
            r.1@.len() == 0,
    {
        (owned(r#"
            SELECT command, COUNT(*) as usage_count
            FROM command_history
            GROUP BY command
            ORDER BY usage_count DESC
            LIMIT 10
        "#), Vec::new())
    }

    /// The statement that drops history entry `id`.
    pub fn delete_statement(id: i64) -> (r: (String, Vec<JsonValue>))
        ensures
            r.0@ == history_delete_sql(),
            r.1@.len() == 1,
            r.1@[0] == JsonValue::Number(id),
    {
        let mut params: Vec<JsonValue> = Vec::new();
        params.push(JsonValue::Number(id));
        (owned("DELETE FROM command_history WHERE id = ?"), params)
    }

    /// The query of history entry `id`.
    pub fn find_by_id_statement(id: i64) -> (r: (String, Vec<JsonValue>))
        ensures
            r.0@ == select_all_where_sql("command_history"@, "id"@),
            r.1@ == seq![JsonValue::Number(id)],
    {
        select_all_where_eq("command_history", "id", JsonValue::Number(id))
    }
}

} // verus!
