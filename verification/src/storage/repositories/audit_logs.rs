//! The audit log: what was done to which table, and whether it worked.
use vstd::prelude::*;
use crate::clock::utc_now_rfc3339;
use crate::json::JsonValue;
use crate::storage::error::RepositoryError;
use crate::storage::query::{
    column, cond_params, cond_sql, differs_from_all, distinct_names, field_names, insert_row, insert_sql,
    join_seq, joins_sql, lemma_distinct_names, list_params, list_sql, order_sql, select_params,
    select_statement, text_or_null, text_value, texts, QueryCondition, QueryOrder,
    SafeQueryBuilder,
};
use crate::text::{int_text, owned, push_int, string_of};

verus! {

/// One entry of the audit log.
#[derive(Debug, Clone)]
pub struct AuditLogEntry {
    pub id: Option<i64>,
    pub operation: String,
    pub table_name: String,
    pub record_id: Option<String>,
    pub user_context: Option<String>,
    pub details: String,
    /// RFC 3339, UTC
    pub timestamp: String,
    pub success: bool,
    pub error_message: Option<String>,
}

impl AuditLogEntry {
    /// An entry made now.
    pub fn new(
        operation: String,
        table_name: String,
        record_id: Option<String>,
        user_context: Option<String>,
        details: String,
        success: bool,
        error_message: Option<String>,
    ) -> (r: Self)
        ensures
            r.id is None,
            r.operation == operation,
            r.table_name == table_name,
            r.record_id == record_id,
            r.user_context == user_context,
            r.details == details,
            r.success == success,
            r.error_message == error_message,
    {
        AuditLogEntry {
            id: None,
            operation,
            table_name,
            record_id,
            user_context,
            details,
            timestamp: utc_now_rfc3339(),
            success,
            error_message,
        }
    }
}

/// The columns written for an entry (its time is the database's).
pub open spec fn audit_columns() -> Seq<Seq<char>> {
    seq![
        "operation"@,
        "table_name"@,
        "record_id"@,
        "user_context"@,
        "details"@,
        "success"@,
        "error_message"@,
    ]
}

/// The fields read back for an entry.
pub open spec fn audit_select_fields() -> Seq<Seq<char>> {
    seq![
        "id"@,
        "operation"@,
        "table_name"@,
        "record_id"@,
        "user_context"@,
        "details"@,
        "timestamp"@,
        "success"@,
        "error_message"@,
    ]
}

/// The columns of an entry's row are named once each.
proof fn lemma_audit_columns_distinct()
    ensures
        distinct_names(audit_columns()),
{
    reveal_strlit("details");
    reveal_strlit("error_message");
    reveal_strlit("operation");
    reveal_strlit("record_id");
    reveal_strlit("success");
    reveal_strlit("table_name");
    reveal_strlit("user_context");
    assert("details"@.len() == 7);
    assert("error_message"@.len() == 13);
    assert("operation"@.len() == 9);
    assert("record_id"@.len() == 9);
    assert("success"@.len() == 7);
    assert("table_name"@.len() == 10);
    assert("user_context"@.len() == 12);
    assert("operation"@[0] != "record_id"@[0]);
    assert("details"@[0] != "success"@[0]);
    let n = audit_columns();
    assert(n[0] == "operation"@);
    assert(n[1] == "table_name"@);
    assert(n[2] == "record_id"@);
    assert(n[3] == "user_context"@);
    assert(n[4] == "details"@);
    assert(n[5] == "success"@);
    assert(n[6] == "error_message"@);
    reveal_with_fuel(distinct_names, 8);
    reveal_with_fuel(differs_from_all, 7);
}

/// The filters of a log query: the table, then the operation, each when
/// given.
pub open spec fn audit_filters(table_name: Option<Seq<char>>, operation: Option<Seq<char>>) -> Seq<Seq<char>> {
    (match table_name {
        Some(_) => seq!["table_name"@ + " = ?"@],
        None => Seq::empty(),
    }) + (match operation {
        Some(_) => seq!["operation"@ + " = ?"@],
        None => Seq::empty(),
    })
}

/// The SELECT of a log query: the entry's fields, the filters joined by
/// AND, newest first, at most `limit` when one is given.
pub open spec fn find_logs_sql(table_name: Option<Seq<char>>, operation: Option<Seq<char>>, has_limit: bool) -> Seq<char> {
    let filters = audit_filters(table_name, operation);
    "SELECT "@ + join_seq(audit_select_fields(), ", "@) + " FROM "@ + "audit_logs"@ + (if filters.len() > 0 {
        " WHERE "@ + join_seq(filters, " AND "@)
    } else {
        Seq::empty()
    }) + " ORDER BY "@ + "timestamp"@ + " DESC"@ + (if has_limit {
        " LIMIT ?"@
    } else {
        Seq::empty()
    })
}

/// The text of an optional string.
pub open spec fn opt_text(v: Option<String>) -> Option<Seq<char>> {
    match v {
        Some(s) => Some(s@),
        None => None,
    }
}

/// The values of a log query: the table, the operation, the limit, each
/// when given.
pub open spec fn find_logs_params(table_name: Option<String>, operation: Option<String>, limit: Option<i64>) -> Seq<JsonValue> {
    (match table_name {
        Some(t) => seq![JsonValue::String(t)],
        None => Seq::empty(),
    }) + (match operation {
        Some(o) => seq![JsonValue::String(o)],
        None => Seq::empty(),
    }) + (match limit {
        Some(l) => seq![JsonValue::Number(l)],
        None => Seq::empty(),
    })
}

/// The statements of the audit log; running them is the caller's part.
pub struct AuditLogRepository;

impl AuditLogRepository {
    /// The query of the log entries of a table and of an operation (each
    /// when given), newest first, at most `limit` of them when given; the
    /// values are the table, the operation and the limit, in that order.
    pub fn find_logs_statement(table_name: Option<String>, operation: Option<String>, limit: Option<i64>) -> (r: (
        String,
        Vec<JsonValue>,
    ))
        ensures
            r.0@ == find_logs_sql(opt_text(table_name), opt_text(operation), limit is Some),
            r.1@ == find_logs_params(table_name, operation, limit),
    {
        let fields: [&str; 9] = [
            "id",
            "operation",
            "table_name",
            "record_id",
            "user_context",
            "details",
            "timestamp",
            "success",
            "error_message",
        ];
        let order = QueryOrder::Desc(owned("timestamp"));
        let ghost ord = order;
        let mut b = SafeQueryBuilder::new(owned("audit_logs")).select(&fields).order_by(order);
        let ghost mut conds: Seq<QueryCondition> = Seq::empty();
        let ghost tn = table_name;
        let ghost op = operation;
        if let Some(t) = table_name {
            let c = QueryCondition::Eq(owned("table_name"), JsonValue::String(t));
            proof {
                conds = conds.push(c);
            }
            b = b.where_condition(c);
        }
        if let Some(o) = operation {
            let c = QueryCondition::Eq(owned("operation"), JsonValue::String(o));
            proof {
                conds = conds.push(c);
            }
            b = b.where_condition(c);
        }
        if let Some(l) = limit {
            b = b.limit(l);
        }
        let ghost bf = b;
        proof {
            assert(texts(bf.select_fields@) =~= audit_select_fields());
            assert(bf.orders@ =~= seq![ord]);
            assert(bf.orders@.map_values(|o: QueryOrder| order_sql(o)) =~= seq!["timestamp"@ + " DESC"@]);
            assert(joins_sql(bf.joins@) =~= Seq::<char>::empty());
            assert(bf.conditions@ =~= conds);
            let filters = audit_filters(opt_text(tn), opt_text(op));
            let ft = "table_name"@ + " = ?"@;
            let fo = "operation"@ + " = ?"@;
            if tn is Some && op is Some {
                assert(filters =~= seq![ft, fo]);
                assert(cond_sql(conds[0]) == ft);
                assert(cond_sql(conds[1]) == fo);
                assert(conds.drop_last() =~= seq![conds[0]]);
                assert(filters.drop_last() =~= seq![ft]);
                assert(conds.drop_last().drop_last() =~= Seq::<QueryCondition>::empty());
                assert(list_sql(conds.drop_last(), " AND "@) == ft);
                assert(join_seq(filters.drop_last(), " AND "@) == ft);
                assert(list_sql(conds, " AND "@) == ft + " AND "@ + fo);
                assert(list_params(conds.drop_last()) == list_params(conds.drop_last().drop_last())
                    + cond_params(conds[0]));
                assert(list_params(conds.drop_last().drop_last()) =~= Seq::<JsonValue>::empty());
                assert(cond_params(conds[0]) =~= seq![JsonValue::String(tn->0)]);
                assert(cond_params(conds[1]) =~= seq![JsonValue::String(op->0)]);
                assert(list_params(conds) == list_params(conds.drop_last()) + cond_params(conds[1]));
            } else if tn is Some {
                assert(filters =~= seq![ft]);
                assert(cond_sql(conds[0]) == ft);
                assert(conds.drop_last() =~= Seq::<QueryCondition>::empty());
                assert(list_params(conds) == list_params(conds.drop_last()) + cond_params(conds[0]));
            } else if op is Some {
                assert(filters =~= seq![fo]);
                assert(cond_sql(conds[0]) == fo);
                assert(conds.drop_last() =~= Seq::<QueryCondition>::empty());
                assert(list_params(conds) == list_params(conds.drop_last()) + cond_params(conds[0]));
            } else {
                assert(filters =~= Seq::<Seq<char>>::empty());
            }
            assert(list_sql(conds, " AND "@) == join_seq(filters, " AND "@));
            if tn is Some && op is Some {
                assert(list_params(conds) =~= seq![JsonValue::String(tn->0), JsonValue::String(op->0)]);
            } else if tn is Some || op is Some {
                assert(list_params(conds) =~= find_logs_params(tn, op, None));
            } else {
                assert(list_params(conds) =~= Seq::<JsonValue>::empty());
            }
            assert(select_params(bf) =~= find_logs_params(tn, op, limit));
            assert(select_statement(bf) =~= find_logs_sql(opt_text(tn), opt_text(op), limit is Some));
        }
        match b.build() {
            Ok(out) => out,
            Err(_) => {
                assert(false);
                (String::new(), Vec::new())
            },
        }
    }

    /// The INSERT of an entry's row into `audit_logs`, with its values in
    /// column order (see `audit_columns`).
    pub fn save_statement(entry: &AuditLogEntry) -> (r: (String, Vec<JsonValue>))
        ensures
            r.0@ == insert_sql("audit_logs"@, audit_columns()),
            r.1@.len() == 7,
            r.1@[0] == JsonValue::String(entry.operation),
            r.1@[1] == JsonValue::String(entry.table_name),
            r.1@[2] == text_or_null(entry.record_id),
            r.1@[3] == text_or_null(entry.user_context),
            r.1@[4] == JsonValue::String(entry.details),
            r.1@[5] == JsonValue::Bool(entry.success),
            r.1@[6] == text_or_null(entry.error_message),
    {
        let mut cols: Vec<(String, JsonValue)> = Vec::new();
        cols.push(column("operation", JsonValue::String(entry.operation.clone())));
        cols.push(column("table_name", JsonValue::String(entry.table_name.clone())));
        cols.push(column("record_id", text_value(&entry.record_id)));
        cols.push(column("user_context", text_value(&entry.user_context)));
        cols.push(column("details", JsonValue::String(entry.details.clone())));
        cols.push(column("success", JsonValue::Bool(entry.success)));
        cols.push(column("error_message", text_value(&entry.error_message)));
        proof {
            assert(field_names(cols@) =~= audit_columns());
            lemma_audit_columns_distinct();
            lemma_distinct_names(cols@);
        }
        insert_row("audit_logs", cols)
    }

    /// Entries are never changed once written.
    pub fn update(entry: &AuditLogEntry) -> (r: Result<(), RepositoryError>)
        ensures
            r == Err::<(), RepositoryError>(RepositoryError::AuditLogUpdateNotSupported),
    {
        Err(RepositoryError::AuditLogUpdateNotSupported)
    }

    /// The outcome of deleting entry `id`, from the number of rows the
    /// DELETE removed: refused when it removed none.
    pub fn delete_outcome(id: i64, rows_affected: u64) -> (r: Result<(), RepositoryError>)
        ensures
            rows_affected > 0 ==> r is Ok,
            rows_affected == 0 ==> (r matches Err(RepositoryError::AuditLogNotFound { id: t }) && t@
                == int_text(id as int)),
    {
        if rows_affected == 0 {
            let mut t = Vec::new();
            push_int(&mut t, id);
            return Err(RepositoryError::AuditLogNotFound { id: string_of(&t) });
        }
        Ok(())
    }
}

} // verus!
