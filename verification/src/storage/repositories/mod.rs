//! The records kept in the database, and the names under which their
//! states are stored.
use vstd::prelude::*;
use crate::text::{chars_of, extend_chars, int_text, owned, push_int, push_str, string_of};
use crate::utils::error::{error_display, error_from_message};

pub mod agent;
pub mod ai_features;
pub mod ai_models;
pub mod app_preferences;
pub mod audit_logs;
pub mod command_history;
pub mod completion_model;
pub mod conversations;
pub mod recent_workspaces;
pub mod tasks;
pub mod vector_workspaces;

verus! {

/// The error for a stored name that stands for no value: the message
/// `head` followed by the text that was read.
pub(crate) fn invalid_value(head: &str, text: &str) -> (r: anyhow::Error)
    ensures
        error_display(r) == head@ + text@,
{
    let mut m = owned(head);
    push_str(&mut m, text);
    error_from_message(m)
}

/// The SQLite date modifier that goes `days` days back.
pub open spec fn days_back_text(days: int) -> Seq<char> {
    "-"@ + int_text(days) + " days"@
}

/// The modifier `-{days} days`.
pub fn days_back(days: i32) -> (r: String)
    ensures
        r@ == days_back_text(days as int),
{
    let mut t = chars_of("-");
    push_int(&mut t, days as i64);
    let tail = chars_of(" days");
    extend_chars(&mut t, &tail);
    string_of(&t)
}

/// A window of rows: at most `limit`, after skipping `offset`.
#[derive(Debug, Clone, Copy, PartialEq, Eq, Structural)]
pub struct Pagination {
    pub limit: i64,
    pub offset: i64,
}

impl Pagination {
    pub fn new(limit: i64, offset: i64) -> (r: Self)
        ensures
            r.limit == limit,
            r.offset == offset,
    {
        Pagination { limit, offset }
    }

    /// Page `page` (counted from 1) of `size` rows.
    pub fn page(page: i64, size: i64) -> (r: Self)
        requires
            i64::MIN <= (page - 1) * size <= i64::MAX,
        ensures
            r.limit == size,
            r.offset == (page - 1) * size,
    {
        let p = page as i128 - 1;
        let offset = p * (size as i128);
        Pagination { limit: size, offset: offset as i64 }
    }
}

/// The order of rows: by one field, ascending or descending.
#[derive(Debug, Clone)]
pub struct SortOrder {
    pub field: String,
    pub desc: bool,
}

impl SortOrder {
    pub fn asc(field: &str) -> (r: Self)
        ensures
            r.field@ == field@,
            !r.desc,
    {
        SortOrder { field: owned(field), desc: false }
    }

    pub fn desc(field: &str) -> (r: Self)
        ensures
            r.field@ == field@,
            r.desc,
    {
        SortOrder { field: owned(field), desc: true }
    }
}

/// Consecutive pages of one size follow each other without gap or overlap.
pub proof fn law_pages_adjacent(page: int, size: int)
    ensures
        (page - 1) * size + size == page * size,
{
    assert((page - 1) * size + size == page * size) by (nonlinear_arith);
}

} // verus!
