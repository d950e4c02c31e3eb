//! The placeholders of the statements that the query builders write: every
//! value becomes one `?`, so a statement has as many placeholders as it has
//! values, whenever the names written into it hold no `?` themselves.
use vstd::prelude::*;
use crate::json::JsonValue;
use crate::storage::query::{
    cond_params, cond_sql, field_names, field_values, insert_statement, join_seq, joins_sql,
    list_params, list_sql, order_sql, placeholders, select_params, select_statement, texts,
    update_statement, InsertBuilder, QueryCondition, QueryOrder, SafeQueryBuilder, UpdateBuilder,
};

verus! {

/// The number of `?` in a text.
pub open spec fn marks(s: Seq<char>) -> nat
    decreases s.len(),
{
    if s.len() == 0 {
        0
    } else {
        marks(s.drop_last()) + if s.last() == '?' {
            1nat
        } else {
            0nat
        }
    }
}

/// Marks add up over a concatenation.
pub proof fn lemma_marks_add(a: Seq<char>, b: Seq<char>)
    ensures
        marks(a + b) == marks(a) + marks(b),
    decreases b.len(),
{
    if b.len() == 0 {
        assert(a + b =~= a);
    } else {
        lemma_marks_add(a, b.drop_last());
        assert((a + b).drop_last() =~= a + b.drop_last());
    }
}

/// The marks of each text of a list, added up.
pub open spec fn total_marks(items: Seq<Seq<char>>) -> nat
    decreases items.len(),
{
    if items.len() == 0 {
        0
    } else {
        total_marks(items.drop_last()) + marks(items.last())
    }
}

/// Joining with a separator without marks adds none.
pub proof fn lemma_join_marks(items: Seq<Seq<char>>, sep: Seq<char>)
    requires
        marks(sep) == 0,
    ensures
        marks(join_seq(items, sep)) == total_marks(items),
    decreases items.len(),
{
    if items.len() == 0 {
    } else if items.len() == 1 {
        assert(items.drop_last() =~= Seq::<Seq<char>>::empty());
        assert(total_marks(items.drop_last()) == 0);
        assert(items.last() == items[0]);
    } else {
        lemma_join_marks(items.drop_last(), sep);
        lemma_marks_add(join_seq(items.drop_last(), sep), sep);
        lemma_marks_add(join_seq(items.drop_last(), sep) + sep, items.last());
    }
}

proof fn lemma_marks_q()
    ensures
        marks("?"@) == 1,
        marks(", "@) == 0,
{
    reveal_strlit("?");
    reveal_strlit(", ");
    reveal_with_fuel(marks, 3);
    assert("?"@.drop_last() =~= Seq::<char>::empty());
    assert(", "@.drop_last().drop_last() =~= Seq::<char>::empty());
}

/// `n` placeholders have `n` marks.
pub proof fn lemma_placeholders_marks(n: nat)
    ensures
        marks(placeholders(n)) == n,
    decreases n,
{
    lemma_marks_q();
    let items = Seq::new(n, |i: int| "?"@);
    lemma_join_marks(items, ", "@);
    lemma_total_q(n);
}

proof fn lemma_total_q(n: nat)
    ensures
        total_marks(Seq::new(n, |i: int| "?"@)) == n,
    decreases n,
{
    lemma_marks_q();
    if n > 0 {
        lemma_total_q((n - 1) as nat);
        assert(Seq::new(n, |i: int| "?"@).drop_last() =~= Seq::new((n - 1) as nat, |i: int| "?"@));
    }
}


/// The marks of the texts that conditions are written with.
proof fn lemma_condition_texts()
    ensures
        marks(" = ?"@) == 1,
        marks(" != ?"@) == 1,
        marks(" < ?"@) == 1,
        marks(" <= ?"@) == 1,
        marks(" > ?"@) == 1,
        marks(" >= ?"@) == 1,
        marks(" LIKE ?"@) == 1,
        marks(" IN ("@) == 0,
        marks(")"@) == 0,
        marks(" IS NULL"@) == 0,
        marks(" IS NOT NULL"@) == 0,
        marks(" BETWEEN ? AND ?"@) == 2,
        marks("("@) == 0,
        marks(" AND "@) == 0,
        marks(" OR "@) == 0,
{
    reveal_strlit(" = ?");
    reveal_strlit(" != ?");
    reveal_strlit(" < ?");
    reveal_strlit(" <= ?");
    reveal_strlit(" > ?");
    reveal_strlit(" >= ?");
    reveal_strlit(" LIKE ?");
    reveal_strlit(" IN (");
    reveal_strlit(")");
    reveal_strlit(" IS NULL");
    reveal_strlit(" IS NOT NULL");
    reveal_strlit(" BETWEEN ? AND ?");
    reveal_strlit("(");
    reveal_strlit(" AND ");
    reveal_strlit(" OR ");
    reveal_with_fuel(marks, 17);
}


/// No field name of a condition holds a `?`.
pub open spec fn cond_names_free(c: QueryCondition) -> bool
    decreases c,
{
    match c {
        QueryCondition::Eq(f, _) => marks(f@) == 0,
        QueryCondition::Ne(f, _) => marks(f@) == 0,
        QueryCondition::Lt(f, _) => marks(f@) == 0,
        QueryCondition::Le(f, _) => marks(f@) == 0,
        QueryCondition::Gt(f, _) => marks(f@) == 0,
        QueryCondition::Ge(f, _) => marks(f@) == 0,
        QueryCondition::Like(f, _) => marks(f@) == 0,
        QueryCondition::In(f, _) => marks(f@) == 0,
        QueryCondition::IsNull(f) => marks(f@) == 0,
        QueryCondition::IsNotNull(f) => marks(f@) == 0,
        QueryCondition::Between(f, _, _) => marks(f@) == 0,
        QueryCondition::And(cs) => list_names_free(cs@),
        QueryCondition::Or(cs) => list_names_free(cs@),
    }
}

/// No field name of a list of conditions holds a `?`.
pub open spec fn list_names_free(cs: Seq<QueryCondition>) -> bool
    decreases cs,
{
    if cs.len() == 0 {
        true
    } else {
        list_names_free(cs.drop_last()) && cond_names_free(cs.last())
    }
}

/// A condition has one mark per value.
pub proof fn lemma_cond_marks(c: QueryCondition)
    requires
        cond_names_free(c),
    ensures
        marks(cond_sql(c)) == cond_params(c).len(),
    decreases c,
{
    lemma_condition_texts();
    match c {
        QueryCondition::Eq(f, _) => lemma_marks_add(f@, " = ?"@),
        QueryCondition::Ne(f, _) => lemma_marks_add(f@, " != ?"@),
        QueryCondition::Lt(f, _) => lemma_marks_add(f@, " < ?"@),
        QueryCondition::Le(f, _) => lemma_marks_add(f@, " <= ?"@),
        QueryCondition::Gt(f, _) => lemma_marks_add(f@, " > ?"@),
        QueryCondition::Ge(f, _) => lemma_marks_add(f@, " >= ?"@),
        QueryCondition::Like(f, _) => lemma_marks_add(f@, " LIKE ?"@),
        QueryCondition::In(f, vs) => {
            let p = placeholders(vs@.len());
            lemma_placeholders_marks(vs@.len());
            lemma_marks_add(f@, " IN ("@);
            lemma_marks_add(f@ + " IN ("@, p);
            lemma_marks_add(f@ + " IN ("@ + p, ")"@);
        },
        QueryCondition::IsNull(f) => lemma_marks_add(f@, " IS NULL"@),
        QueryCondition::IsNotNull(f) => lemma_marks_add(f@, " IS NOT NULL"@),
        QueryCondition::Between(f, _, _) => lemma_marks_add(f@, " BETWEEN ? AND ?"@),
        QueryCondition::And(cs) => {
            let l = list_sql(cs@, " AND "@);
            lemma_list_marks(cs@, " AND "@);
            lemma_marks_add("("@, l);
            lemma_marks_add("("@ + l, ")"@);
        },
        QueryCondition::Or(cs) => {
            let l = list_sql(cs@, " OR "@);
            lemma_list_marks(cs@, " OR "@);
            lemma_marks_add("("@, l);
            lemma_marks_add("("@ + l, ")"@);
        },
    }
}

/// A list of conditions joined by a separator without marks has one mark
/// per value.
pub proof fn lemma_list_marks(cs: Seq<QueryCondition>, sep: Seq<char>)
    requires
        list_names_free(cs),
        marks(sep) == 0,
    ensures
        marks(list_sql(cs, sep)) == list_params(cs).len(),
    decreases cs,
{
    if cs.len() == 0 {
    } else if cs.len() == 1 {
        lemma_cond_marks(cs[0]);
        assert(cs.drop_last() =~= Seq::<QueryCondition>::empty());
        assert(list_params(cs.drop_last()) =~= Seq::<JsonValue>::empty());
        assert(cs.last() == cs[0]);
    } else {
        lemma_list_marks(cs.drop_last(), sep);
        lemma_cond_marks(cs.last());
        lemma_marks_add(list_sql(cs.drop_last(), sep), sep);
        lemma_marks_add(list_sql(cs.drop_last(), sep) + sep, cond_sql(cs.last()));
    }
}


/// The marks of the texts that statements are written with.
proof fn lemma_statement_texts()
    ensures
        marks("SELECT "@) == 0,
        marks(" FROM "@) == 0,
        marks(" WHERE "@) == 0,
        marks(" ORDER BY "@) == 0,
        marks(" ASC"@) == 0,
        marks(" DESC"@) == 0,
        marks(" LIMIT ?"@) == 1,
        marks(" OFFSET ?"@) == 1,
        marks(" "@) == 0,
        marks("INSERT OR "@) == 0,
        marks(" INTO "@) == 0,
        marks(" ("@) == 0,
        marks(") VALUES ("@) == 0,
        marks("INSERT INTO "@) == 0,
        marks("UPDATE "@) == 0,
        marks(" SET "@) == 0,
{
    reveal_strlit("SELECT ");
    reveal_strlit(" FROM ");
    reveal_strlit(" WHERE ");
    reveal_strlit(" ORDER BY ");
    reveal_strlit(" ASC");
    reveal_strlit(" DESC");
    reveal_strlit(" LIMIT ?");
    reveal_strlit(" OFFSET ?");
    reveal_strlit(" ");
    reveal_strlit("INSERT OR ");
    reveal_strlit(" INTO ");
    reveal_strlit(" (");
    reveal_strlit(") VALUES (");
    reveal_strlit("INSERT INTO ");
    reveal_strlit("UPDATE ");
    reveal_strlit(" SET ");
    reveal_with_fuel(marks, 13);
}

/// A list of texts without marks has none in all.
proof fn lemma_total_zero(items: Seq<Seq<char>>)
    requires
        forall|i: int| 0 <= i < items.len() ==> marks(#[trigger] items[i]) == 0,
    ensures
        total_marks(items) == 0,
    decreases items.len(),
{
    if items.len() > 0 {
        lemma_total_zero(items.drop_last());
    }
}

/// A list of texts with one mark each has as many marks as texts.
proof fn lemma_total_ones(items: Seq<Seq<char>>)
    requires
        forall|i: int| 0 <= i < items.len() ==> marks(#[trigger] items[i]) == 1,
    ensures
        total_marks(items) == items.len(),
    decreases items.len(),
{
    if items.len() > 0 {
        lemma_total_ones(items.drop_last());
    }
}

/// JOIN clauses without marks add none.
proof fn lemma_joins_marks(js: Seq<String>)
    requires
        forall|i: int| 0 <= i < js.len() ==> marks((#[trigger] js[i])@) == 0,
    ensures
        marks(joins_sql(js)) == 0,
    decreases js.len(),
{
    lemma_statement_texts();
    if js.len() > 0 {
        lemma_joins_marks(js.drop_last());
        lemma_marks_add(joins_sql(js.drop_last()), " "@);
        lemma_marks_add(joins_sql(js.drop_last()) + " "@, js.last()@);
    }
}

/// The field a sort key sorts by.
pub open spec fn order_field(o: QueryOrder) -> Seq<char> {
    match o {
        QueryOrder::Asc(f) => f@,
        QueryOrder::Desc(f) => f@,
    }
}

/// No name that a SELECT builder writes into its statement holds a `?`:
/// the table, the fields, the JOIN clauses, the sort keys and the fields of
/// the conditions.
pub open spec fn select_names_free(b: SafeQueryBuilder) -> bool {
    &&& marks(b.table@) == 0
    &&& forall|i: int| 0 <= i < b.select_fields@.len() ==> marks((#[trigger] b.select_fields@[i])@) == 0
    &&& forall|i: int| 0 <= i < b.joins@.len() ==> marks((#[trigger] b.joins@[i])@) == 0
    &&& forall|i: int| 0 <= i < b.orders@.len() ==> marks(order_field(#[trigger] b.orders@[i])) == 0
    &&& list_names_free(b.conditions@)
}

/// Every value of a SELECT stands at one `?` of its text: the statement of
/// a builder whose names hold no `?` has exactly as many placeholders as it
/// has values.
pub proof fn law_select_placeholders(b: SafeQueryBuilder)
    requires
        select_names_free(b),
    ensures
        marks(select_statement(b)) == select_params(b).len(),
{
    lemma_statement_texts();
    lemma_marks_q();
    let fields = texts(b.select_fields@);
    assert forall|i: int| 0 <= i < fields.len() implies marks(#[trigger] fields[i]) == 0 by {
        assert(fields[i] == b.select_fields@[i]@);
    }
    lemma_total_zero(fields);
    lemma_join_marks(fields, ", "@);
    lemma_joins_marks(b.joins@);
    let where_part = if b.conditions@.len() > 0 {
        " WHERE "@ + list_sql(b.conditions@, " AND "@)
    } else {
        Seq::empty()
    };
    lemma_condition_texts();
    lemma_list_marks(b.conditions@, " AND "@);
    lemma_marks_add(" WHERE "@, list_sql(b.conditions@, " AND "@));
    assert(marks(where_part) == list_params(b.conditions@).len());
    let keys = b.orders@.map_values(|o: QueryOrder| order_sql(o));
    assert forall|i: int| 0 <= i < keys.len() implies marks(#[trigger] keys[i]) == 0 by {
        let o = b.orders@[i];
        match o {
            QueryOrder::Asc(f) => lemma_marks_add(f@, " ASC"@),
            QueryOrder::Desc(f) => lemma_marks_add(f@, " DESC"@),
        }
    }
    lemma_total_zero(keys);
    lemma_join_marks(keys, ", "@);
    let order_part = if b.orders@.len() > 0 {
        " ORDER BY "@ + join_seq(keys, ", "@)
    } else {
        Seq::empty()
    };
    lemma_marks_add(" ORDER BY "@, join_seq(keys, ", "@));
    assert(marks(order_part) == 0);
    let limit_part = if b.limit is Some {
        " LIMIT ?"@
    } else {
        Seq::empty()
    };
    let offset_part = if b.offset is Some {
        " OFFSET ?"@
    } else {
        Seq::empty()
    };
    let p1 = "SELECT "@ + join_seq(fields, ", "@);
    let p2 = p1 + " FROM "@;
    let p3 = p2 + b.table@;
    let p4 = p3 + joins_sql(b.joins@);
    let p5 = p4 + where_part;
    let p6 = p5 + order_part;
    let p7 = p6 + limit_part;
    let p8 = p7 + offset_part;
    lemma_marks_add("SELECT "@, join_seq(fields, ", "@));
    lemma_marks_add(p1, " FROM "@);
    lemma_marks_add(p2, b.table@);
    lemma_marks_add(p3, joins_sql(b.joins@));
    lemma_marks_add(p4, where_part);
    lemma_marks_add(p5, order_part);
    lemma_marks_add(p6, limit_part);
    lemma_marks_add(p7, offset_part);
    assert(select_statement(b) == p8);
}

/// No name that an INSERT builder writes into its statement holds a `?`.
pub open spec fn insert_names_free(b: InsertBuilder) -> bool {
    &&& marks(b.table@) == 0
    &&& forall|i: int| 0 <= i < b.fields@.len() ==> marks((#[trigger] b.fields@[i]).0@) == 0
    &&& (b.on_conflict matches Some(a) ==> marks(a@) == 0)
}

/// Every value of an INSERT stands at one `?` of its text.
pub proof fn law_insert_placeholders(b: InsertBuilder)
    requires
        insert_names_free(b),
    ensures
        marks(insert_statement(b)) == field_values(b.fields@).len(),
{
    lemma_statement_texts();
    lemma_marks_q();
    lemma_condition_texts();
    let names = field_names(b.fields@);
    assert forall|i: int| 0 <= i < names.len() implies marks(#[trigger] names[i]) == 0 by {
        assert(names[i] == b.fields@[i].0@);
    }
    lemma_total_zero(names);
    lemma_join_marks(names, ", "@);
    let cols = join_seq(names, ", "@);
    let n = b.fields@.len();
    lemma_placeholders_marks(n);
    let ph = placeholders(n);
    let head = match b.on_conflict {
        Some(a) => "INSERT OR "@ + a@ + " INTO "@,
        None => "INSERT INTO "@,
    };
    match b.on_conflict {
        Some(a) => {
            lemma_marks_add("INSERT OR "@, a@);
            lemma_marks_add("INSERT OR "@ + a@, " INTO "@);
        },
        None => {},
    }
    let q1 = head + b.table@;
    let q2 = q1 + " ("@;
    let q3 = q2 + cols;
    let q4 = q3 + ") VALUES ("@;
    let q5 = q4 + ph;
    let q6 = q5 + ")"@;
    lemma_marks_add(head, b.table@);
    lemma_marks_add(q1, " ("@);
    lemma_marks_add(q2, cols);
    lemma_marks_add(q3, ") VALUES ("@);
    lemma_marks_add(q4, ph);
    lemma_marks_add(q5, ")"@);
    assert(insert_statement(b) == q6);
}

/// No name that an UPDATE builder writes into its statement holds a `?`.
pub open spec fn update_names_free(b: UpdateBuilder) -> bool {
    &&& marks(b.table@) == 0
    &&& forall|i: int| 0 <= i < b.fields@.len() ==> marks((#[trigger] b.fields@[i]).0@) == 0
    &&& list_names_free(b.conditions@)
}

/// Every value of an UPDATE stands at one `?` of its text: one per field
/// set, then those of the conditions.
pub proof fn law_update_placeholders(b: UpdateBuilder)
    requires
        update_names_free(b),
    ensures
        marks(update_statement(b)) == (field_values(b.fields@) + list_params(b.conditions@)).len(),
{
    lemma_statement_texts();
    lemma_condition_texts();
    lemma_marks_q();
    let sets = field_names(b.fields@).map_values(|f: Seq<char>| f + " = ?"@);
    assert forall|i: int| 0 <= i < sets.len() implies marks(#[trigger] sets[i]) == 1 by {
        lemma_marks_add(b.fields@[i].0@, " = ?"@);
    }
    lemma_total_ones(sets);
    lemma_join_marks(sets, ", "@);
    let where_part = if b.conditions@.len() > 0 {
        " WHERE "@ + list_sql(b.conditions@, " AND "@)
    } else {
        Seq::empty()
    };
    lemma_list_marks(b.conditions@, " AND "@);
    lemma_marks_add(" WHERE "@, list_sql(b.conditions@, " AND "@));
    assert(marks(where_part) == list_params(b.conditions@).len());
    let u1 = "UPDATE "@ + b.table@;
    let u2 = u1 + " SET "@;
    let u3 = u2 + join_seq(sets, ", "@);
    let u4 = u3 + where_part;
    lemma_marks_add("UPDATE "@, b.table@);
    lemma_marks_add(u1, " SET "@);
    lemma_marks_add(u2, join_seq(sets, ", "@));
    lemma_marks_add(u3, where_part);
    assert(update_statement(b) == u4);
}

} // verus!
