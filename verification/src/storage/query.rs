//! SQL query builders: SELECT with conditions, INSERT and UPDATE.
//!
//! Table and field names are written into the SQL text as given; every value
//! becomes a `?` placeholder, and the values come back in placeholder order.
use vstd::prelude::*;
use crate::json::JsonValue;
use crate::storage::error::QueryBuilderError;
use crate::text::{chars_of, chars_eq, extend_chars, owned, string_of};

verus! {

/// A condition of a WHERE clause.
#[derive(Debug)]
pub enum QueryCondition {
    Eq(String, JsonValue),
    Ne(String, JsonValue),
    Lt(String, JsonValue),
    Le(String, JsonValue),
    Gt(String, JsonValue),
    Ge(String, JsonValue),
    Like(String, String),
    In(String, Vec<JsonValue>),
    IsNull(String),
    IsNotNull(String),
    Between(String, JsonValue, JsonValue),
    And(Vec<QueryCondition>),
    Or(Vec<QueryCondition>),
}

/// A sort key of an ORDER BY clause.
#[derive(Debug, Clone)]
pub enum QueryOrder {
    Asc(String),
    Desc(String),
}

// ---------------------------------------------------------------------------
// The SQL text that the builders produce
// ---------------------------------------------------------------------------

/// The items joined by `sep` (`[..].join(sep)`).
pub open spec fn join_seq(items: Seq<Seq<char>>, sep: Seq<char>) -> Seq<char>
    decreases items.len(),
{
    if items.len() == 0 {
        Seq::empty()
    } else if items.len() == 1 {
        items[0]
    } else {
        join_seq(items.drop_last(), sep) + sep + items.last()
    }
}

/// The texts of a list of strings.
pub open spec fn texts(v: Seq<String>) -> Seq<Seq<char>> {
    v.map_values(|s: String| s@)
}

/// `n` placeholders joined by `, `.
pub open spec fn placeholders(n: nat) -> Seq<char> {
    join_seq(Seq::new(n, |i: int| "?"@), ", "@)
}

/// The SQL of one condition.
pub open spec fn cond_sql(c: QueryCondition) -> Seq<char>
    decreases c,
{
    match c {
        QueryCondition::Eq(f, _) => f@ + " = ?"@,
        QueryCondition::Ne(f, _) => f@ + " != ?"@,
        QueryCondition::Lt(f, _) => f@ + " < ?"@,
        QueryCondition::Le(f, _) => f@ + " <= ?"@,
        QueryCondition::Gt(f, _) => f@ + " > ?"@,
        QueryCondition::Ge(f, _) => f@ + " >= ?"@,
        QueryCondition::Like(f, _) => f@ + " LIKE ?"@,
        QueryCondition::In(f, vs) => f@ + " IN ("@ + placeholders(vs@.len()) + ")"@,
        QueryCondition::IsNull(f) => f@ + " IS NULL"@,
        QueryCondition::IsNotNull(f) => f@ + " IS NOT NULL"@,
        QueryCondition::Between(f, _, _) => f@ + " BETWEEN ? AND ?"@,
        QueryCondition::And(cs) => "("@ + list_sql(cs@, " AND "@) + ")"@,
        QueryCondition::Or(cs) => "("@ + list_sql(cs@, " OR "@) + ")"@,
    }
}

/// The SQL of a list of conditions joined by `sep`.
pub open spec fn list_sql(cs: Seq<QueryCondition>, sep: Seq<char>) -> Seq<char>
    decreases cs,
{
    if cs.len() == 0 {
        Seq::empty()
    } else if cs.len() == 1 {
        cond_sql(cs[0])
    } else {
        list_sql(cs.drop_last(), sep) + sep + cond_sql(cs.last())
    }
}

/// The values of one condition, in placeholder order.
pub open spec fn cond_params(c: QueryCondition) -> Seq<JsonValue>
    decreases c,
{
    match c {
        QueryCondition::Eq(_, v) => seq![v],
        QueryCondition::Ne(_, v) => seq![v],
        QueryCondition::Lt(_, v) => seq![v],
        QueryCondition::Le(_, v) => seq![v],
        QueryCondition::Gt(_, v) => seq![v],
        QueryCondition::Ge(_, v) => seq![v],
        QueryCondition::Like(_, p) => seq![JsonValue::String(p)],
        QueryCondition::In(_, vs) => vs@,
        QueryCondition::IsNull(_) => Seq::empty(),
        QueryCondition::IsNotNull(_) => Seq::empty(),
        QueryCondition::Between(_, a, b) => seq![a, b],
        QueryCondition::And(cs) => list_params(cs@),
        QueryCondition::Or(cs) => list_params(cs@),
    }
}

/// The values of a list of conditions, in placeholder order.
pub open spec fn list_params(cs: Seq<QueryCondition>) -> Seq<JsonValue>
    decreases cs,
{
    if cs.len() == 0 {
        Seq::empty()
    } else {
        list_params(cs.drop_last()) + cond_params(cs.last())
    }
}

pub open spec fn order_sql(o: QueryOrder) -> Seq<char> {
    match o {
        QueryOrder::Asc(f) => f@ + " ASC"@,
        QueryOrder::Desc(f) => f@ + " DESC"@,
    }
}

/// Each JOIN clause preceded by a space.
pub open spec fn joins_sql(js: Seq<String>) -> Seq<char>
    decreases js.len(),
{
    if js.len() == 0 {
        Seq::empty()
    } else {
        joins_sql(js.drop_last()) + " "@ + js.last()@
    }
}

// ---------------------------------------------------------------------------
// Building the text
// ---------------------------------------------------------------------------

fn push_lit(out: &mut Vec<char>, s: &str)
    ensures
        final(out)@ == old(out)@ + s@,
{
    let v = chars_of(s);
    extend_chars(out, &v);
}

/// Appends `items` joined by `sep`.
fn push_joined(out: &mut Vec<char>, items: &Vec<String>, sep: &str)
    ensures
        final(out)@ == old(out)@ + join_seq(texts(items@), sep@),
{
    let ghost start = out@;
    let mut i: usize = 0;
    while i < items.len()
        invariant
            i <= items@.len(),
            out@ == start + join_seq(texts(items@).take(i as int), sep@),
        decreases items.len() - i,
    {
        let ghost t = texts(items@).take(i + 1);
        proof {
            assert(t.drop_last() =~= texts(items@).take(i as int));
            assert(t.last() == items@[i as int]@);
        }
        if i > 0 {
            push_lit(out, sep);
        } else {
            assert(texts(items@).take(0) =~= Seq::<Seq<char>>::empty());
        }
        push_lit(out, items[i].as_str());
        proof {
            if i == 0 {
                assert(t.len() == 1);
                assert(out@ =~= start + join_seq(t, sep@));
            } else {
                assert(out@ =~= start + join_seq(t, sep@));
            }
        }
        i += 1;
    }
    assert(texts(items@).take(items@.len() as int) =~= texts(items@));
}

/// Appends the SQL of `c` to `sql` and its values to `params`.
fn build_single_condition(c: QueryCondition, sql: &mut Vec<char>, params: &mut Vec<JsonValue>)
    ensures
        final(sql)@ == old(sql)@ + cond_sql(c),
        final(params)@ == old(params)@ + cond_params(c),
    decreases c,
{
    let ghost c0 = c;
    match c {
        QueryCondition::Eq(f, v) => {
            push_lit(sql, f.as_str());
            push_lit(sql, " = ?");
            params.push(v);
        },
        QueryCondition::Ne(f, v) => {
            push_lit(sql, f.as_str());
            push_lit(sql, " != ?");
            params.push(v);
        },
        QueryCondition::Lt(f, v) => {
            push_lit(sql, f.as_str());
            push_lit(sql, " < ?");
            params.push(v);
        },
        QueryCondition::Le(f, v) => {
            push_lit(sql, f.as_str());
            push_lit(sql, " <= ?");
            params.push(v);
        },
        QueryCondition::Gt(f, v) => {
            push_lit(sql, f.as_str());
            push_lit(sql, " > ?");
            params.push(v);
        },
        QueryCondition::Ge(f, v) => {
            push_lit(sql, f.as_str());
            push_lit(sql, " >= ?");
            params.push(v);
        },
        QueryCondition::Like(f, p) => {
            push_lit(sql, f.as_str());
            push_lit(sql, " LIKE ?");
            params.push(JsonValue::String(p));
        },
        QueryCondition::In(f, vs) => {
            push_lit(sql, f.as_str());
            push_lit(sql, " IN (");
            push_placeholders(sql, vs.len());
            push_lit(sql, ")");
            let mut vs = vs;
            params.append(&mut vs);
        },
        QueryCondition::IsNull(f) => {
            push_lit(sql, f.as_str());
            push_lit(sql, " IS NULL");
        },
        QueryCondition::IsNotNull(f) => {
            push_lit(sql, f.as_str());
            push_lit(sql, " IS NOT NULL");
        },
        QueryCondition::Between(f, a, b) => {
            push_lit(sql, f.as_str());
            push_lit(sql, " BETWEEN ? AND ?");
            params.push(a);
            params.push(b);
        },
        QueryCondition::And(cs) => {
            push_lit(sql, "(");
            build_conditions(cs, " AND ", sql, params);
            push_lit(sql, ")");
        },
        QueryCondition::Or(cs) => {
            push_lit(sql, "(");
            build_conditions(cs, " OR ", sql, params);
            push_lit(sql, ")");
        },
    }
}

/// Appends the SQL of the conditions joined by `sep`, and their values.
#[verifier::loop_isolation(false)]
fn build_conditions(cs: Vec<QueryCondition>, sep: &str, sql: &mut Vec<char>, params: &mut Vec<JsonValue>)
    ensures
        final(sql)@ == old(sql)@ + list_sql(cs@, sep@),
        final(params)@ == old(params)@ + list_params(cs@),
    decreases cs,
{
    let ghost cs0 = cs;
    let ghost all = cs@;
    let ghost sql0 = sql@;
    let ghost params0 = params@;
    let n = cs.len();
    let mut rest = cs;
    let mut i: usize = 0;
    while rest.len() > 0
        invariant
            all == cs0@,
            n == all.len(),
            i + rest@.len() == all.len(),
            rest@ == all.skip(i as int),
            sql@ == sql0 + list_sql(all.take(i as int), sep@),
            params@ == params0 + list_params(all.take(i as int)),
        decreases rest@.len(),
    {
        let c = rest.remove(0);
        proof {
            assert(c == all[i as int]);
            assert(rest@ =~= all.skip(i + 1));
            let t = all.take(i + 1);
            assert(t.drop_last() =~= all.take(i as int));
            assert(t.last() == c);
            assert(decreases_to!(cs0 => cs0@));
            assert(decreases_to!(cs0@ => cs0@[i as int]));
            assert(decreases_to!(cs0 => c));
        }
        if i > 0 {
            push_lit(sql, sep);
        } else {
            assert(all.take(0) =~= Seq::<QueryCondition>::empty());
        }
        build_single_condition(c, sql, params);
        proof {
            let t = all.take(i + 1);
            assert(sql@ =~= sql0 + list_sql(t, sep@));
            assert(params@ =~= params0 + list_params(t));
        }
        i += 1;
    }
    assert(all.take(all.len() as int) =~= all);
}

/// Appends `n` placeholders joined by `, `.
fn push_placeholders(out: &mut Vec<char>, n: usize)
    ensures
        final(out)@ == old(out)@ + placeholders(n as nat),
{
    let ghost start = out@;
    let ghost all = Seq::new(n as nat, |i: int| "?"@);
    let mut i: usize = 0;
    while i < n
        invariant
            i <= n,
            all == Seq::new(n as nat, |i: int| "?"@),
            out@ == start + join_seq(all.take(i as int), ", "@),
        decreases n - i,
    {
        let ghost t = all.take(i + 1);
        proof {
            assert(t.drop_last() =~= all.take(i as int));
            assert(t.last() == "?"@);
        }
        if i > 0 {
            push_lit(out, ", ");
        } else {
            assert(all.take(0) =~= Seq::<Seq<char>>::empty());
        }
        push_lit(out, "?");
        assert(out@ =~= start + join_seq(t, ", "@));
        i += 1;
    }
    assert(all.take(n as int) =~= all);
}

// ---------------------------------------------------------------------------
// Conditions and SELECT
// ---------------------------------------------------------------------------

impl QueryCondition {
    /// A comparison of `field` with a null value; `!=`, `<`, `<=`, `>` and
    /// `>=` give their own comparison, any other operator (`=` among them)
    /// an equality.
    pub fn new(field: &str, operator: &str) -> (r: Self)
        ensures
            match r {
                QueryCondition::Eq(f, v) => f@ == field@ && v == JsonValue::Null && operator@
                    != "!="@ && operator@ != "<"@ && operator@ != "<="@ && operator@ != ">"@
                    && operator@ != ">="@,
                QueryCondition::Ne(f, v) => f@ == field@ && v == JsonValue::Null && operator@
                    == "!="@,
                QueryCondition::Lt(f, v) => f@ == field@ && v == JsonValue::Null && operator@
                    == "<"@,
                QueryCondition::Le(f, v) => f@ == field@ && v == JsonValue::Null && operator@
                    == "<="@,
                QueryCondition::Gt(f, v) => f@ == field@ && v == JsonValue::Null && operator@
                    == ">"@,
                QueryCondition::Ge(f, v) => f@ == field@ && v == JsonValue::Null && operator@
                    == ">="@,
                _ => false,
            },
    {
        let op = chars_of(operator);
        let f = string_of(&chars_of(field));
        if chars_eq(&op, &chars_of("!=")) {
            QueryCondition::Ne(f, JsonValue::Null)
        } else if chars_eq(&op, &chars_of("<")) {
            QueryCondition::Lt(f, JsonValue::Null)
        } else if chars_eq(&op, &chars_of("<=")) {
            QueryCondition::Le(f, JsonValue::Null)
        } else if chars_eq(&op, &chars_of(">")) {
            QueryCondition::Gt(f, JsonValue::Null)
        } else if chars_eq(&op, &chars_of(">=")) {
            QueryCondition::Ge(f, JsonValue::Null)
        } else {
            QueryCondition::Eq(f, JsonValue::Null)
        }
    }

    /// `field = value`
    pub fn eq(field: &str, value: JsonValue) -> (r: Self)
        ensures
            r matches QueryCondition::Eq(f, v) && f@ == field@ && v == value,
    {
        QueryCondition::Eq(string_of(&chars_of(field)), value)
    }
}

/// Builder of a SELECT statement over one table.
#[derive(Debug)]
pub struct SafeQueryBuilder {
    pub table: String,
    pub select_fields: Vec<String>,
    pub conditions: Vec<QueryCondition>,
    pub orders: Vec<QueryOrder>,
    pub limit: Option<i64>,
    pub offset: Option<i64>,
    pub joins: Vec<String>,
}

/// The SELECT statement of a builder.
pub open spec fn select_statement(b: SafeQueryBuilder) -> Seq<char> {
    "SELECT "@ + join_seq(texts(b.select_fields@), ", "@) + " FROM "@ + b.table@ + joins_sql(
        b.joins@,
    ) + (if b.conditions@.len() > 0 {
        " WHERE "@ + list_sql(b.conditions@, " AND "@)
    } else {
        Seq::empty()
    }) + (if b.orders@.len() > 0 {
        " ORDER BY "@ + join_seq(b.orders@.map_values(|o: QueryOrder| order_sql(o)), ", "@)
    } else {
        Seq::empty()
    }) + (if b.limit is Some {
        " LIMIT ?"@
    } else {
        Seq::empty()
    }) + (if b.offset is Some {
        " OFFSET ?"@
    } else {
        Seq::empty()
    })
}

/// The values of a builder's SELECT statement, in placeholder order.
pub open spec fn select_params(b: SafeQueryBuilder) -> Seq<JsonValue> {
    list_params(b.conditions@) + (match b.limit {
        Some(l) => seq![JsonValue::Number(l)],
        None => Seq::empty(),
    }) + (match b.offset {
        Some(o) => seq![JsonValue::Number(o)],
        None => Seq::empty(),
    })
}

impl SafeQueryBuilder {
    /// `SELECT * FROM table`, with nothing else yet.
    pub fn new(table: String) -> (r: Self)
        ensures
            r.table == table,
            texts(r.select_fields@) == seq!["*"@],
            r.conditions@.len() == 0,
            r.orders@.len() == 0,
            r.limit is None,
            r.offset is None,
            r.joins@.len() == 0,
    {
        let mut select_fields: Vec<String> = Vec::new();
        select_fields.push(string_of(&chars_of("*")));
        assert(texts(select_fields@) =~= seq!["*"@]);
        SafeQueryBuilder {
            table,
            select_fields,
            conditions: Vec::new(),
            orders: Vec::new(),
            limit: None,
            offset: None,
            joins: Vec::new(),
        }
    }

    /// Selects `fields` in place of the fields chosen before.
    pub fn select(self, fields: &[&str]) -> (r: Self)
        ensures
            texts(r.select_fields@) == fields@.map_values(|f: &str| f@),
            r.table == self.table,
            r.conditions == self.conditions,
            r.orders == self.orders,
            r.limit == self.limit,
            r.offset == self.offset,
            r.joins == self.joins,
    {
        let mut v: Vec<String> = Vec::new();
        let mut i: usize = 0;
        while i < fields.len()
            invariant
                i <= fields@.len(),
                v@.len() == i,
                forall|k: int| 0 <= k < i ==> #[trigger] v@[k]@ == fields@[k]@,
            decreases fields.len() - i,
        {
            v.push(string_of(&chars_of(fields[i])));
            i += 1;
        }
        assert(texts(v@) =~= fields@.map_values(|f: &str| f@));
        SafeQueryBuilder { select_fields: v, ..self }
    }

    /// Adds a condition, joined to the others by AND.
    pub fn where_condition(self, condition: QueryCondition) -> (r: Self)
        ensures
            r.conditions@ == self.conditions@.push(condition),
            r.table == self.table,
            r.select_fields == self.select_fields,
            r.orders == self.orders,
            r.limit == self.limit,
            r.offset == self.offset,
            r.joins == self.joins,
    {
        let mut b = self;
        b.conditions.push(condition);
        b
    }

    /// Adds a sort key after the others.
    pub fn order_by(self, order: QueryOrder) -> (r: Self)
        ensures
            r.orders@ == self.orders@.push(order),
            r.table == self.table,
            r.select_fields == self.select_fields,
            r.conditions == self.conditions,
            r.limit == self.limit,
            r.offset == self.offset,
            r.joins == self.joins,
    {
        let mut b = self;
        b.orders.push(order);
        b
    }

    pub fn limit(self, limit: i64) -> (r: Self)
        ensures
            r.limit == Some(limit),
            r.table == self.table,
            r.select_fields == self.select_fields,
            r.conditions == self.conditions,
            r.orders == self.orders,
            r.offset == self.offset,
            r.joins == self.joins,
    {
        SafeQueryBuilder { limit: Some(limit), ..self }
    }

    pub fn offset(self, offset: i64) -> (r: Self)
        ensures
            r.offset == Some(offset),
            r.table == self.table,
            r.select_fields == self.select_fields,
            r.conditions == self.conditions,
            r.orders == self.orders,
            r.limit == self.limit,
            r.joins == self.joins,
    {
        SafeQueryBuilder { offset: Some(offset), ..self }
    }

    /// Adds a JOIN clause, written after the table name.
    pub fn join(self, join_clause: String) -> (r: Self)
        ensures
            r.joins@ == self.joins@.push(join_clause),
            r.table == self.table,
            r.select_fields == self.select_fields,
            r.conditions == self.conditions,
            r.orders == self.orders,
            r.limit == self.limit,
            r.offset == self.offset,
    {
        let mut b = self;
        b.joins.push(join_clause);
        b
    }

    /// Same as `build`.
    pub fn build_select_all(self) -> (r: Result<(String, Vec<JsonValue>), QueryBuilderError>)
        ensures
            r matches Ok((sql, params)) && sql@ == select_statement(self) && params@
                == select_params(self),
    {
        self.build()
    }

    /// The SELECT statement and its values: the chosen fields, the JOIN
    /// clauses, the conditions joined by AND, the sort keys, then
    /// placeholders for LIMIT and OFFSET.
    pub fn build(self) -> (r: Result<(String, Vec<JsonValue>), QueryBuilderError>)
        ensures
            r matches Ok((sql, params)) && sql@ == select_statement(self) && params@
                == select_params(self),
    {
        let ghost b = self;
        let SafeQueryBuilder { table, select_fields, conditions, orders, limit, offset, joins } =
            self;
        let mut q: Vec<char> = Vec::new();
        push_lit(&mut q, "SELECT ");
        push_joined(&mut q, &select_fields, ", ");
        push_lit(&mut q, " FROM ");
        push_lit(&mut q, table.as_str());
        // JOIN clauses
        let ghost before_joins = q@;
        let mut i: usize = 0;
        while i < joins.len()
            invariant
                i <= joins@.len(),
                q@ == before_joins + joins_sql(joins@.take(i as int)),
            decreases joins.len() - i,
        {
            push_lit(&mut q, " ");
            push_lit(&mut q, joins[i].as_str());
            proof {
                let t = joins@.take(i + 1);
                assert(t.drop_last() =~= joins@.take(i as int));
                assert(q@ =~= before_joins + joins_sql(t));
            }
            i += 1;
        }
        assert(joins@.take(joins@.len() as int) =~= joins@);
        let mut params: Vec<JsonValue> = Vec::new();
        let ghost before_where = q@;
        if conditions.len() > 0 {
            push_lit(&mut q, " WHERE ");
            build_conditions(conditions, " AND ", &mut q, &mut params);
        } else {
            assert(list_params(b.conditions@) =~= Seq::<JsonValue>::empty());
        }
        let ghost before_order = q@;
        if orders.len() > 0 {
            push_lit(&mut q, " ORDER BY ");
            let ghost start = q@;
            let ghost all = orders@.map_values(|o: QueryOrder| order_sql(o));
            let mut k: usize = 0;
            while k < orders.len()
                invariant
                    k <= orders@.len(),
                    all == orders@.map_values(|o: QueryOrder| order_sql(o)),
                    q@ == start + join_seq(all.take(k as int), ", "@),
                decreases orders.len() - k,
            {
                let ghost t = all.take(k + 1);
                proof {
                    assert(t.drop_last() =~= all.take(k as int));
                    assert(t.last() == order_sql(orders@[k as int]));
                }
                if k > 0 {
                    push_lit(&mut q, ", ");
                } else {
                    assert(all.take(0) =~= Seq::<Seq<char>>::empty());
                }
                match &orders[k] {
                    QueryOrder::Asc(f) => {
                        push_lit(&mut q, f.as_str());
                        push_lit(&mut q, " ASC");
                    },
                    QueryOrder::Desc(f) => {
                        push_lit(&mut q, f.as_str());
                        push_lit(&mut q, " DESC");
                    },
                }
                assert(q@ =~= start + join_seq(t, ", "@));
                k += 1;
            }
            assert(all.take(orders@.len() as int) =~= all);
        }
        let ghost before_limit = q@;
        let ghost params_cond = params@;
        match limit {
            Some(l) => {
                push_lit(&mut q, " LIMIT ?");
                params.push(JsonValue::Number(l));
            },
            None => {},
        }
        match offset {
            Some(o) => {
                push_lit(&mut q, " OFFSET ?");
                params.push(JsonValue::Number(o));
            },
            None => {},
        }
        proof {
            assert(q@ =~= select_statement(b));
            assert(params@ =~= select_params(b));
        }
        Ok((string_of(&q), params))
    }
}

// ---------------------------------------------------------------------------
// INSERT and UPDATE
// ---------------------------------------------------------------------------

/// The field names of an assignment list.
pub open spec fn field_names(fields: Seq<(String, JsonValue)>) -> Seq<Seq<char>> {
    fields.map_values(|p: (String, JsonValue)| p.0@)
}

/// The values of an assignment list, in field order.
pub open spec fn field_values(fields: Seq<(String, JsonValue)>) -> Seq<JsonValue> {
    fields.map_values(|p: (String, JsonValue)| p.1)
}

/// No field is named twice.
pub open spec fn distinct_fields(fields: Seq<(String, JsonValue)>) -> bool {
    forall|i: int, j: int| 0 <= i < j < fields.len() ==> fields[i].0@ != fields[j].0@
}

/// The value each field is set to.
pub open spec fn field_map(fields: Seq<(String, JsonValue)>) -> Map<Seq<char>, JsonValue> {
    Map::new(
        |k: Seq<char>| exists|i: int| 0 <= i < fields.len() && fields[i].0@ == k,
        |k: Seq<char>| fields[choose|i: int| 0 <= i < fields.len() && fields[i].0@ == k].1,
    )
}

proof fn lemma_field_map_index(fields: Seq<(String, JsonValue)>, j: int)
    requires
        distinct_fields(fields),
        0 <= j < fields.len(),
    ensures
        field_map(fields).contains_key(fields[j].0@),
        field_map(fields)[fields[j].0@] == fields[j].1,
{
    let k = fields[j].0@;
    assert(exists|i: int| 0 <= i < fields.len() && fields[i].0@ == k);
    let c = choose|i: int| 0 <= i < fields.len() && fields[i].0@ == k;
    if c != j {
        if c < j {
            assert(fields[c].0@ != fields[j].0@);
        } else {
            assert(fields[j].0@ != fields[c].0@);
        }
    }
}

proof fn lemma_field_map_update(f0: Seq<(String, JsonValue)>, i: int, p: (String, JsonValue))
    requires
        distinct_fields(f0),
        0 <= i < f0.len(),
        f0[i].0@ == p.0@,
    ensures
        distinct_fields(f0.update(i, p)),
        field_map(f0.update(i, p)) == field_map(f0).insert(p.0@, p.1),
{
    let f1 = f0.update(i, p);
    assert forall|a: int, b: int| 0 <= a < b < f1.len() implies f1[a].0@ != f1[b].0@ by {
        assert(f0[a].0@ != f0[b].0@);
        if a == i {
            assert(f1[a].0@ == f0[a].0@);
        } else if b == i {
            assert(f1[b].0@ == f0[b].0@);
        }
    }
    let m = field_map(f0).insert(p.0@, p.1);
    assert forall|k: Seq<char>| #[trigger] field_map(f1).contains_key(k) <==> m.contains_key(k) by {
        if field_map(f1).contains_key(k) {
            let j = choose|j: int| 0 <= j < f1.len() && f1[j].0@ == k;
            lemma_field_map_index(f0, j);
            assert(f0[j].0@ == k);
        }
        if m.contains_key(k) {
            if k == p.0@ {
                lemma_field_map_index(f1, i);
            } else {
                let j = choose|j: int| 0 <= j < f0.len() && f0[j].0@ == k;
                lemma_field_map_index(f1, j);
                assert(f1[j].0@ == k);
            }
        }
    }
    assert forall|k: Seq<char>| #[trigger] field_map(f1).contains_key(k) implies field_map(f1)[k]
        == m[k] by {
        let j = choose|j: int| 0 <= j < f1.len() && f1[j].0@ == k;
        lemma_field_map_index(f1, j);
        lemma_field_map_index(f0, j);
        if j == i {
        } else {
            assert(f1[j] == f0[j]);
            assert(k != p.0@);
        }
    }
    assert(field_map(f1) =~= m);
}

proof fn lemma_field_map_push(f0: Seq<(String, JsonValue)>, p: (String, JsonValue))
    requires
        distinct_fields(f0),
        forall|k: int| 0 <= k < f0.len() ==> f0[k].0@ != p.0@,
    ensures
        distinct_fields(f0.push(p)),
        field_map(f0.push(p)) == field_map(f0).insert(p.0@, p.1),
{
    let f1 = f0.push(p);
    let n = f0.len() as int;
    assert forall|a: int, b: int| 0 <= a < b < f1.len() implies f1[a].0@ != f1[b].0@ by {
        if b == n {
            assert(f1[a] == f0[a]);
        } else {
            assert(f0[a].0@ != f0[b].0@);
        }
    }
    let m = field_map(f0).insert(p.0@, p.1);
    assert forall|k: Seq<char>| #[trigger] field_map(f1).contains_key(k) <==> m.contains_key(k) by {
        if field_map(f1).contains_key(k) {
            let j = choose|j: int| 0 <= j < f1.len() && f1[j].0@ == k;
            if j < n {
                lemma_field_map_index(f0, j);
                assert(f0[j].0@ == k);
            }
        }
        if m.contains_key(k) {
            if k == p.0@ {
                lemma_field_map_index(f1, n);
            } else {
                let j = choose|j: int| 0 <= j < f0.len() && f0[j].0@ == k;
                lemma_field_map_index(f1, j);
                assert(f1[j].0@ == k);
            }
        }
    }
    assert forall|k: Seq<char>| #[trigger] field_map(f1).contains_key(k) implies field_map(f1)[k]
        == m[k] by {
        let j = choose|j: int| 0 <= j < f1.len() && f1[j].0@ == k;
        lemma_field_map_index(f1, j);
        if j < n {
            lemma_field_map_index(f0, j);
            assert(f1[j] == f0[j]);
            assert(k != p.0@);
        }
    }
    assert(field_map(f1) =~= m);
}

/// Sets `field` to `value` in an assignment list: the value of a field that
/// is there already is replaced in place, a new field goes last.
pub(crate) fn assign_field(fields: &mut Vec<(String, JsonValue)>, field: String, value: JsonValue)
    requires
        distinct_fields(old(fields)@),
    ensures
        distinct_fields(final(fields)@),
        field_map(final(fields)@) == field_map(old(fields)@).insert(field@, value),
        !field_map(old(fields)@).contains_key(field@) ==> final(fields)@ == old(fields)@.push(
            (field, value),
        ),
{
    let ghost f0 = fields@;
    let key = chars_of(field.as_str());
    let mut i: usize = 0;
    let mut found = false;
    while i < fields.len() && !found
        invariant
            fields@ == f0,
            i <= fields@.len(),
            key@ == field@,
            found ==> i < fields@.len() && fields@[i as int].0@ == field@,
            !found ==> forall|k: int| 0 <= k < i ==> fields@[k].0@ != field@,
        decreases fields.len() - i, if found { 0int } else { 1int },
    {
        let name = chars_of(fields[i].0.as_str());
        if chars_eq(&name, &key) {
            found = true;
        } else {
            i += 1;
        }
    }
    let ghost p = (field, value);
    if found {
        fields.set(i, (field, value));
        proof {
            assert(fields@ =~= f0.update(i as int, p));
            lemma_field_map_update(f0, i as int, p);
        }
    } else {
        fields.push((field, value));
        proof {
            lemma_field_map_push(f0, p);
        }
    }
}

/// Builder of an INSERT statement.
#[derive(Debug)]
pub struct InsertBuilder {
    pub table: String,
    /// the fields and values, each field once
    pub fields: Vec<(String, JsonValue)>,
    /// `REPLACE` or `IGNORE`
    pub on_conflict: Option<String>,
}

/// The INSERT statement of a builder.
pub open spec fn insert_statement(b: InsertBuilder) -> Seq<char> {
    let cols = join_seq(field_names(b.fields@), ", "@);
    let marks = placeholders(b.fields@.len());
    match b.on_conflict {
        Some(action) => "INSERT OR "@ + action@ + " INTO "@ + b.table@ + " ("@ + cols
            + ") VALUES ("@ + marks + ")"@,
        None => "INSERT INTO "@ + b.table@ + " ("@ + cols + ") VALUES ("@ + marks + ")"@,
    }
}

impl InsertBuilder {
    pub open spec fn wf(&self) -> bool {
        distinct_fields(self.fields@)
    }

    pub fn new(table: String) -> (r: Self)
        ensures
            r.wf(),
            r.table == table,
            r.fields@.len() == 0,
            r.on_conflict is None,
    {
        InsertBuilder { table, fields: Vec::new(), on_conflict: None }
    }

    /// Sets a field's value (a field set twice keeps the last value).
    pub fn set(self, field: String, value: JsonValue) -> (r: Self)
        requires
            self.wf(),
        ensures
            r.wf(),
            field_map(r.fields@) == field_map(self.fields@).insert(field@, value),
            !field_map(self.fields@).contains_key(field@) ==> r.fields@ == self.fields@.push(
                (field, value),
            ),
            r.table == self.table,
            r.on_conflict == self.on_conflict,
    {
        let mut b = self;
        assign_field(&mut b.fields, field, value);
        b
    }

    /// Sets `field` to a value already in JSON form (what the caller's
    /// serializer gave, null when it failed).
    pub fn add_field(self, field: &str, value: JsonValue) -> (r: Self)
        requires
            self.wf(),
        ensures
            r.wf(),
            field_map(r.fields@) == field_map(self.fields@).insert(field@, value),
            r.table == self.table,
            r.on_conflict == self.on_conflict,
    {
        self.set(owned(field), value)
    }

    /// Sets `field` to a value in JSON form, or to null when there is none.
    pub fn add_field_opt(self, field: &str, value: Option<JsonValue>) -> (r: Self)
        requires
            self.wf(),
        ensures
            r.wf(),
            field_map(r.fields@) == field_map(self.fields@).insert(
                field@,
                match value {
                    Some(v) => v,
                    None => JsonValue::Null,
                },
            ),
            r.table == self.table,
            r.on_conflict == self.on_conflict,
    {
        let v = match value {
            Some(v) => v,
            None => JsonValue::Null,
        };
        self.set(owned(field), v)
    }

    /// `INSERT OR REPLACE`
    pub fn on_conflict_replace(self) -> (r: Self)
        ensures
            r.on_conflict matches Some(a) && a@ == "REPLACE"@,
            r.table == self.table,
            r.fields == self.fields,
    {
        InsertBuilder { on_conflict: Some(string_of(&chars_of("REPLACE"))), ..self }
    }

    /// `INSERT OR IGNORE`
    pub fn on_conflict_ignore(self) -> (r: Self)
        ensures
            r.on_conflict matches Some(a) && a@ == "IGNORE"@,
            r.table == self.table,
            r.fields == self.fields,
    {
        InsertBuilder { on_conflict: Some(string_of(&chars_of("IGNORE"))), ..self }
    }

    /// The INSERT statement with one placeholder per field, and the field
    /// values in column order; refused when no field was set.
    pub fn build(self) -> (r: Result<(String, Vec<JsonValue>), QueryBuilderError>)
        ensures
            self.fields@.len() == 0 <==> r == Err::<(String, Vec<JsonValue>), QueryBuilderError>(
                QueryBuilderError::InsertFieldsEmpty,
            ),
            self.fields@.len() > 0 ==> r is Ok,
            r matches Ok((sql, params)) ==> sql@ == insert_statement(self) && params@
                == field_values(self.fields@),
    {
        if self.fields.len() == 0 {
            return Err(QueryBuilderError::InsertFieldsEmpty);
        }
        let ghost b = self;
        let InsertBuilder { table, fields, on_conflict } = self;
        let mut names: Vec<String> = Vec::new();
        let mut values: Vec<JsonValue> = Vec::new();
        let n = fields.len();
        let mut rest = fields;
        let mut i: usize = 0;
        while rest.len() > 0
            invariant
                i + rest@.len() == n,
                n == b.fields@.len(),
                rest@ == b.fields@.skip(i as int),
                names@.len() == i,
                forall|k: int| 0 <= k < i ==> #[trigger] names@[k]@ == b.fields@[k].0@,
                values@ == field_values(b.fields@).take(i as int),
            decreases rest@.len(),
        {
            let (name, value) = rest.remove(0);
            proof {
                assert((name, value) == b.fields@[i as int]);
                assert(rest@ =~= b.fields@.skip(i + 1));
            }
            names.push(name);
            values.push(value);
            assert(values@ =~= field_values(b.fields@).take(i + 1));
            i += 1;
        }
        assert(field_values(b.fields@).take(n as int) =~= field_values(b.fields@));
        assert(texts(names@) =~= field_names(b.fields@));
        let mut q: Vec<char> = Vec::new();
        match on_conflict {
            Some(action) => {
                push_lit(&mut q, "INSERT OR ");
                push_lit(&mut q, action.as_str());
                push_lit(&mut q, " INTO ");
            },
            None => {
                push_lit(&mut q, "INSERT INTO ");
            },
        }
        push_lit(&mut q, table.as_str());
        push_lit(&mut q, " (");
        push_joined(&mut q, &names, ", ");
        push_lit(&mut q, ") VALUES (");
        push_placeholders(&mut q, n);
        push_lit(&mut q, ")");
        assert(q@ =~= insert_statement(b));
        Ok((string_of(&q), values))
    }
}

/// `x` differs from every name of `rest`.
pub open spec fn differs_from_all(x: Seq<char>, rest: Seq<Seq<char>>) -> bool
    decreases rest.len(),
{
    rest.len() == 0 || (rest[0] != x && differs_from_all(x, rest.drop_first()))
}

/// No name occurs twice, stated name by name.
pub open spec fn distinct_names(names: Seq<Seq<char>>) -> bool
    decreases names.len(),
{
    names.len() == 0 || (differs_from_all(names[0], names.drop_first()) && distinct_names(
        names.drop_first(),
    ))
}

proof fn lemma_differs_from_all(x: Seq<char>, rest: Seq<Seq<char>>, k: int)
    requires
        differs_from_all(x, rest),
        0 <= k < rest.len(),
    ensures
        rest[k] != x,
    decreases rest.len(),
{
    if k > 0 {
        lemma_differs_from_all(x, rest.drop_first(), k - 1);
    }
}

/// Columns whose names are distinct name by name are named once each.
pub proof fn lemma_distinct_names(cols: Seq<(String, JsonValue)>)
    requires
        distinct_names(field_names(cols)),
    ensures
        distinct_fields(cols),
    decreases cols.len(),
{
    if cols.len() > 0 {
        let names = field_names(cols);
        assert(field_names(cols.drop_first()) =~= names.drop_first());
        lemma_distinct_names(cols.drop_first());
        assert forall|i: int, j: int| 0 <= i < j < cols.len() implies cols[i].0@ != cols[j].0@ by {
            if i == 0 {
                lemma_differs_from_all(names[0], names.drop_first(), j - 1);
            } else {
                assert(cols.drop_first()[i - 1] == cols[i]);
                assert(cols.drop_first()[j - 1] == cols[j]);
            }
        }
    }
}

/// A text value, or null.
pub open spec fn text_or_null(v: Option<String>) -> JsonValue {
    match v {
        Some(s) => JsonValue::String(s),
        None => JsonValue::Null,
    }
}

/// An integer value, or null.
pub open spec fn int_or_null(v: Option<i64>) -> JsonValue {
    match v {
        Some(i) => JsonValue::Number(i),
        None => JsonValue::Null,
    }
}

/// The value of an optional text.
pub fn text_value(v: &Option<String>) -> (r: JsonValue)
    ensures
        r == text_or_null(*v),
{
    match v {
        Some(s) => JsonValue::String(s.clone()),
        None => JsonValue::Null,
    }
}

/// The value of an optional integer.
pub fn int_value(v: Option<i64>) -> (r: JsonValue)
    ensures
        r == int_or_null(v),
{
    match v {
        Some(i) => JsonValue::Number(i),
        None => JsonValue::Null,
    }
}

/// A named column with its value.
pub fn column(name: &str, value: JsonValue) -> (r: (String, JsonValue))
    ensures
        r.0@ == name@,
        r.1 == value,
{
    (owned(name), value)
}

/// A text value whose text is `t`.
pub open spec fn text_is(v: JsonValue, t: Seq<char>) -> bool {
    v matches JsonValue::String(s) && s@ == t
}

/// The INSERT statement of `table` with one placeholder per column.
pub open spec fn insert_sql(table: Seq<char>, names: Seq<Seq<char>>) -> Seq<char> {
    "INSERT INTO "@ + table + " ("@ + join_seq(names, ", "@) + ") VALUES ("@ + placeholders(
        names.len(),
    ) + ")"@
}

/// The INSERT statement of one row of `table`, built with `InsertBuilder`
/// from columns named once each: the SQL and the values in column order.
pub fn insert_row(table: &str, columns: Vec<(String, JsonValue)>) -> (r: (String, Vec<JsonValue>))
    requires
        distinct_fields(columns@),
        columns@.len() > 0,
    ensures
        r.0@ == insert_sql(table@, field_names(columns@)),
        r.1@ == field_values(columns@),
{
    let ghost cols = columns@;
    let n = columns.len();
    let mut b = InsertBuilder::new(crate::text::owned(table));
    let mut rest = columns;
    let mut i: usize = 0;
    while rest.len() > 0
        invariant
            b.wf(),
            b.table@ == table@,
            b.on_conflict is None,
            i + rest@.len() == cols.len(),
            cols.len() == n,
            rest@ == cols.skip(i as int),
            b.fields@ == cols.take(i as int),
            distinct_fields(cols),
        decreases rest@.len(),
    {
        let (f, v) = rest.remove(0);
        proof {
            assert((f, v) == cols[i as int]);
            assert(rest@ =~= cols.skip(i + 1));
            if field_map(b.fields@).contains_key(f@) {
                let j = choose|j: int| 0 <= j < b.fields@.len() && b.fields@[j].0@ == f@;
                assert(cols[j].0@ == cols[i as int].0@);
            }
        }
        b = b.set(f, v);
        assert(b.fields@ =~= cols.take(i + 1));
        i += 1;
    }
    assert(cols.take(cols.len() as int) =~= cols);
    match b.build() {
        Ok(out) => out,
        Err(_) => {
            assert(false);
            (String::new(), Vec::new())
        },
    }
}

/// The `INSERT OR REPLACE` statement of `table` with one placeholder per
/// column.
pub open spec fn insert_or_replace_sql(table: Seq<char>, names: Seq<Seq<char>>) -> Seq<char> {
    "INSERT OR "@ + "REPLACE"@ + " INTO "@ + table + " ("@ + join_seq(names, ", "@) + ") VALUES ("@
        + placeholders(names.len()) + ")"@
}

/// The `INSERT OR REPLACE` statement of one row of `table`, built with
/// `InsertBuilder` from columns named once each: the SQL and the values in
/// column order.
pub fn insert_or_replace_row(table: &str, columns: Vec<(String, JsonValue)>) -> (r: (String, Vec<JsonValue>))
    requires
        distinct_fields(columns@),
        columns@.len() > 0,
    ensures
        r.0@ == insert_or_replace_sql(table@, field_names(columns@)),
        r.1@ == field_values(columns@),
{
    let ghost cols = columns@;
    let n = columns.len();
    let mut b = InsertBuilder::new(crate::text::owned(table)).on_conflict_replace();
    let mut rest = columns;
    let mut i: usize = 0;
    while rest.len() > 0
        invariant
            b.wf(),
            b.table@ == table@,
            b.on_conflict matches Some(a) && a@ == "REPLACE"@,
            i + rest@.len() == cols.len(),
            cols.len() == n,
            rest@ == cols.skip(i as int),
            b.fields@ == cols.take(i as int),
            distinct_fields(cols),
        decreases rest@.len(),
    {
        let (f, v) = rest.remove(0);
        proof {
            assert((f, v) == cols[i as int]);
            assert(rest@ =~= cols.skip(i + 1));
            if field_map(b.fields@).contains_key(f@) {
                let j = choose|j: int| 0 <= j < b.fields@.len() && b.fields@[j].0@ == f@;
                assert(cols[j].0@ == cols[i as int].0@);
            }
        }
        b = b.set(f, v);
        assert(b.fields@ =~= cols.take(i + 1));
        i += 1;
    }
    assert(cols.take(cols.len() as int) =~= cols);
    match b.build() {
        Ok(out) => out,
        Err(_) => {
            assert(false);
            (String::new(), Vec::new())
        },
    }
}

/// The SELECT of `fields` of `table`, with one equality filter when given,
/// sorted by one key, then placeholders for LIMIT and OFFSET when given.
pub open spec fn simple_select_sql(
    table: Seq<char>,
    fields: Seq<Seq<char>>,
    filter: Option<Seq<char>>,
    order: Seq<char>,
    has_limit: bool,
    has_offset: bool,
) -> Seq<char> {
    "SELECT "@ + join_seq(fields, ", "@) + " FROM "@ + table + (match filter {
        Some(f) => " WHERE "@ + f + " = ?"@,
        None => Seq::empty(),
    }) + " ORDER BY "@ + order + (if has_limit {
        " LIMIT ?"@
    } else {
        Seq::empty()
    }) + (if has_offset {
        " OFFSET ?"@
    } else {
        Seq::empty()
    })
}

/// The values of such a SELECT: the filter's value, the limit and the
/// offset, each when given.
pub open spec fn simple_select_params(filter_value: Option<JsonValue>, limit: Option<i64>, offset: Option<i64>) -> Seq<JsonValue> {
    (match filter_value {
        Some(v) => seq![v],
        None => Seq::empty(),
    }) + (match limit {
        Some(l) => seq![JsonValue::Number(l)],
        None => Seq::empty(),
    }) + (match offset {
        Some(o) => seq![JsonValue::Number(o)],
        None => Seq::empty(),
    })
}

/// A SELECT of `fields` of `table` built with `SafeQueryBuilder` (see
/// `simple_select_sql`), with its values.
pub fn simple_select(
    table: &str,
    fields: &[&str],
    filter: Option<(&str, JsonValue)>,
    order: QueryOrder,
    limit: Option<i64>,
    offset: Option<i64>,
) -> (r: (String, Vec<JsonValue>))
    ensures
        r.0@ == simple_select_sql(
            table@,
            fields@.map_values(|f: &str| f@),
            match filter {
                Some(fv) => Some(fv.0@),
                None => None,
            },
            order_sql(order),
            limit is Some,
            offset is Some,
        ),
        r.1@ == simple_select_params(
            match filter {
                Some(fv) => Some(fv.1),
                None => None,
            },
            limit,
            offset,
        ),
{
    let ghost g_filter = filter;
    let ghost g_order = order;
    let mut b = SafeQueryBuilder::new(owned(table)).select(fields);
    let ghost mut cond: Option<QueryCondition> = None;
    if let Some((f, v)) = filter {
        let c = QueryCondition::Eq(owned(f), v);
        proof {
            cond = Some(c);
        }
        b = b.where_condition(c);
    }
    b = b.order_by(order);
    if let Some(l) = limit {
        b = b.limit(l);
    }
    if let Some(o) = offset {
        b = b.offset(o);
    }
    let ghost bf = b;
    proof {
        assert(joins_sql(bf.joins@) =~= Seq::<char>::empty());
        assert(bf.orders@ =~= seq![g_order]);
        assert(bf.orders@.map_values(|o: QueryOrder| order_sql(o)) =~= seq![order_sql(g_order)]);
        if g_filter is Some {
            let c = cond->0;
            let (fname, fval) = g_filter->0;
            assert(bf.conditions@ =~= seq![c]);
            assert(cond_sql(c) == fname@ + " = ?"@);
            assert(list_sql(bf.conditions@, " AND "@) == cond_sql(c));
            assert(bf.conditions@.drop_last() =~= Seq::<QueryCondition>::empty());
            assert(list_params(bf.conditions@) == list_params(bf.conditions@.drop_last()) + cond_params(c));
            assert(cond_params(c) =~= seq![fval]);
        } else {
            assert(bf.conditions@.len() == 0);
        }
        assert(select_statement(bf) =~= simple_select_sql(
            table@,
            fields@.map_values(|f: &str| f@),
            match g_filter {
                Some(fv) => Some(fv.0@),
                None => None,
            },
            order_sql(g_order),
            limit is Some,
            offset is Some,
        ));
        assert(select_params(bf) =~= simple_select_params(
            match g_filter {
                Some(fv) => Some(fv.1),
                None => None,
            },
            limit,
            offset,
        ));
    }
    match b.build() {
        Ok(out) => out,
        Err(_) => {
            assert(false);
            (String::new(), Vec::new())
        },
    }
}

/// `SELECT * FROM table WHERE field = ?`.
pub open spec fn select_all_where_sql(table: Seq<char>, field: Seq<char>) -> Seq<char> {
    "SELECT "@ + "*"@ + " FROM "@ + table + " WHERE "@ + field + " = ?"@
}

/// `SELECT * FROM table WHERE field = ?`, built with `SafeQueryBuilder`,
/// with the value as its one parameter.
pub fn select_all_where_eq(table: &str, field: &str, value: JsonValue) -> (r: (String, Vec<JsonValue>))
    ensures
        r.0@ == select_all_where_sql(table@, field@),
        r.1@ == seq![value],
{
    let ghost v = value;
    let c = QueryCondition::eq(field, value);
    let ghost gc = c;
    let b = SafeQueryBuilder::new(owned(table)).where_condition(c);
    let ghost bf = b;
    proof {
        assert(texts(bf.select_fields@) == seq!["*"@]);
        assert(join_seq(texts(bf.select_fields@), ", "@) == "*"@);
        assert(joins_sql(bf.joins@) =~= Seq::<char>::empty());
        assert(bf.conditions@ =~= seq![gc]);
        assert(list_sql(bf.conditions@, " AND "@) == cond_sql(gc));
        assert(bf.conditions@.drop_last() =~= Seq::<QueryCondition>::empty());
        assert(list_params(bf.conditions@) == list_params(bf.conditions@.drop_last()) + cond_params(gc));
        assert(cond_params(gc) =~= seq![v]);
        assert(select_statement(bf) =~= "SELECT "@ + "*"@ + " FROM "@ + table@ + " WHERE "@ + field@ + " = ?"@);
        assert(select_params(bf) =~= seq![v]);
    }
    match b.build_select_all() {
        Ok(out) => out,
        Err(_) => {
            assert(false);
            (String::new(), Vec::new())
        },
    }
}

/// `SELECT fields FROM table WHERE field = ?`.
pub open spec fn select_where_sql(table: Seq<char>, fields: Seq<Seq<char>>, field: Seq<char>) -> Seq<char> {
    "SELECT "@ + join_seq(fields, ", "@) + " FROM "@ + table + " WHERE "@ + field + " = ?"@
}

/// `SELECT fields FROM table WHERE field = ?`, built with
/// `SafeQueryBuilder`, with the value as its one parameter.
pub fn select_where_eq(table: &str, fields: &[&str], field: &str, value: JsonValue) -> (r: (String, Vec<JsonValue>))
    ensures
        r.0@ == select_where_sql(table@, fields@.map_values(|f: &str| f@), field@),
        r.1@ == seq![value],
{
    let ghost v = value;
    let c = QueryCondition::eq(field, value);
    let ghost gc = c;
    let b = SafeQueryBuilder::new(owned(table)).select(fields).where_condition(c);
    let ghost bf = b;
    proof {
        assert(joins_sql(bf.joins@) =~= Seq::<char>::empty());
        assert(bf.conditions@ =~= seq![gc]);
        assert(list_sql(bf.conditions@, " AND "@) == cond_sql(gc));
        assert(bf.conditions@.drop_last() =~= Seq::<QueryCondition>::empty());
        assert(list_params(bf.conditions@) == list_params(bf.conditions@.drop_last()) + cond_params(gc));
        assert(cond_params(gc) =~= seq![v]);
        assert(select_statement(bf) =~= select_where_sql(table@, fields@.map_values(|f: &str| f@), field@));
        assert(select_params(bf) =~= seq![v]);
    }
    match b.build() {
        Ok(out) => out,
        Err(_) => {
            assert(false);
            (String::new(), Vec::new())
        },
    }
}

/// Builder of an UPDATE statement.
#[derive(Debug)]
pub struct UpdateBuilder {
    pub table: String,
    /// the fields and values, each field once
    pub fields: Vec<(String, JsonValue)>,
    pub conditions: Vec<QueryCondition>,
}

/// The UPDATE statement of a builder.
pub open spec fn update_statement(b: UpdateBuilder) -> Seq<char> {
    "UPDATE "@ + b.table@ + " SET "@ + join_seq(
        field_names(b.fields@).map_values(|f: Seq<char>| f + " = ?"@),
        ", "@,
    ) + (if b.conditions@.len() > 0 {
        " WHERE "@ + list_sql(b.conditions@, " AND "@)
    } else {
        Seq::empty()
    })
}

impl UpdateBuilder {
    pub open spec fn wf(&self) -> bool {
        distinct_fields(self.fields@)
    }

    pub fn new(table: String) -> (r: Self)
        ensures
            r.wf(),
            r.table == table,
            r.fields@.len() == 0,
            r.conditions@.len() == 0,
    {
        UpdateBuilder { table, fields: Vec::new(), conditions: Vec::new() }
    }

    /// Sets a field's value (a field set twice keeps the last value).
    pub fn set(self, field: String, value: JsonValue) -> (r: Self)
        requires
            self.wf(),
        ensures
            r.wf(),
            field_map(r.fields@) == field_map(self.fields@).insert(field@, value),
            r.table == self.table,
            r.conditions == self.conditions,
    {
        let mut b = self;
        assign_field(&mut b.fields, field, value);
        b
    }

    /// Adds a condition, joined to the others by AND.
    pub fn where_condition(self, condition: QueryCondition) -> (r: Self)
        ensures
            r.conditions@ == self.conditions@.push(condition),
            r.table == self.table,
            r.fields == self.fields,
    {
        let mut b = self;
        b.conditions.push(condition);
        b
    }

    /// `UPDATE table SET f = ?, ...` with the conditions; the values are the
    /// field values, then the condition values.  Refused when no field was
    /// set.
    pub fn build(self) -> (r: Result<(String, Vec<JsonValue>), QueryBuilderError>)
        ensures
            self.fields@.len() == 0 <==> r == Err::<(String, Vec<JsonValue>), QueryBuilderError>(
                QueryBuilderError::UpdateFieldsEmpty,
            ),
            self.fields@.len() > 0 ==> r is Ok,
            r matches Ok((sql, params)) ==> sql@ == update_statement(self) && params@
                == field_values(self.fields@) + list_params(self.conditions@),
    {
        if self.fields.len() == 0 {
            return Err(QueryBuilderError::UpdateFieldsEmpty);
        }
        let ghost b = self;
        let UpdateBuilder { table, fields, conditions } = self;
        let ghost sets = field_names(b.fields@).map_values(|f: Seq<char>| f + " = ?"@);
        let mut q: Vec<char> = Vec::new();
        push_lit(&mut q, "UPDATE ");
        push_lit(&mut q, table.as_str());
        push_lit(&mut q, " SET ");
        let ghost start = q@;
        let mut values: Vec<JsonValue> = Vec::new();
        let n = fields.len();
        let mut rest = fields;
        let mut i: usize = 0;
        while rest.len() > 0
            invariant
                i + rest@.len() == n,
                n == b.fields@.len(),
                rest@ == b.fields@.skip(i as int),
                sets == field_names(b.fields@).map_values(|f: Seq<char>| f + " = ?"@),
                q@ == start + join_seq(sets.take(i as int), ", "@),
                values@ == field_values(b.fields@).take(i as int),
            decreases rest@.len(),
        {
            let (name, value) = rest.remove(0);
            proof {
                assert((name, value) == b.fields@[i as int]);
                assert(rest@ =~= b.fields@.skip(i + 1));
                let t = sets.take(i + 1);
                assert(t.drop_last() =~= sets.take(i as int));
                assert(t.last() == name@ + " = ?"@);
            }
            if i > 0 {
                push_lit(&mut q, ", ");
            } else {
                assert(sets.take(0) =~= Seq::<Seq<char>>::empty());
            }
            push_lit(&mut q, name.as_str());
            push_lit(&mut q, " = ?");
            values.push(value);
            assert(q@ =~= start + join_seq(sets.take(i + 1), ", "@));
            assert(values@ =~= field_values(b.fields@).take(i + 1));
            i += 1;
        }
        assert(sets.take(n as int) =~= sets);
        assert(field_values(b.fields@).take(n as int) =~= field_values(b.fields@));
        let ghost before_where = q@;
        let ghost vals = values@;
        if conditions.len() > 0 {
            push_lit(&mut q, " WHERE ");
            build_conditions(conditions, " AND ", &mut q, &mut values);
        } else {
            assert(list_params(b.conditions@) =~= Seq::<JsonValue>::empty());
        }
        assert(q@ =~= update_statement(b));
        assert(values@ =~= field_values(b.fields@) + list_params(b.conditions@));
        Ok((string_of(&q), values))
    }
}

} // verus!
