//! Configurations of the AI features (chat, vector index, ...), one row per
//! feature name.
use vstd::prelude::*;
use crate::clock::utc_now_rfc3339;
use crate::json::JsonValue;
use crate::storage::error::RepositoryError;
use crate::storage::query::{text_is, 
    column, cond_params, cond_sql, differs_from_all, distinct_names, field_names, insert_or_replace_row,
    insert_or_replace_sql, join_seq, joins_sql, lemma_distinct_names, list_params, list_sql,
    order_sql, select_params, select_statement, text_or_null, text_value, texts, QueryCondition,
    QueryOrder, SafeQueryBuilder,
};
use crate::text::owned;

verus! {

/// The configuration of one AI feature.
#[derive(Debug, Clone)]
pub struct AIFeatureConfig {
    /// the feature's name, its key
    pub feature_name: String,
    pub enabled: bool,
    /// the feature's settings as JSON text
    pub config_json: Option<String>,
    /// RFC 3339, UTC
    pub created_at: String,
    /// RFC 3339, UTC
    pub updated_at: String,
}

impl AIFeatureConfig {
    /// A configuration made now.
    pub fn new(feature_name: String, enabled: bool, config_json: Option<String>) -> (r: Self)
        ensures
            r.feature_name == feature_name,
            r.enabled == enabled,
            r.config_json == config_json,
            r.created_at == r.updated_at,
    {
        let now = utc_now_rfc3339();
        AIFeatureConfig { feature_name, enabled, config_json, created_at: now.clone(), updated_at: now }
    }
}

/// The columns of a feature's row, which are also the fields read back.
pub open spec fn feature_columns() -> Seq<Seq<char>> {
    seq![
        "feature_name"@,
        "enabled"@,
        "config_json"@,
        "created_at"@,
        "updated_at"@,
    ]
}

/// The columns of a feature's row are named once each.
proof fn lemma_feature_columns_distinct()
    ensures
        distinct_names(feature_columns()),
{
    reveal_strlit("config_json");
    reveal_strlit("created_at");
    reveal_strlit("enabled");
    reveal_strlit("feature_name");
    reveal_strlit("updated_at");
    assert("config_json"@.len() == 11);
    assert("created_at"@.len() == 10);
    assert("enabled"@.len() == 7);
    assert("feature_name"@.len() == 12);
    assert("updated_at"@.len() == 10);
    assert("created_at"@[0] != "updated_at"@[0]);
    let n = feature_columns();
    assert(n[0] == "feature_name"@);
    assert(n[1] == "enabled"@);
    assert(n[2] == "config_json"@);
    assert(n[3] == "created_at"@);
    assert(n[4] == "updated_at"@);
    reveal_with_fuel(distinct_names, 6);
    reveal_with_fuel(differs_from_all, 5);
}

/// The SELECT of the features' rows: all of them by name, or the one of a
/// given name.
pub open spec fn feature_select_sql(by_name: bool) -> Seq<char> {
    "SELECT "@ + join_seq(feature_columns(), ", "@) + " FROM "@ + "ai_features"@ + (if by_name {
        " WHERE "@ + "feature_name"@ + " = ?"@
    } else {
        " ORDER BY "@ + "feature_name"@ + " ASC"@
    })
}

/// The statements and decisions of the feature store; running the
/// statements is the caller's part.
pub struct AIFeaturesRepository;

impl AIFeaturesRepository {
    fn feature_query(by_name: Option<String>) -> (r: (String, Vec<JsonValue>))
        ensures
            r.0@ == feature_select_sql(by_name is Some),
            r.1@ == (match by_name {
                Some(n) => seq![JsonValue::String(n)],
                None => Seq::<JsonValue>::empty(),
            }),
    {
        let fields: [&str; 5] = ["feature_name", "enabled", "config_json", "created_at", "updated_at"];
        let mut b = SafeQueryBuilder::new(owned("ai_features")).select(&fields);
        let ghost named = by_name;
        let ghost mut cond: Option<QueryCondition> = None;
        let ghost mut ord: Option<QueryOrder> = None;
        match by_name {
            Some(n) => {
                let c = QueryCondition::Eq(owned("feature_name"), JsonValue::String(n));
                proof {
                    cond = Some(c);
                }
                b = b.where_condition(c);
            },
            None => {
                let o = QueryOrder::Asc(owned("feature_name"));
                proof {
                    ord = Some(o);
                }
                b = b.order_by(o);
            },
        }
        let ghost bf = b;
        proof {
            assert(texts(bf.select_fields@) =~= feature_columns());
            assert(joins_sql(bf.joins@) =~= Seq::<char>::empty());
            if named is Some {
                let c = cond->0;
                assert(bf.conditions@ =~= seq![c]);
                assert(cond_sql(c) == "feature_name"@ + " = ?"@);
                assert(list_sql(bf.conditions@, " AND "@) == cond_sql(c));
                assert(bf.orders@.len() == 0);
                assert(bf.conditions@.drop_last() =~= Seq::<QueryCondition>::empty());
                assert(list_params(bf.conditions@) == list_params(bf.conditions@.drop_last()) + cond_params(c));
                assert(cond_params(c) =~= seq![JsonValue::String(named->0)]);
            } else {
                assert(bf.conditions@.len() == 0);
                assert(bf.orders@ =~= seq![ord->0]);
                assert(bf.orders@.map_values(|o: QueryOrder| order_sql(o)) =~= seq!["feature_name"@ + " ASC"@]);
            }
            assert(select_statement(bf) =~= feature_select_sql(named is Some));
            assert(select_params(bf) =~= (match named {
                Some(n) => seq![JsonValue::String(n)],
                None => Seq::<JsonValue>::empty(),
            }));
        }
        match b.build() {
            Ok(out) => out,
            Err(_) => {
                assert(false);
                (String::new(), Vec::new())
            },
        }
    }

    /// The query of the feature of a given name.
    pub fn find_by_feature_name_statement(feature_name: String) -> (r: (String, Vec<JsonValue>))
        ensures
            r.0@ == feature_select_sql(true),
            r.1@ == seq![JsonValue::String(feature_name)],
    {
        Self::feature_query(Some(feature_name))
    }

    /// The query of every feature, by name.
    pub fn find_all_features_statement() -> (r: (String, Vec<JsonValue>))
        ensures
            r.0@ == feature_select_sql(false),
            r.1@.len() == 0,
    {
        Self::feature_query(None)
    }

    /// The `INSERT OR REPLACE` of a feature's row, updated now: its values
    /// in column order (see `feature_columns`), the update time being the
    /// clock's.
    pub fn save_or_update_statement(config: &AIFeatureConfig) -> (r: (String, Vec<JsonValue>))
        ensures
            r.0@ == insert_or_replace_sql("ai_features"@, feature_columns()),
            r.1@.len() == 5,
            r.1@[0] == JsonValue::String(config.feature_name),
            r.1@[1] == JsonValue::Bool(config.enabled),
            r.1@[2] == text_or_null(config.config_json),
            r.1@[3] == JsonValue::String(config.created_at),
            r.1@[4] is String,
    {
        let mut cols: Vec<(String, JsonValue)> = Vec::new();
        cols.push(column("feature_name", JsonValue::String(config.feature_name.clone())));
        cols.push(column("enabled", JsonValue::Bool(config.enabled)));
        cols.push(column("config_json", text_value(&config.config_json)));
        cols.push(column("created_at", JsonValue::String(config.created_at.clone())));
        cols.push(column("updated_at", JsonValue::String(utc_now_rfc3339())));
        proof {
            assert(field_names(cols@) =~= feature_columns());
            lemma_feature_columns_distinct();
            lemma_distinct_names(cols@);
        }
        insert_or_replace_row("ai_features", cols)
    }

    /// The outcome of deleting a feature, from the number of rows the
    /// DELETE removed: refused when it removed none.
    pub fn delete_outcome(feature_name: &str, rows_affected: u64) -> (r: Result<(), RepositoryError>)
        ensures
            rows_affected > 0 ==> r is Ok,
            rows_affected == 0 ==> (r matches Err(RepositoryError::AiFeatureNotFound { name: n }) && n@
                == feature_name@),
    {
        if rows_affected == 0 {
            return Err(RepositoryError::AiFeatureNotFound { name: owned(feature_name) });
        }
        Ok(())
    }

    /// Features are found by name, never by a number.
    pub fn find_by_id(id: i64) -> (r: Result<Option<AIFeatureConfig>, RepositoryError>)
        ensures
            r matches Err(RepositoryError::AiFeatureRequiresStringId { recommended: m }) && m@
                == "find_by_feature_name"@,
    {
        Err(RepositoryError::AiFeatureRequiresStringId { recommended: owned("find_by_feature_name") })
    }

    /// Features are deleted by name, never by a number.
    pub fn delete(id: i64) -> (r: Result<(), RepositoryError>)
        ensures
            r matches Err(RepositoryError::AiFeatureRequiresStringId { recommended: m }) && m@
                == "delete_by_feature_name"@,
    {
        Err(RepositoryError::AiFeatureRequiresStringId { recommended: owned("delete_by_feature_name") })
    }
}


/// The SQL of `delete_by_feature_name_statement`.
pub open spec fn feature_delete_sql() -> Seq<char> {
    "DELETE FROM ai_features WHERE feature_name = ?"@
}

impl AIFeaturesRepository {
    /// The statement that drops the configuration of a feature.
    pub fn delete_by_feature_name_statement(feature_name: &str) -> (r: (String, Vec<JsonValue>))
        ensures
            r.0@ == feature_delete_sql(),
            r.1@.len() == 1,
            text_is(r.1@[0], feature_name@),
    {
        let mut params: Vec<JsonValue> = Vec::new();
        params.push(JsonValue::String(owned(feature_name)));
        (owned("DELETE FROM ai_features WHERE feature_name = ?"), params)
    }
}

} // verus!
