//! The AI providers and model kinds that models are configured with.
use vstd::prelude::*;
use crate::text::{chars_eq, chars_of, owned, push_str, str_eq, str_lowercase, to_lowercase};
use crate::json::JsonValue;
use crate::storage::query::{int_or_null, int_value, text_is, text_or_null, text_value};
use crate::clock::utc_now_rfc3339;
use crate::storage::codec::{base64_decode, base64_decoding, base64_encode};
use crate::storage::error::{DatabaseError, RepositoryError};
use crate::storage::key_vault::{decrypt_data, encrypt_data, opened_text};

verus! {

/// Who serves a model.
#[derive(Debug, Clone, Copy, PartialEq, Eq, Structural)]
pub enum AIProvider {
    Anthropic,
    OpenAiCompatible,
}

/// The name under which each provider is stored.
pub open spec fn provider_name(p: AIProvider) -> Seq<char> {
    match p {
        AIProvider::Anthropic => "anthropic"@,
        AIProvider::OpenAiCompatible => "openai_compatible"@,
    }
}

/// The provider a lower-cased name stands for, if any.
pub open spec fn parse_provider(l: Seq<char>) -> Option<AIProvider> {
    if l == "anthropic"@ {
        Some(AIProvider::Anthropic)
    } else if l == "openai_compatible"@ {
        Some(AIProvider::OpenAiCompatible)
    } else {
        None
    }
}

impl AIProvider {
    pub fn as_str(&self) -> (r: &'static str)
        ensures
            r@ == provider_name(*self),
    {
        match self {
            AIProvider::Anthropic => "anthropic",
            AIProvider::OpenAiCompatible => "openai_compatible",
        }
    }

    /// Reads a provider name in any case; an unknown one is refused with
    /// `Unknown AI provider: {s}`.
    pub fn from_str(s: &str) -> (r: Result<Self, RepositoryError>)
        ensures
            match r {
                Ok(p) => parse_provider(str_lowercase(s@)) == Some(p),
                Err(e) => parse_provider(str_lowercase(s@)) is None && (e matches RepositoryError::Validation { reason } && reason@
                    == "Unknown AI provider: "@ + s@),
            },
    {
        let lower = to_lowercase(s);
        let l = chars_of(lower.as_str());
        if str_eq("anthropic", &l) {
            Ok(AIProvider::Anthropic)
        } else if str_eq("openai_compatible", &l) {
            Ok(AIProvider::OpenAiCompatible)
        } else {
            let mut m = owned("Unknown AI provider: ");
            push_str(&mut m, s);
            Err(RepositoryError::Validation { reason: m })
        }
    }
}

/// A provider's stored name reads back as that provider.
pub proof fn law_provider_roundtrip(p: AIProvider)
    ensures
        parse_provider(provider_name(p)) == Some(p),
{
    reveal_strlit("anthropic");
    reveal_strlit("openai_compatible");
    match p {
        AIProvider::Anthropic => {
        },
        AIProvider::OpenAiCompatible => {
            assert("openai_compatible"@.len() != "anthropic"@.len());
        },
    }
}

/// What a model is used for.
#[derive(Debug, Clone, Copy, PartialEq, Eq, Structural)]
pub enum ModelType {
    Chat,
    Embedding,
}

impl Default for ModelType {
    fn default() -> (r: Self)
        ensures
            r == ModelType::Chat,
    {
        ModelType::Chat
    }
}

/// The configuration of one model.
#[derive(Debug)]
pub struct AIModelConfig {
    pub id: String,
    pub provider: AIProvider,
    pub api_url: String,
    pub api_key: String,
    pub model: String,
    pub model_type: ModelType,
    pub options: Option<JsonValue>,
    pub use_custom_base_url: Option<bool>,
    /// RFC 3339, UTC
    pub created_at: String,
    /// RFC 3339, UTC
    pub updated_at: String,
}

/// The stored name of a model kind.
pub open spec fn model_type_name(t: ModelType) -> Seq<char> {
    match t {
        ModelType::Chat => "chat"@,
        ModelType::Embedding => "embedding"@,
    }
}

impl ModelType {
    /// The stored name (the display text).
    pub fn as_str(&self) -> (r: &'static str)
        ensures
            r@ == model_type_name(*self),
    {
        match self {
            ModelType::Chat => "chat",
            ModelType::Embedding => "embedding",
        }
    }

    /// Reads a stored name, exactly; another is refused with `Unknown model
    /// type: {s}`.
    pub fn from_str(s: &str) -> (r: Result<Self, RepositoryError>)
        ensures
            match r {
                Ok(t) => model_type_name(t) == s@,
                Err(e) => s@ != "chat"@ && s@ != "embedding"@ && (e matches RepositoryError::Validation { reason }
                    && reason@ == "Unknown model type: "@ + s@),
            },
    {
        let c = chars_of(s);
        if str_eq("chat", &c) {
            Ok(ModelType::Chat)
        } else if str_eq("embedding", &c) {
            Ok(ModelType::Embedding)
        } else {
            let mut m = owned("Unknown model type: ");
            push_str(&mut m, s);
            Err(RepositoryError::Validation { reason: m })
        }
    }
}

/// Two model kinds with the same stored name are the same kind, so a
/// stored name reads back as the kind that wrote it.
pub proof fn law_model_type_roundtrip(a: ModelType, b: ModelType)
    ensures
        model_type_name(a) == model_type_name(b) ==> a == b,
{
    reveal_strlit("chat");
    reveal_strlit("embedding");
    assert("chat"@.len() != "embedding"@.len());
}

/// A lower-case hexadecimal digit.
pub open spec fn hex_digit(c: char) -> bool {
    ('0' <= c && c <= '9') || ('a' <= c && c <= 'f')
}

/// The text of a random (version 4) UUID: 36 characters, hyphens at 8,
/// 13, 18 and 23, lower-case hexadecimal digits elsewhere, `4` as the
/// version digit and `8` to `b` as the variant digit.
pub open spec fn uuid_v4_text(s: Seq<char>) -> bool {
    &&& s.len() == 36
    &&& forall|i: int|
        0 <= i < 36 ==> if i == 8 || i == 13 || i == 18 || i == 23 {
            s[i] == '-'
        } else {
            hex_digit(#[trigger] s[i])
        }
    &&& s[14] == '4'
    &&& (s[19] == '8' || s[19] == '9' || s[19] == 'a' || s[19] == 'b')
}

/// `uuid::Uuid::new_v4()` in its hyphenated lower-case text
/// (`to_string`). The value is random: only its form is stated.
#[verifier::external_body]
fn new_uuid_v4() -> (r: String)
    ensures
        uuid_v4_text(r@),
{
    uuid::Uuid::new_v4().to_string()
}

impl AIModelConfig {
    /// A new chat model configuration with a fresh random id, without
    /// options, created and updated now.
    pub fn new(provider: AIProvider, api_url: String, api_key: String, model: String) -> (r: Self)
        ensures
            uuid_v4_text(r.id@),
            r.provider == provider,
            r.api_url == api_url,
            r.api_key == api_key,
            r.model == model,
            r.model_type == ModelType::Chat,
            r.options is None,
            r.use_custom_base_url is None,
            r.created_at == r.updated_at,
    {
        Self::with_model_type(provider, api_url, api_key, model, ModelType::Chat)
    }

    /// A new model configuration of the given kind with a fresh random id,
    /// without options, created and updated now.
    pub fn with_model_type(
        provider: AIProvider,
        api_url: String,
        api_key: String,
        model: String,
        model_type: ModelType,
    ) -> (r: Self)
        ensures
            uuid_v4_text(r.id@),
            r.provider == provider,
            r.api_url == api_url,
            r.api_key == api_key,
            r.model == model,
            r.model_type == model_type,
            r.options is None,
            r.use_custom_base_url is None,
            r.created_at == r.updated_at,
    {
        let now = utc_now_rfc3339();
        AIModelConfig {
            id: new_uuid_v4(),
            provider,
            api_url,
            api_key,
            model,
            model_type,
            options: None,
            use_custom_base_url: None,
            created_at: now.clone(),
            updated_at: now,
        }
    }
}

/// The API key read back from its stored form: the Base64 text of the
/// sealed key. No stored key, an empty one, one that is not Base64 or one
/// that does not open all read as the empty key.
pub open spec fn api_key_from_stored(encryption: bool, key: Seq<u8>, stored: Option<Seq<char>>) -> Seq<char> {
    match stored {
        None => Seq::empty(),
        Some(text) => if text.len() == 0 {
            Seq::empty()
        } else {
            match base64_decoding(text) {
                None => Seq::empty(),
                Some(bytes) => if encryption {
                    match opened_text(key, bytes) {
                        Some(k) => k,
                        None => Seq::empty(),
                    }
                } else {
                    Seq::empty()
                },
            }
        },
    }
}

/// An API key stored as the Base64 text of its sealed form reads back as
/// the key, under the key that sealed it.
pub proof fn law_api_key_roundtrip(key: Seq<u8>, api_key: Seq<char>, stored: Seq<char>, sealed: Seq<u8>)
    requires
        stored.len() > 0,
        base64_decoding(stored) == Some(sealed),
        opened_text(key, sealed) == Some(api_key),
    ensures
        api_key_from_stored(true, key, Some(stored)) == api_key,
{
}

/// `k` is the first position of a model with the given id.
pub open spec fn first_with_id(models: Seq<AIModelConfig>, id: Seq<char>, k: int) -> bool {
    &&& 0 <= k < models.len()
    &&& models[k].id@ == id
    &&& forall|j: int| 0 <= j < k ==> (#[trigger] models[j]).id@ != id
}

/// The model store's decisions; reading and writing the rows are the
/// caller's part.
pub struct AIModels;

impl AIModels {
    /// The API key of a stored row (see `api_key_from_stored`).
    pub fn decode_api_key(encryption: bool, key: &[u8], stored: Option<&str>) -> (r: String)
        requires
            key@.len() == 32,
        ensures
            r@ == api_key_from_stored(
                encryption,
                key@,
                match stored {
                    Some(t) => Some(t@),
                    None => None,
                },
            ),
    {
        match stored {
            None => String::new(),
            Some(text) => {
                if text.unicode_len() == 0 {
                    return String::new();
                }
                match base64_decode(text) {
                    Err(_) => String::new(),
                    Ok(bytes) => match decrypt_data(encryption, key, bytes.as_slice()) {
                        Ok(k) => k,
                        Err(_) => String::new(),
                    },
                }
            },
        }
    }

    /// The stored form of an API key: the Base64 text of the key sealed
    /// under `key`, which reads back as the key; `None` for an empty key,
    /// whose stored form is kept as it was.
    pub fn encode_api_key(encryption: bool, key: &[u8], api_key: &str) -> (r: Result<Option<String>, DatabaseError>)
        requires
            key@.len() == 32,
        ensures
            api_key@.len() == 0 ==> r == Ok::<Option<String>, DatabaseError>(None),
            api_key@.len() > 0 && !encryption ==> r == Err::<Option<String>, DatabaseError>(
                DatabaseError::EncryptionNotEnabled,
            ),
            api_key@.len() > 0 && encryption ==> match r {
                Ok(Some(t)) => api_key_from_stored(encryption, key@, Some(t@)) == api_key@,
                Ok(None) => false,
                Err(e) => e is Encryption,
            },
    {
        if api_key.unicode_len() == 0 {
            return Ok(None);
        }
        match encrypt_data(encryption, key, api_key) {
            Err(e) => Err(e),
            Ok(sealed) => {
                let t = base64_encode(sealed.as_slice());
                Ok(Some(t))
            },
        }
    }

    /// Whether a row asks for a custom base URL (stored as an integer).
    pub fn use_custom_base_url(stored: Option<i64>) -> (r: Option<bool>)
        ensures
            r == (match stored {
                Some(v) => Some(v != 0),
                None => None,
            }),
    {
        match stored {
            Some(v) => Some(v != 0),
            None => None,
        }
    }

    /// The first model with the given id.
    pub fn find_by_id(models: Vec<AIModelConfig>, id: &str) -> (r: Option<AIModelConfig>)
        ensures
            match r {
                Some(m) => m.id@ == id@ && exists|k: int|
                    #[trigger] first_with_id(models@, id@, k) && models@[k] == m,
                None => forall|j: int| 0 <= j < models@.len() ==> (#[trigger] models@[j]).id@ != id@,
            },
    {
        let want = chars_of(id);
        let mut i: usize = 0;
        while i < models.len()
            invariant
                i <= models@.len(),
                want@ == id@,
                forall|j: int| 0 <= j < i ==> (#[trigger] models@[j]).id@ != id@,
            decreases models.len() - i,
        {
            if chars_eq(&chars_of(models[i].id.as_str()), &want) {
                assert(first_with_id(models@, id@, i as int));
                let ghost before = models@;
                let mut v = models;
                let m = v.swap_remove(i);
                assert(m == before[i as int]);
                return Some(m);
            }
            i += 1;
        }
        None
    }

    /// The outcome of deleting model `id`, from the number of rows the
    /// DELETE removed: refused when it removed none.
    pub fn delete_outcome(id: &str, rows_affected: u64) -> (r: Result<(), RepositoryError>)
        ensures
            rows_affected > 0 ==> r is Ok,
            rows_affected == 0 ==> (r matches Err(RepositoryError::AiModelNotFound { id: t }) && t@
                == id@),
    {
        if rows_affected == 0 {
            return Err(RepositoryError::AiModelNotFound { id: owned(id) });
        }
        Ok(())
    }
}


// The statements of the model store, and the reading of its rows.

/// The SQL of `find_all_statement`.
pub open spec fn ai_models_all_sql() -> Seq<char> {
    r#"
            SELECT id, provider, api_url, api_key_encrypted, model_name, model_type,
                   config_json, use_custom_base_url, created_at, updated_at
            FROM ai_models
            ORDER BY created_at ASC
            "#@
}

/// The SQL of `existing_key_statement`.
pub open spec fn ai_model_key_sql() -> Seq<char> {
    "SELECT api_key_encrypted FROM ai_models WHERE id = ?"@
}

/// The SQL of `delete_statement`.
pub open spec fn ai_model_delete_sql() -> Seq<char> {
    "DELETE FROM ai_models WHERE id = ?"@
}

/// The SQL of `save_statement`.
pub open spec fn ai_model_save_sql() -> Seq<char> {
    r#"
            INSERT OR REPLACE INTO ai_models 
            (id, provider, api_url, api_key_encrypted, model_name, model_type, 
             config_json, use_custom_base_url, created_at, updated_at)
            VALUES (?, ?, ?, ?, ?, ?, ?, ?, ?, ?)
            "#@
}

/// A custom base URL flag as stored: 1 or 0, or nothing.
pub open spec fn flag_value(v: Option<bool>) -> Option<i64> {
    match v {
        Some(b) => Some(if b { 1i64 } else { 0i64 }),
        None => None,
    }
}

/// The values read from one row of `ai_models` (the options already read
/// from their JSON text, `None` when absent or unreadable).
#[derive(Debug)]
pub struct AIModelRow {
    pub id: String,
    pub provider: String,
    pub api_url: String,
    pub api_key_encrypted: Option<String>,
    pub model_name: String,
    pub model_type: String,
    pub options: Option<JsonValue>,
    pub use_custom_base_url: Option<i64>,
    pub created_at: String,
    pub updated_at: String,
}

/// The text of an optional string.
pub open spec fn opt_view(v: Option<String>) -> Option<Seq<char>> {
    match v {
        Some(s) => Some(s@),
        None => None,
    }
}

impl AIModels {
    /// The query of every model, oldest first.
    pub fn find_all_statement() -> (r: (String, Vec<JsonValue>))
        ensures
            r.0@ == ai_models_all_sql(),
            r.1@.len() == 0,
    {
        (owned(r#"
            SELECT id, provider, api_url, api_key_encrypted, model_name, model_type,
                   config_json, use_custom_base_url, created_at, updated_at
            FROM ai_models
            ORDER BY created_at ASC
            "#), Vec::new())
    }

    /// The query of the stored key of model `id`.
    pub fn existing_key_statement(id: &str) -> (r: (String, Vec<JsonValue>))
        ensures
            r.0@ == ai_model_key_sql(),
            r.1@.len() == 1,
            text_is(r.1@[0], id@),
    {
        let mut params: Vec<JsonValue> = Vec::new();
        params.push(JsonValue::String(owned(id)));
        (owned("SELECT api_key_encrypted FROM ai_models WHERE id = ?"), params)
    }

    /// The statement that drops model `id`.
    pub fn delete_statement(id: &str) -> (r: (String, Vec<JsonValue>))
        ensures
            r.0@ == ai_model_delete_sql(),
            r.1@.len() == 1,
            text_is(r.1@[0], id@),
    {
        let mut params: Vec<JsonValue> = Vec::new();
        params.push(JsonValue::String(owned(id)));
        (owned("DELETE FROM ai_models WHERE id = ?"), params)
    }

    /// The INSERT OR REPLACE of a model's row: the key in its stored form (`encrypted_key`) and the options as JSON text (`config_json`), each null when absent; a custom base URL flag is stored as 1 or 0.
    pub fn save_statement(model: &AIModelConfig, encrypted_key: Option<String>, config_json: Option<String>) -> (r: (String, Vec<JsonValue>))
        ensures
            r.0@ == ai_model_save_sql(),
            r.1@.len() == 10,
            r.1@[0] == JsonValue::String(model.id),
            text_is(r.1@[1], provider_name(model.provider)),
            r.1@[2] == JsonValue::String(model.api_url),
            r.1@[3] == text_or_null(encrypted_key),
            r.1@[4] == JsonValue::String(model.model),
            text_is(r.1@[5], model_type_name(model.model_type)),
            r.1@[6] == text_or_null(config_json),
            r.1@[7] == int_or_null(flag_value(model.use_custom_base_url)),
            r.1@[8] == JsonValue::String(model.created_at),
            r.1@[9] == JsonValue::String(model.updated_at),
    {
        let mut params: Vec<JsonValue> = Vec::new();
        params.push(JsonValue::String(model.id.clone()));
        params.push(JsonValue::String(owned(model.provider.as_str())));
        params.push(JsonValue::String(model.api_url.clone()));
        params.push(text_value(&encrypted_key));
        params.push(JsonValue::String(model.model.clone()));
        params.push(JsonValue::String(owned(model.model_type.as_str())));
        params.push(text_value(&config_json));
        params.push(int_value(match model.use_custom_base_url { Some(b) => Some(if b { 1i64 } else { 0i64 }), None => None }));
        params.push(JsonValue::String(model.created_at.clone()));
        params.push(JsonValue::String(model.updated_at.clone()));
        (owned(r#"
            INSERT OR REPLACE INTO ai_models 
            (id, provider, api_url, api_key_encrypted, model_name, model_type, 
             config_json, use_custom_base_url, created_at, updated_at)
            VALUES (?, ?, ?, ?, ?, ?, ?, ?, ?, ?)
            "#), params)
    }

    /// The model of a row: its provider and kind read from their stored
    /// names (an unknown one refuses the row, the provider first), its key
    /// opened from its stored form (see `api_key_from_stored`), the rest as
    /// read.
    pub fn model_from_row(row: AIModelRow, encryption: bool, key: &[u8]) -> (r: Result<AIModelConfig, RepositoryError>)
        requires
            key@.len() == 32,
        ensures
            parse_provider(str_lowercase(row.provider@)) is Some && (row.model_type@ == "chat"@
                || row.model_type@ == "embedding"@) ==> r is Ok,
            match r {
                Ok(m) => {
                    &&& parse_provider(str_lowercase(row.provider@)) == Some(m.provider)
                    &&& model_type_name(m.model_type) == row.model_type@
                    &&& m.id == row.id
                    &&& m.api_url == row.api_url
                    &&& m.api_key@ == api_key_from_stored(encryption, key@, opt_view(row.api_key_encrypted))
                    &&& m.model == row.model_name
                    &&& m.options == row.options
                    &&& m.use_custom_base_url == (match row.use_custom_base_url {
                        Some(v) => Some(v != 0),
                        None => None,
                    })
                    &&& m.created_at == row.created_at
                    &&& m.updated_at == row.updated_at
                },
                Err(e) => {
                    ||| parse_provider(str_lowercase(row.provider@)) is None && (e matches RepositoryError::Validation {
                        reason,
                    } && reason@ == "Unknown AI provider: "@ + row.provider@)
                    ||| parse_provider(str_lowercase(row.provider@)) is Some && row.model_type@ != "chat"@
                        && row.model_type@ != "embedding"@ && (e matches RepositoryError::Validation { reason }
                        && reason@ == "Unknown model type: "@ + row.model_type@)
                },
            },
    {
        let provider = match AIProvider::from_str(row.provider.as_str()) {
            Ok(p) => p,
            Err(e) => return Err(e),
        };
        let model_type = match ModelType::from_str(row.model_type.as_str()) {
            Ok(t) => t,
            Err(e) => return Err(e),
        };
        let api_key = Self::decode_api_key(
            encryption,
            key,
            match &row.api_key_encrypted {
                Some(t) => Some(t.as_str()),
                None => None,
            },
        );
        let use_custom_base_url = Self::use_custom_base_url(row.use_custom_base_url);
        Ok(AIModelConfig {
            id: row.id,
            provider,
            api_url: row.api_url,
            api_key,
            model: row.model_name,
            model_type,
            options: row.options,
            use_custom_base_url,
            created_at: row.created_at,
            updated_at: row.updated_at,
        })
    }
}

} // verus!
