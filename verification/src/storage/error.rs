//! Error types of the storage layer.
//!
//! Paths are carried as their text, and an underlying I/O failure as the
//! message that the failing operation reported.
use vstd::prelude::*;
use crate::text::owned;

verus! {

/// Errors of the storage path layout.
#[derive(Debug, Clone, PartialEq, Eq)]
pub enum StoragePathsError {
    AppDirectoryMissing,
    DirectoryAccess { path: String, source: String },
    DirectoryCreate { path: String, source: String },
    DirectorySize { path: String, source: String },
    Internal(String),
}

impl StoragePathsError {
    pub fn directory_access(path: String, source: String) -> (r: Self)
        ensures
            r == (StoragePathsError::DirectoryAccess { path, source }),
    {
        StoragePathsError::DirectoryAccess { path, source }
    }

    pub fn directory_create(path: String, source: String) -> (r: Self)
        ensures
            r == (StoragePathsError::DirectoryCreate { path, source }),
    {
        StoragePathsError::DirectoryCreate { path, source }
    }

    pub fn directory_size(path: String, source: String) -> (r: Self)
        ensures
            r == (StoragePathsError::DirectorySize { path, source }),
    {
        StoragePathsError::DirectorySize { path, source }
    }

    pub fn internal(message: String) -> (r: Self)
        ensures
            r == StoragePathsError::Internal(message),
    {
        StoragePathsError::Internal(message)
    }
}

/// Errors of the SQL query builders.
#[derive(Debug, Clone, PartialEq, Eq)]
pub enum QueryBuilderError {
    InsertFieldsEmpty,
    UpdateFieldsEmpty,
    Internal(String),
}

impl QueryBuilderError {
    pub fn internal(message: String) -> (r: Self)
        ensures
            r == QueryBuilderError::Internal(message),
    {
        QueryBuilderError::Internal(message)
    }
}

/// Errors of the SQL script loader.
#[derive(Debug, Clone, PartialEq, Eq)]
pub enum SqlScriptError {
    DirectoryMissing { path: String },
    ReadDirectory { path: String, source: String },
    WalkDirectory { path: String, source: String },
    InvalidFileName { path: String },
    ReadFile { path: String, source: String },
    ParseOrder { filename: String, source: String },
    MissingOrder { filename: String },
    ParseStatement { reason: String },
    EmptyCatalog,
    Internal(String),
}

impl SqlScriptError {
    pub fn read_directory(path: String, source: String) -> (r: Self)
        ensures
            r == (SqlScriptError::ReadDirectory { path, source }),
    {
        SqlScriptError::ReadDirectory { path, source }
    }

    pub fn walk_directory(path: String, source: String) -> (r: Self)
        ensures
            r == (SqlScriptError::WalkDirectory { path, source }),
    {
        SqlScriptError::WalkDirectory { path, source }
    }

    pub fn read_file(path: String, source: String) -> (r: Self)
        ensures
            r == (SqlScriptError::ReadFile { path, source }),
    {
        SqlScriptError::ReadFile { path, source }
    }

    pub fn parse_statement(reason: String) -> (r: Self)
        ensures
            r == (SqlScriptError::ParseStatement { reason }),
    {
        SqlScriptError::ParseStatement { reason }
    }

    pub fn internal(message: String) -> (r: Self)
        ensures
            r == SqlScriptError::Internal(message),
    {
        SqlScriptError::Internal(message)
    }
}

/// Errors of the database layer.
#[derive(Debug, Clone, PartialEq, Eq)]
pub enum DatabaseError {
    /// the database driver reported an error
    Sqlx(String),
    Io { context: String, source: String },
    KeyDerivation(String),
    Encryption(String),
    Base64(String),
    Utf8(String),
    SqlScript(String),
    EncryptionNotEnabled,
    InvalidEncryptedData,
    InsufficientKeyLength,
    InvalidKeyLength,
    KeyVaultUnavailable,
    Internal(String),
}

impl DatabaseError {
    pub fn io(context: String, source: String) -> (r: Self)
        ensures
            r == (DatabaseError::Io { context, source }),
    {
        DatabaseError::Io { context, source }
    }

    pub fn internal(message: String) -> (r: Self)
        ensures
            r == DatabaseError::Internal(message),
    {
        DatabaseError::Internal(message)
    }
}

/// Errors of the repositories.
#[derive(Debug, Clone, PartialEq, Eq)]
pub enum RepositoryError {
    /// the database driver reported an error
    Database(String),
    /// a value did not serialize or parse as JSON
    Serialization(String),
    /// a stored time did not parse
    TimestampParse(String),
    Query(QueryBuilderError),
    AiModelNotFound { id: String },
    AiFeatureNotFound { name: String },
    CommandHistoryNotFound { id: String },
    AuditLogNotFound { id: String },
    AiModelRequiresStringId { recommended: String },
    AiFeatureRequiresStringId { recommended: String },
    AuditLogUpdateNotSupported,
    CommandHistoryUpdateNotSupported,
    UnsupportedNumberType,
    UnsupportedParameterType { name: String },
    Validation { reason: String },
    Internal(String),
}

impl RepositoryError {
    pub fn unsupported_parameter(name: &str) -> (r: Self)
        ensures
            r matches RepositoryError::UnsupportedParameterType { name: n } && n@ == name@,
    {
        RepositoryError::UnsupportedParameterType { name: owned(name) }
    }

    pub fn internal(message: String) -> (r: Self)
        ensures
            r == RepositoryError::Internal(message),
    {
        RepositoryError::Internal(message)
    }
}

} // verus!
