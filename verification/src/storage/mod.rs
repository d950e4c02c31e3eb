//! The storage layer: paths, caches, serialized state, SQL scripts and
//! the records kept in the database.
pub mod backups;
pub mod cache;
pub mod codec;
pub mod commands;
pub mod coordinator;
pub mod database;
pub mod error;
pub mod filesystem;
pub mod key_vault;
pub mod messagepack;
pub mod paths;
pub mod placeholders;
pub mod query;
pub mod recovery;
pub mod repositories;
pub mod sql_scripts;
pub mod toml_config;
pub mod types;
pub mod workspace_index_service;
