use orbitx_storage::utils::api_response::ApiResponse;
use orbitx_storage::json::JsonValue;
use orbitx_storage::storage::backups::{
    backup_file_name, backup_prefix, backups_newest_first, backups_to_remove, has_bak_extension,
    newest_first_order, oldest_backups,
};
use orbitx_storage::storage::cache::UnifiedCache;
use orbitx_storage::storage::commands::{check_workspace_id, check_workspace_name, resolve_workspace_path};
use orbitx_storage::storage::database::{default_feature_statement, default_features, startup_pragmas, statements_to_run};
use orbitx_storage::storage::error::RepositoryError;
use orbitx_storage::storage::sql_scripts::SqlScript;
use orbitx_storage::storage::filesystem::{FileSystemManager, FileSystemOptions, WriteStep};
use orbitx_storage::storage::messagepack::{MessagePackManager, MessagePackOptions};
use orbitx_storage::storage::paths::StoragePaths;
use orbitx_storage::storage::repositories::agent::{AgentContextSnapshotRepository, ContextType};
use orbitx_storage::storage::repositories::ai_features::{AIFeatureConfig, AIFeaturesRepository};
use orbitx_storage::storage::repositories::command_history::{
    batch_save_statements, delete_outcome, recent_activity_query, update_refused,
    usage_stats_statement, CommandHistoryEntry, HistoryPage,
};
use orbitx_storage::storage::repositories::conversations::{
    Conversation, ConversationRepository, Message,
};
use orbitx_storage::storage::repositories::app_preferences::AppPreferences;
use orbitx_storage::storage::repositories::vector_workspaces::{
    IndexStatus, VectorWorkspaceRepository, WorkspaceIndex,
};
use orbitx_storage::storage::repositories::recent_workspaces::{
    cleanup_cutoff, expand_home, normalized_path, trim_trailing_slashes,
};

fn text(t: &str) -> JsonValue {
    JsonValue::String(t.to_string())
}

#[test]
fn feature_statements() {
    let cols = "feature_name, enabled, config_json, created_at, updated_at";
    let (sql, params) = AIFeaturesRepository::find_by_feature_name_statement("chat".to_string());
    assert_eq!(sql, format!("SELECT {} FROM ai_features WHERE feature_name = ?", cols));
    assert_eq!(params, vec![text("chat")]);
    let (sql, params) = AIFeaturesRepository::find_all_features_statement();
    assert_eq!(sql, format!("SELECT {} FROM ai_features ORDER BY feature_name ASC", cols));
    assert!(params.is_empty());
    let config = AIFeatureConfig::new("chat".to_string(), true, Some("{}".to_string()));
    assert_eq!(config.created_at, config.updated_at);
    let (sql, params) = AIFeaturesRepository::save_or_update_statement(&config);
    assert_eq!(
        sql,
        format!("INSERT OR REPLACE INTO ai_features ({}) VALUES (?, ?, ?, ?, ?)", cols)
    );
    assert_eq!(params[0], text("chat"));
    assert_eq!(params[1], JsonValue::Bool(true));
    assert_eq!(params[2], text("{}"));
    assert!(matches!(params[4], JsonValue::String(_)));
}

#[test]
fn feature_decisions() {
    assert!(AIFeaturesRepository::delete_outcome("chat", 1).is_ok());
    assert_eq!(
        AIFeaturesRepository::delete_outcome("chat", 0),
        Err(RepositoryError::AiFeatureNotFound { name: "chat".to_string() })
    );
    assert_eq!(
        AIFeaturesRepository::find_by_id(3).unwrap_err(),
        RepositoryError::AiFeatureRequiresStringId { recommended: "find_by_feature_name".to_string() }
    );
    assert_eq!(
        AIFeaturesRepository::delete(3).unwrap_err(),
        RepositoryError::AiFeatureRequiresStringId { recommended: "delete_by_feature_name".to_string() }
    );
}

#[test]
fn conversation_statements() {
    let (sql, params) = ConversationRepository::find_conversations_statement(Some(10), Some(20));
    assert_eq!(
        sql,
        "SELECT id, title, message_count, created_at, updated_at FROM ai_conversations ORDER BY updated_at DESC LIMIT ? OFFSET ?"
    );
    assert_eq!(params, vec![JsonValue::Number(10), JsonValue::Number(20)]);
    let (sql, params) = ConversationRepository::get_messages_statement(4, None, None);
    assert_eq!(
        sql,
        "SELECT id, conversation_id, role, content, steps_json, status, duration_ms, created_at FROM ai_messages WHERE conversation_id = ? ORDER BY created_at ASC"
    );
    assert_eq!(params, vec![JsonValue::Number(4)]);

    let mut message = Message::new(4, "user".to_string(), "hi".to_string());
    message.duration_ms = Some(12);
    let (sql, params) = ConversationRepository::save_message_statement(&message);
    assert_eq!(
        sql,
        "INSERT INTO ai_messages (conversation_id, role, content, steps_json, status, duration_ms, created_at) VALUES (?, ?, ?, ?, ?, ?, ?)"
    );
    assert_eq!(params[3], JsonValue::Null);
    assert_eq!(params[5], JsonValue::Number(12));

    let conversation = Conversation::new("chat".to_string());
    let (sql, params) = ConversationRepository::save_statement(&conversation);
    assert_eq!(
        sql,
        "INSERT INTO ai_conversations (title, message_count, created_at, updated_at) VALUES (?, ?, ?, ?)"
    );
    assert_eq!(params[0], text("chat"));
    assert_eq!(params[1], JsonValue::Number(0));
}

#[test]
fn conversation_decisions() {
    let mut conversation = Conversation::new("t".to_string());
    assert_eq!(
        ConversationRepository::update_target(&conversation).unwrap_err(),
        "无法更新没有ID的会话"
    );
    conversation.id = Some(8);
    assert_eq!(ConversationRepository::update_target(&conversation), Ok(8));
    assert_eq!(ConversationRepository::delete_outcome(8, 0).unwrap_err(), "会话不存在: 8");
    assert!(ConversationRepository::delete_outcome(8, 1).is_ok());
}

#[test]
fn command_history_extras() {
    let q = recent_activity_query();
    assert_eq!(q.pagination, Some(HistoryPage { limit: Some(20), offset: None }));
    let e1 = CommandHistoryEntry::new("ls".to_string(), "/".to_string(), Some(0), None, None, None);
    let e2 = CommandHistoryEntry::new("pwd".to_string(), "/h".to_string(), None, None, Some(5), None);
    let statements = batch_save_statements(&vec![e1.clone(), e2.clone()]);
    assert_eq!(statements.len(), 2);
    assert!(statements[0].0.starts_with("INSERT INTO command_history ("));
    assert_eq!(statements[0].1[0], text("ls"));
    assert_eq!(statements[1].1[0], text("pwd"));
    assert!(batch_save_statements(&vec![]).is_empty());
    let (sql, params) = usage_stats_statement(&e2);
    assert!(sql.starts_with("INSERT INTO command_usage_stats"));
    assert_eq!(params[0], text("9003d1df22eb4d3820015070385194c8"));
    assert_eq!(params[1], text("pwd"));
    assert_eq!(params[4], JsonValue::Number(5));
    let (_, params) = usage_stats_statement(&e1);
    assert_eq!(params[4], JsonValue::Number(0));
    assert_eq!(update_refused().unwrap_err(), "Command history does not support update operations");
    assert_eq!(delete_outcome(3, 0).unwrap_err(), "Command history entry does not exist: 3");
    assert!(delete_outcome(3, 2).is_ok());
}

#[test]
fn workspace_paths() {
    assert_eq!(expand_home("~/code", Some("/home/u")), "/home/u/code");
    assert_eq!(expand_home("~/code", None), "~/code");
    assert_eq!(expand_home("~code", Some("/home/u")), "~code");
    assert_eq!(trim_trailing_slashes("/a/b///"), "/a/b");
    assert_eq!(trim_trailing_slashes("///"), "");
    assert_eq!(normalized_path("/x/", None).unwrap(), "/x");
    assert_eq!(normalized_path("/x/", Some(Ok("/real/x".to_string()))).unwrap(), "/real/x");
    assert_eq!(
        normalized_path("/x", Some(Err("denied".to_string()))).unwrap_err(),
        RepositoryError::Validation { reason: "Failed to canonicalize path: denied".to_string() }
    );
    assert_eq!(cleanup_cutoff(1_000_000, 2), 1_000_000 - 172_800);
}

#[test]
fn snapshots_rebuilt() {
    let full = AgentContextSnapshotRepository::full_snapshot("t".to_string(), 1, "[]".to_string(), None);
    assert_eq!(full.context_type, ContextType::Full);
    let inc = AgentContextSnapshotRepository::incremental_snapshot(
        "t".to_string(),
        2,
        "[1]".to_string(),
        Some("{}".to_string()),
    );
    assert_eq!(inc.context_type, ContextType::Incremental);
    assert_eq!(inc.additional_state_json.as_deref(), Some("{}"));

    let base = JsonValue::Array(vec![text("a")]);
    let incs = vec![
        JsonValue::Array(vec![text("b"), text("c")]),
        text("not a list"),
        JsonValue::Array(vec![text("d")]),
    ];
    assert_eq!(
        AgentContextSnapshotRepository::rebuild_context(Some(base), incs),
        Some(JsonValue::Array(vec![text("a"), text("b"), text("c"), text("d")]))
    );
    assert_eq!(
        AgentContextSnapshotRepository::rebuild_context(Some(text("x")), vec![JsonValue::Array(vec![])]),
        Some(text("x"))
    );
    assert_eq!(AgentContextSnapshotRepository::rebuild_context(None, vec![]), None);

    let real = || JsonValue::NumberText("1.5".to_string());
    assert_eq!(
        AgentContextSnapshotRepository::rebuild_context(
            Some(JsonValue::Array(vec![real()])),
            vec![JsonValue::Array(vec![real()])]
        ),
        Some(JsonValue::Array(vec![real(), real()]))
    );
}

#[test]
fn backup_names() {
    assert!(has_bak_extension("state.msgpack.bak"));
    assert!(has_bak_extension("a.bak"));
    assert!(!has_bak_extension(".bak"));
    assert!(!has_bak_extension("bak"));
    assert!(!has_bak_extension("a.bak.tmp"));
    assert_eq!(backup_prefix(Some("config.toml")), "config_toml");
    assert_eq!(backup_prefix(None), "unknown");
    assert_eq!(backup_file_name("config_toml", 1700000000), "config_toml.1700000000.bak");
}

#[test]
fn oldest_backups_go_first() {
    let mut removed = oldest_backups(&vec![50, 10, 40, 10, 30], 2);
    removed.sort();
    assert_eq!(removed, vec![1, 3, 4]);
    assert!(oldest_backups(&vec![5, 6], 3).is_empty());
    let entries = vec![
        ("s.bak".to_string(), Some(30)),
        ("notes.txt".to_string(), Some(1)),
        ("t.bak".to_string(), None),
        ("u.bak".to_string(), Some(10)),
        ("v.bak".to_string(), Some(20)),
    ];
    let mut gone = backups_to_remove(&entries, None, 1);
    gone.sort();
    assert_eq!(gone, vec!["u.bak".to_string(), "v.bak".to_string()]);
    let files = vec![
        ("config_toml.1.bak".to_string(), Some(1)),
        ("config_toml.2.bak".to_string(), Some(2)),
        ("other.3.bak".to_string(), Some(0)),
    ];
    assert_eq!(backups_to_remove(&files, Some("config_toml"), 1), vec!["config_toml.1.bak".to_string()]);
}

#[test]
fn backups_are_restored_newest_first() {
    assert_eq!(newest_first_order(&vec![50, 10, 40, 10, 30]), vec![0, 2, 4, 1, 3]);
    assert!(newest_first_order(&vec![]).is_empty());
    let entries = vec![
        ("a.bak".to_string(), Some(20)),
        ("notes.txt".to_string(), Some(99)),
        ("b.bak".to_string(), Some(30)),
        ("c.bak".to_string(), None),
        ("d.bak".to_string(), Some(20)),
    ];
    assert_eq!(
        backups_newest_first(&entries),
        vec!["b.bak".to_string(), "a.bak".to_string(), "d.bak".to_string()]
    );
}

#[test]
fn state_stats_summarised() {
    let paths = StoragePaths::new("/app".to_string());
    let manager = MessagePackManager::new(paths, MessagePackOptions::default());
    let entries = vec![
        ("a.bak".to_string(), Some(100)),
        ("b.bak".to_string(), None),
        ("c.txt".to_string(), Some(7)),
    ];
    let stats = manager.get_state_stats(Some(Some(42)), &entries);
    assert!(stats.state_file_exists);
    assert_eq!(stats.state_file_size, 42);
    assert_eq!(stats.backup_count, 2);
    assert_eq!(stats.backup_total_size, 100);
    assert!(stats.compression_enabled && stats.checksum_validation_enabled);
    let missing = manager.get_state_stats(None, &vec![]);
    assert!(!missing.state_file_exists);
    assert_eq!(missing.state_file_size, 0);
}

#[test]
fn cache_batch_reads() {
    let mut cache: UnifiedCache<i64> = UnifiedCache::new();
    cache.set("a", 1, 0);
    cache.set_with_ttl("b", 2, 10, 0);
    cache.set("c", 3, 0);
    let keys = vec!["a".to_string(), "b".to_string(), "z".to_string(), "a".to_string(), "c".to_string()];
    let got = cache.get_batch(&keys, 20);
    assert_eq!(got, vec![("a".to_string(), 1), ("c".to_string(), 3)]);
    assert!(!cache.contains_key("b", 20));
    let snap = cache.snapshot("a", 21).unwrap();
    assert_eq!(snap.hit_count, 3);
}

#[test]
fn write_plans() {
    let paths = StoragePaths::new("/app".to_string());
    let atomic = FileSystemManager::new(paths.clone(), FileSystemOptions::default());
    assert_eq!(
        atomic.write_plan(true, true),
        vec![
            WriteStep::CreateParentDir,
            WriteStep::WriteTemp,
            WriteStep::SetTempPermissions(0o644),
            WriteStep::Backup,
            WriteStep::RenameTemp
        ]
    );
    assert_eq!(
        atomic.write_plan(false, false),
        vec![WriteStep::WriteTemp, WriteStep::SetTempPermissions(0o644), WriteStep::RenameTemp]
    );
    let direct = FileSystemManager::new(
        paths,
        FileSystemOptions {
            backup_enabled: true,
            backup_count: 2,
            atomic_write: false,
            file_permissions: None,
            dir_permissions: None,
        },
    );
    assert_eq!(
        direct.write_plan(true, true),
        vec![WriteStep::CreateParentDir, WriteStep::Backup, WriteStep::WriteTarget]
    );
    assert_eq!(FileSystemManager::temp_file_name("config.toml", 42), ".config.toml.tmp.42");
}

#[test]
fn workspace_command_arguments() {
    assert_eq!(resolve_workspace_path(Some("  /w  "), Some("/cwd".to_string()), None), Ok("/w".to_string()));
    assert_eq!(
        resolve_workspace_path(Some("  "), Some("/cwd".to_string()), Some("/app".to_string())),
        Err("storage.workspace_path_empty")
    );
    assert_eq!(resolve_workspace_path(Some(""), None, None), Err("storage.workspace_path_empty"));
    assert_eq!(resolve_workspace_path(None, Some("/cwd".to_string()), Some("/app".to_string())), Ok("/cwd".to_string()));
    assert_eq!(resolve_workspace_path(None, None, Some("/app".to_string())), Ok("/app".to_string()));
    assert_eq!(resolve_workspace_path(None, None, None), Err("storage.get_current_directory_failed"));
    assert_eq!(check_workspace_name(&Some(" ".to_string())), Err("storage.workspace_name_empty"));
    assert_eq!(check_workspace_name(&Some("w".to_string())), Ok(()));
    assert_eq!(check_workspace_name(&None), Ok(()));
    assert_eq!(check_workspace_id(0), Err("storage.invalid_workspace_id"));
    assert_eq!(check_workspace_id(-1), Err("storage.invalid_workspace_id"));
    assert_eq!(check_workspace_id(5), Ok(()));
}

#[test]
fn database_startup() {
    let scripts = vec![
        SqlScript {
            path: "/sql/01.sql".to_string(),
            name: "01.sql".to_string(),
            order: 1,
            statements: vec!["CREATE TABLE a (x)".to_string(), "   ".to_string()],
        },
        SqlScript {
            path: "/sql/02.sql".to_string(),
            name: "02.sql".to_string(),
            order: 2,
            statements: vec!["CREATE TABLE b (y)".to_string()],
        },
    ];
    assert_eq!(statements_to_run(&scripts), vec!["CREATE TABLE a (x)", "CREATE TABLE b (y)"]);
    assert_eq!(startup_pragmas(false), vec!["PRAGMA foreign_keys = ON"]);
    assert_eq!(startup_pragmas(true), vec!["PRAGMA foreign_keys = ON", "PRAGMA secure_delete = ON"]);
    let features = default_features();
    assert_eq!(features.len(), 3);
    assert_eq!(features[2].0, "command_search");
    assert_eq!(features[0].2, "{\"max_history\":100,\"auto_save\":true}");
    assert!(default_feature_statement().starts_with("INSERT OR IGNORE INTO ai_features"));
}

#[test]
fn preference_statements_bind_key_and_value() {
    let (sql, params) = AppPreferences::get_statement("project_rules");
    assert_eq!(sql, "SELECT value FROM app_preferences WHERE key = ? LIMIT 1");
    assert_eq!(params, vec![text("project_rules")]);

    let (sql, params) = AppPreferences::set_statement("theme", Some("dark"));
    assert!(sql.starts_with("INSERT INTO app_preferences (key, value, updated_at)"));
    assert!(sql.ends_with("ON CONFLICT(key) DO UPDATE SET value = excluded.value, updated_at = excluded.updated_at"));
    assert_eq!(params, vec![text("theme"), text("dark")]);

    let (sql, params) = AppPreferences::set_statement("theme", None);
    assert_eq!(sql, "DELETE FROM app_preferences WHERE key = ?");
    assert_eq!(params, vec![text("theme")]);
}

#[test]
fn workspace_index_queries() {
    let (sql, params) = VectorWorkspaceRepository::find_by_path_statement("/w/p");
    assert_eq!(sql, "SELECT * FROM vector_workspaces WHERE workspace_path = ?");
    assert_eq!(params, vec![text("/w/p")]);

    let (sql, params) = VectorWorkspaceRepository::find_by_status_statement(IndexStatus::Ready);
    assert_eq!(sql, "SELECT * FROM vector_workspaces WHERE status = ?");
    assert_eq!(params, vec![text("ready")]);

    let (sql, params) = VectorWorkspaceRepository::find_by_id_statement(7);
    assert_eq!(sql, "SELECT * FROM vector_workspaces WHERE id = ?");
    assert_eq!(params, vec![JsonValue::Number(7)]);

    assert_eq!(
        VectorWorkspaceRepository::find_all_statement(),
        "SELECT * FROM vector_workspaces ORDER BY updated_at DESC"
    );
    let (sql, params) = VectorWorkspaceRepository::path_count_statement("/w/p");
    assert_eq!(sql, "SELECT COUNT(*) as count FROM vector_workspaces WHERE workspace_path = ?");
    assert_eq!(params, vec![text("/w/p")]);
    assert!(VectorWorkspaceRepository::path_exists(2));
    assert!(!VectorWorkspaceRepository::path_exists(0));

    let (sql, params) = VectorWorkspaceRepository::delete_statement(3);
    assert_eq!(sql, "DELETE FROM vector_workspaces WHERE id = ?");
    assert_eq!(params, vec![JsonValue::Number(3)]);
}

#[test]
fn workspace_index_writes() {
    let mut index = WorkspaceIndex::new("/w/p".to_string(), Some("P".to_string()));
    index.created_at = 10;
    index.updated_at = 20;
    let (sql, params) = VectorWorkspaceRepository::save_statement(&index);
    assert_eq!(
        sql,
        "INSERT INTO vector_workspaces (workspace_path, name, status, file_count, index_size_bytes, error_message, created_at, updated_at) VALUES (?, ?, ?, ?, ?, ?, ?, ?)"
    );
    assert_eq!(
        params,
        vec![
            text("/w/p"),
            text("P"),
            text("building"),
            JsonValue::Number(0),
            JsonValue::Number(0),
            JsonValue::Null,
            JsonValue::Number(10),
            JsonValue::Number(20),
        ]
    );

    match VectorWorkspaceRepository::update_statement(&index) {
        Err(m) => assert_eq!(m, "工作区索引ID不能为空"),
        Ok(_) => panic!("an index without id cannot be updated"),
    }
    index.id = Some(5);
    index.mark_error("boom".to_string());
    index.updated_at = 30;
    let (sql, params) = VectorWorkspaceRepository::update_statement(&index).unwrap();
    assert!(sql.starts_with("UPDATE vector_workspaces SET workspace_path = ?"));
    assert!(sql.ends_with("updated_at = ? WHERE id = ?"));
    assert_eq!(params[2], text("error"));
    assert_eq!(params[5], text("boom"));
    assert_eq!(params[6], JsonValue::Number(30));
    assert_eq!(params[7], JsonValue::Number(5));

    let (sql, params) = VectorWorkspaceRepository::update_status_statement(
        5,
        IndexStatus::Ready,
        Some(12),
        None,
        None,
        99,
    );
    assert_eq!(
        sql,
        "UPDATE vector_workspaces SET status = ?, file_count = ?, index_size_bytes = ?, error_message = ?, updated_at = ? WHERE id = ?"
    );
    assert_eq!(
        params,
        vec![
            text("ready"),
            JsonValue::Number(12),
            JsonValue::Null,
            JsonValue::Null,
            JsonValue::Number(99),
            JsonValue::Number(5),
        ]
    );
}

#[test]
fn normalizing_twice_changes_nothing() {
    let once = trim_trailing_slashes("/home/user/project///");
    assert_eq!(once, "/home/user/project");
    assert_eq!(trim_trailing_slashes(&once), once);
    assert_eq!(trim_trailing_slashes("///"), "");
}

#[test]
fn test_build_workspace_index_empty_path() {
    let response: ApiResponse<()> = match resolve_workspace_path(Some(""), Some("/cwd".to_string()), None) {
        Ok(_) => panic!("a blank path is refused"),
        Err(key) => ApiResponse::error(key.to_string()),
    };
    assert_eq!(response.code, 500);
    assert!(response.data.is_none());
    assert!(response.message.unwrap().contains("workspace_path_empty"));
}
