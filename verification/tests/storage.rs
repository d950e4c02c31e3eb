use orbitx_storage::storage::error::RepositoryError;
use orbitx_storage::storage::cache::{CacheEntry, CacheNamespace, UnifiedCache};
use orbitx_storage::storage::database::{DatabaseOptions, PoolSize};
use orbitx_storage::storage::messagepack::{MessagePackManager, MessagePackOptions, HEADER_LEN, VERSION};
use orbitx_storage::storage::paths::{StoragePaths, StoragePathsBuilder};
use orbitx_storage::storage::recovery::{RecoveryAction, RecoveryManager, RecoveryResult, RecoveryStrategy};
use orbitx_storage::storage::repositories::agent::{AgentTaskStatus, ContextType, ExecutionStepType, ToolCallStatus};
use orbitx_storage::storage::repositories::ai_models::{AIProvider, ModelType};
use orbitx_storage::storage::repositories::tasks::{EkoContextKind, EkoStatus, TaskStatus};
use orbitx_storage::storage::repositories::vector_workspaces::{IndexStatus, WorkspaceIndex};
use orbitx_storage::storage::repositories::{Pagination, SortOrder};
use orbitx_storage::storage::sql_scripts::SqlScriptLoader;
use orbitx_storage::storage::types::{ConfigSection, StorageLayer, WindowState};

#[test]
fn test_index_status_from_str() {
    assert_eq!(IndexStatus::from_str("building").unwrap(), IndexStatus::Building);
    assert_eq!(IndexStatus::from_str("ready").unwrap(), IndexStatus::Ready);
    assert_eq!(IndexStatus::from_str("error").unwrap(), IndexStatus::Error);
    assert!(IndexStatus::from_str("invalid").is_err());
}

#[test]
fn test_workspace_index_creation() {
    let workspace = WorkspaceIndex::new(
        "/path/to/workspace".to_string(),
        Some("Test Workspace".to_string()),
    );

    assert_eq!(workspace.workspace_path, "/path/to/workspace");
    assert_eq!(workspace.name, Some("Test Workspace".to_string()));
    assert_eq!(workspace.status, IndexStatus::Building);
    assert_eq!(workspace.file_count, 0);
    assert_eq!(workspace.index_size_bytes, 0);
    assert!(workspace.error_message.is_none());
}

#[test]
fn test_workspace_index_state_transitions() {
    let mut workspace = WorkspaceIndex::new("/path/to/workspace".to_string(), None);

    workspace.mark_ready(100, 1024);
    assert!(workspace.is_ready());
    assert_eq!(workspace.file_count, 100);
    assert_eq!(workspace.index_size_bytes, 1024);
    assert!(workspace.error_message.is_none());

    workspace.mark_error("索引构建失败".to_string());
    assert!(workspace.is_error());
    assert_eq!(workspace.error_message, Some("索引构建失败".to_string()));
}

#[test]
fn stored_names_read_back() {
    for s in [
        AgentTaskStatus::Created,
        AgentTaskStatus::Running,
        AgentTaskStatus::Paused,
        AgentTaskStatus::Completed,
        AgentTaskStatus::Error,
        AgentTaskStatus::Cancelled,
    ] {
        assert_eq!(AgentTaskStatus::from_str(s.as_str()).unwrap(), s);
    }
    assert_eq!(ExecutionStepType::from_str("tool_call").unwrap(), ExecutionStepType::ToolCall);
    assert_eq!(ExecutionStepType::FinalAnswer.as_str(), "final_answer");
    assert_eq!(ToolCallStatus::from_str("pending").unwrap(), ToolCallStatus::Pending);
    assert_eq!(ContextType::Incremental.as_str(), "incremental");
    assert_eq!(TaskStatus::from_str("active").unwrap(), TaskStatus::Active);
    assert_eq!(EkoContextKind::from_str("snapshot").unwrap(), EkoContextKind::Snapshot);
    assert_eq!(EkoStatus::from_str("aborted").unwrap(), EkoStatus::Aborted);
    let err = AgentTaskStatus::from_str("bogus").unwrap_err();
    assert_eq!(err.to_string(), "无效的Agent任务状态: bogus");
    assert!(TaskStatus::from_str("Active").is_err());
    assert_eq!(AIProvider::from_str("Anthropic"), Ok(AIProvider::Anthropic));
    assert_eq!(AIProvider::OpenAiCompatible.as_str(), "openai_compatible");
    assert_eq!(
        AIProvider::from_str("x"),
        Err(RepositoryError::Validation { reason: "Unknown AI provider: x".to_string() })
    );
    assert_eq!(ModelType::from_str("embedding"), Ok(ModelType::Embedding));
    assert_eq!(ModelType::Chat.as_str(), "chat");
    assert_eq!(
        ModelType::from_str("Chat"),
        Err(RepositoryError::Validation { reason: "Unknown model type: Chat".to_string() })
    );
    assert_eq!(ModelType::default(), ModelType::Chat);
}

#[test]
fn pages_and_orderings() {
    let p = Pagination::page(3, 20);
    assert_eq!(p.limit, 20);
    assert_eq!(p.offset, 40);
    assert_eq!(Pagination::new(5, 7).offset, 7);
    assert!(SortOrder::desc("created_at").desc);
    assert_eq!(SortOrder::asc("name").field, "name");
}

#[test]
fn test_sql_statement_parsing() {
    let loader = SqlScriptLoader::new(".".to_string());

    let content = r#"
            -- 这是注释
            CREATE TABLE test (
                id INTEGER PRIMARY KEY
            );
            
            /* 多行注释
               继续注释 */
            INSERT INTO test VALUES (1);
            
            -- 另一个注释
            SELECT * FROM test
        "#;

    let statements = loader.parse_sql_statements(content).unwrap();
    assert_eq!(statements.len(), 3);
    assert!(statements[0].contains("CREATE TABLE test"));
    assert!(statements[1].contains("INSERT INTO test"));
    assert!(statements[2].contains("SELECT * FROM test"));
}

#[test]
fn test_order_parsing() {
    let loader = SqlScriptLoader::new(".".to_string());

    assert_eq!(loader.parse_order_from_filename("01_tables").unwrap(), 1);
    assert_eq!(loader.parse_order_from_filename("42_indexes").unwrap(), 42);
    assert_eq!(loader.parse_order_from_filename("01-tables").unwrap(), 1);
}

#[test]
fn serialize_header_structure() {
    let paths = StoragePaths::new("/tmp/orbitx-test".to_string());
    let manager = MessagePackManager::new(paths, MessagePackOptions::default());
    let payload = vec![0x93u8, 1, 2, 3];
    let data = manager.serialize_state(&payload).unwrap();
    assert!(data.len() > HEADER_LEN);
    assert_eq!(&data[..4], b"OXMP");
    assert_eq!(data[4], VERSION);
}

#[test]
fn deserialize_roundtrip() {
    let paths = StoragePaths::new("/tmp/orbitx-test".to_string());
    for compression in [true, false] {
        let options = MessagePackOptions { compression, ..MessagePackOptions::default() };
        let manager = MessagePackManager::new(paths.clone(), options);
        let payload: Vec<u8> = (0..200u32).map(|i| (i % 7) as u8).collect();
        let encoded = manager.serialize_state(&payload).unwrap();
        let decoded = manager.deserialize_state(&encoded).unwrap();
        assert_eq!(decoded, payload);
    }
}

#[test]
fn damaged_state_files_are_refused() {
    let paths = StoragePaths::new("/tmp/orbitx-test".to_string());
    let manager = MessagePackManager::new(paths, MessagePackOptions::default());
    let mut data = manager.serialize_state(&[1, 2, 3, 4, 5]).unwrap();
    assert!(manager.deserialize_state(&data[..10]).is_err());
    let last = data.len() - 1;
    data[last] ^= 0xff;
    assert!(manager.deserialize_state(&data).is_err());
    let mut bad_magic = manager.serialize_state(&[9]).unwrap();
    bad_magic[0] = b'X';
    assert!(manager.deserialize_state(&bad_magic).is_err());
}

#[test]
fn cache_read_after_write_and_expiry() {
    let mut cache: UnifiedCache<String> = UnifiedCache::new();
    cache.set("a", "one".to_string(), 100);
    cache.set_with_ttl("b", "two".to_string(), 50, 100);
    assert_eq!(cache.get("a", 1_000_000), Some("one".to_string()));
    assert_eq!(cache.get("b", 149), Some("two".to_string()));
    assert_eq!(cache.get("b", 150), None);
    assert!(!cache.contains_key("b", 150));
    assert_eq!(cache.len(200), 1);
    assert_eq!(cache.remove("a"), Some("one".to_string()));
    assert_eq!(cache.remove("a"), None);
    assert_eq!(cache.len(200), 0);
}

#[test]
fn cache_snapshot_counts_hits() {
    let mut cache: UnifiedCache<i64> = UnifiedCache::default();
    cache.set_with_ttl("k", 7, 1000, 10);
    assert!(cache.touch("k", 20));
    let snap = cache.snapshot("k", 30).unwrap();
    assert_eq!(snap.value, 7);
    assert_eq!(snap.hit_count, 2);
    assert_eq!(snap.last_accessed, 30);
    assert_eq!(snap.created_at, 10);
    assert_eq!(snap.expires_at, Some(1010));
    assert_eq!(snap.remaining_ttl, Some(980));
    cache.update_ttl("k", None, 40);
    assert_eq!(cache.snapshot("k", u64::MAX).unwrap().expires_at, None);
    let e = CacheEntry::new(1u8, Some(u64::MAX), 5);
    assert_eq!(e.expires_at, None);
}

#[test]
fn cache_namespaces_are_apart() {
    let mut cache: UnifiedCache<String> = UnifiedCache::new();
    cache.set_ns(CacheNamespace::Rules, "user_rules", "r".to_string(), 0);
    cache.set_ns(CacheNamespace::Session, "user_rules", "s".to_string(), 0);
    cache.set_ns_with_ttl(CacheNamespace::Rules, "tmp", "t".to_string(), 10, 0);
    cache.set("plain", "p".to_string(), 0);
    assert_eq!(cache.get("rules:user_rules", 1), Some("r".to_string()));
    assert_eq!(cache.get_ns(CacheNamespace::Session, "user_rules", 1), Some("s".to_string()));
    assert!(cache.contains_key_ns(CacheNamespace::Rules, "user_rules", 1));
    let mut keys = cache.keys_in_namespace(CacheNamespace::Rules, 5);
    keys.sort();
    assert_eq!(keys, vec!["tmp".to_string(), "user_rules".to_string()]);
    assert_eq!(cache.keys_in_namespace(CacheNamespace::Rules, 20), vec!["user_rules".to_string()]);
    assert_eq!(cache.clear_namespace(CacheNamespace::Rules), 1);
    assert_eq!(cache.get_ns(CacheNamespace::Rules, "user_rules", 21), None);
    assert_eq!(cache.remove_ns(CacheNamespace::Session, "user_rules"), Some("s".to_string()));
    let mut keys = cache.keys(30);
    keys.sort();
    assert_eq!(keys, vec!["plain".to_string()]);
    assert_eq!(CacheNamespace::Agent.make_key("x"), "agent:x");
    assert_eq!(cache.clear_namespace(CacheNamespace::Global), 1);
    cache.set_batch(vec![("a".to_string(), "1".to_string()), ("a".to_string(), "2".to_string())], 0);
    assert_eq!(cache.get("a", 0), Some("2".to_string()));
    cache.clear();
    assert_eq!(cache.len(0), 0);
}

#[test]
fn purge_drops_only_expired() {
    let mut cache: UnifiedCache<u32> = UnifiedCache::new();
    cache.set_with_ttl("x", 1, 10, 0);
    cache.set_with_ttl("y", 2, 100, 0);
    cache.set("z", 3, 0);
    assert_eq!(cache.purge_expired(50), 1);
    assert_eq!(cache.get("y", 50), Some(2));
    assert_eq!(cache.get("z", 50), Some(3));
}

#[test]
fn pool_and_recovery_plans() {
    assert_eq!(PoolSize::Fixed(6).resolve(Some(16)), (6, 6));
    assert_eq!(PoolSize::Adaptive { min: 4, max: 32 }.resolve(Some(8)), (4, 16));
    assert_eq!(PoolSize::Adaptive { min: 4, max: 32 }.resolve(Some(64)), (4, 32));
    assert_eq!(PoolSize::Adaptive { min: 4, max: 32 }.resolve(None), (4, 8));
    assert_eq!(PoolSize::Adaptive { min: 4, max: 32 }.resolve(Some(1)), (4, 4));
    let d = DatabaseOptions::default();
    assert!(d.encryption && d.wal);
    assert_eq!(d.connection_timeout, 10_000);

    let manager = RecoveryManager::new(StoragePaths::new("/app".to_string()));
    assert_eq!(manager.strategies_for(StorageLayer::Config), vec![RecoveryStrategy::UseBackup, RecoveryStrategy::Fallback]);
    assert_eq!(
        manager.next_recovery_action(StorageLayer::Data, 0),
        RecoveryAction::Apply(RecoveryStrategy::Retry { max_attempts: 3, delay: 1000 })
    );
    assert_eq!(manager.next_recovery_action(StorageLayer::State, 2), RecoveryAction::GiveUp);
    let (live, backup) = manager.backup_files(StorageLayer::Data);
    assert!(live.ends_with("orbitx.db"));
    assert!(backup.ends_with("orbitx.db.bak"));
    let ok = RecoveryResult::succeeded(RecoveryStrategy::Retry { max_attempts: 3, delay: 1000 }, 5, 1);
    assert_eq!(ok.message, "重试成功，最大尝试次数: 3");
    let failed = RecoveryResult::all_failed(5, 1);
    assert!(!failed.success);
    assert_eq!(failed.message, "所有恢复策略都失败");
}

#[test]
fn storage_types_defaults() {
    assert_eq!(StorageLayer::State.as_str(), "state");
    assert_eq!(WindowState::default().width, 1200);
    assert_eq!(ConfigSection::from_name("ai"), ConfigSection::Ai);
    assert_eq!(ConfigSection::from_name("mine"), ConfigSection::Custom("mine".to_string()));
    assert_eq!(ConfigSection::Custom("mine".to_string()).as_str(), "mine");
}

#[test]
fn built_layout_equals_the_standard_one() {
    let a = StoragePaths::new("/tmp/orbitx-test".to_string());
    let b = StoragePathsBuilder::new().app_dir("/tmp/orbitx-test".to_string()).build().unwrap();
    assert_eq!(a.app_dir, b.app_dir);
    assert_eq!(a.config_dir, b.config_dir);
    assert_eq!(a.state_dir, b.state_dir);
    assert_eq!(a.data_dir, b.data_dir);
    assert_eq!(a.backups_dir, b.backups_dir);
    assert_eq!(a.logs_dir, b.logs_dir);
}
