use orbitx_storage::json::JsonValue;
use orbitx_storage::storage::error::DatabaseError;
use orbitx_storage::storage::key_vault::{
    decrypt_data, derive_key_from_password, device_identifier, device_key, encrypt_data,
    encrypt_with_nonce, key_file_payload, key_from_password_hash, parse_ioreg_uuid, parse_key_file,
    parse_wmic_uuid, DeviceProbe,
};
use orbitx_storage::storage::messagepack::{format_bytes, StateStats};
use orbitx_storage::storage::repositories::command_history::{
    check_query_params, command_hash, history_insert_sql, history_query_sql, CommandHistoryEntry,
    HistoryPage, HistoryQuery,
};
use orbitx_storage::storage::repositories::tasks::{
    build_context_from_agent_state, build_context_from_task, extract_context_from_event,
    rebuild_history_from_events,
};
use orbitx_storage::storage::repositories::SortOrder;
use orbitx_storage::storage::workspace_index_service::WorkspaceIndexService;
use orbitx_storage::terminal::channel_manager::{PendingQueue, MAX_PENDING_BYTES, MAX_PENDING_CHUNKS};

fn s(t: &str) -> JsonValue {
    JsonValue::String(t.to_string())
}

fn obj(fields: Vec<(&str, JsonValue)>) -> JsonValue {
    JsonValue::Object(fields.into_iter().map(|(k, v)| (k.to_string(), v)).collect())
}

#[test]
fn test_parse_ck_output() {
    let output = r#"
Indexing directory: /path/to/workspace
Processed 150 files
Index size: 2048 bytes
Indexing complete
        "#;

    let result = WorkspaceIndexService::parse_ck_output(output);
    assert!(result.is_ok());

    let (file_count, index_size) = result.unwrap();
    assert_eq!(file_count, 150);
    assert_eq!(index_size, 2048);
}

#[test]
fn test_parse_ck_output_empty() {
    let output = "";
    let result = WorkspaceIndexService::parse_ck_output(output);
    assert!(result.is_ok());

    let (file_count, index_size) = result.unwrap();
    assert_eq!(file_count, 1);
    assert_eq!(index_size, 1024);
}

#[test]
fn ck_output_last_match_wins_and_overflow_is_zero() {
    let out = "3 files\nsize 10B\n7 files\nsize 99999999999999999999 bytes\n";
    assert_eq!(WorkspaceIndexService::parse_ck_output(out).unwrap(), (7, 1024));
}

#[test]
fn key_file_round_trip() {
    let key: Vec<u8> = (0..32u8).collect();
    let text = key_file_payload(&key);
    assert!(text.starts_with("v1\n"));
    assert!(text.ends_with("\n"));
    assert_eq!(parse_key_file(&text), Ok(Some(key.clone())));
    let crlf = text.replace('\n', "\r\n");
    assert_eq!(parse_key_file(&crlf), Ok(Some(key.clone())));
    let bare = text.trim_start_matches("v1\n").to_string();
    assert_eq!(parse_key_file(&bare), Ok(Some(key)));
    assert_eq!(parse_key_file(""), Ok(None));
    assert_eq!(parse_key_file("v1\n"), Ok(None));
    assert!(matches!(parse_key_file("v1\n@@@\n"), Err(DatabaseError::Base64(_))));
    assert_eq!(parse_key_file("v1\nAAEC\n"), Err(DatabaseError::InvalidKeyLength));
}

#[test]
fn device_identifiers() {
    let ioreg = "+-o Root\n    \"IOPlatformSerialNumber\" = \"X\"\n    \"IOPlatformUUID\" = \"1234-ABCD\"\n";
    assert_eq!(parse_ioreg_uuid(ioreg), Some("1234-ABCD".to_string()));
    assert_eq!(parse_ioreg_uuid("nothing here"), None);
    let wmic = "UUID  \r\n\r\n  4C4C4544-0042  \r\n";
    assert_eq!(parse_wmic_uuid(wmic), Some("4C4C4544-0042".to_string()));
    assert_eq!(parse_wmic_uuid("UUID\nUUID\n"), None);
    let id = device_identifier(DeviceProbe::MachineId(Some("  abc123\n".to_string()), None)).unwrap();
    assert_eq!(id, "abc123");
    let id = device_identifier(DeviceProbe::MachineId(None, Some("def\n".to_string()))).unwrap();
    assert_eq!(id, "def");
    assert_eq!(
        device_identifier(DeviceProbe::Unsupported),
        Err(DatabaseError::Internal("不支持的操作系统，无法获取设备标识".to_string()))
    );
    assert_eq!(
        device_identifier(DeviceProbe::Ioreg(Ok((false, String::new())))),
        Err(DatabaseError::Internal("ioreg命令执行失败".to_string()))
    );
    assert_eq!(
        device_identifier(DeviceProbe::Wmic(Err("no wmic".to_string()))),
        Err(DatabaseError::Internal("获取设备UUID失败: no wmic".to_string()))
    );
    // with no identifier of its own the host name is used
    assert!(device_identifier(DeviceProbe::MachineId(None, None)).is_ok());
    let k1 = device_key("machine");
    assert_eq!(k1.len(), 32);
    assert_eq!(k1, device_key("machine"));
    assert_ne!(k1, device_key("other"));
}

#[test]
fn encryption_round_trip() {
    let key = [7u8; 32];
    let stored = encrypt_data(true, &key, "秘密 secret").unwrap();
    assert!(stored.len() > 12);
    assert_eq!(decrypt_data(true, &key, &stored).unwrap(), "秘密 secret");
    let other = [8u8; 32];
    assert!(matches!(decrypt_data(true, &other, &stored), Err(DatabaseError::Encryption(_))));
    assert_eq!(decrypt_data(true, &key, &stored[..12]), Err(DatabaseError::InvalidEncryptedData));
    assert_eq!(encrypt_data(false, &key, "x"), Err(DatabaseError::EncryptionNotEnabled));
    assert_eq!(decrypt_data(false, &key, &stored), Err(DatabaseError::EncryptionNotEnabled));
    let nonce = [1u8; 12];
    let a = encrypt_with_nonce(true, &key, &nonce, "same").unwrap();
    let b = encrypt_with_nonce(true, &key, &nonce, "same").unwrap();
    assert_eq!(a, b);
    assert_eq!(&a[..12], &nonce);
}

#[test]
fn password_keys() {
    assert_eq!(key_from_password_hash(Some(vec![5u8; 40])).unwrap(), vec![5u8; 32]);
    assert_eq!(key_from_password_hash(Some(vec![5u8; 31])), Err(DatabaseError::InsufficientKeyLength));
    assert_eq!(
        key_from_password_hash(None),
        Err(DatabaseError::Internal("Key derivation produced an empty hash".to_string()))
    );
    assert_eq!(derive_key_from_password("hunter2").unwrap().len(), 32);
}

#[test]
fn history_queries() {
    let (sql, params) = history_query_sql(&HistoryQuery::default()).unwrap();
    assert_eq!(
        sql,
        "SELECT id, command, working_directory, exit_code, output, duration_ms, executed_at, session_id, tags FROM command_history ORDER BY executed_at DESC"
    );
    assert!(params.is_empty());
    let q = HistoryQuery {
        command_pattern: Some("git".to_string()),
        working_directory: None,
        date_from: Some("2024-01-01T00:00:00+00:00".to_string()),
        date_to: None,
        session_id: Some("s1".to_string()),
        pagination: Some(HistoryPage { limit: Some(20), offset: None }),
        ordering: Some(SortOrder::asc("id")),
    };
    let (sql, params) = history_query_sql(&q).unwrap();
    assert!(sql.ends_with(
        "FROM command_history WHERE command LIKE ? AND session_id = ? AND executed_at >= ? ORDER BY id ASC LIMIT ?"
    ));
    assert_eq!(
        params,
        vec![s("%git%"), s("s1"), s("2024-01-01T00:00:00+00:00"), JsonValue::Number(20)]
    );
    assert!(check_query_params(&params).is_ok());
    assert_eq!(check_query_params(&vec![JsonValue::Null]), Err("Unsupported parameter type".to_string()));
}

#[test]
fn history_params_refuse_non_integer_numbers() {
    let half = || JsonValue::NumberText("0.5".to_string());
    assert_eq!(
        check_query_params(&vec![s("a"), half(), JsonValue::Null]),
        Err("Unsupported number type".to_string())
    );
    assert_eq!(
        check_query_params(&vec![JsonValue::Bool(true), half()]),
        Err("Unsupported parameter type".to_string())
    );
    assert!(check_query_params(&vec![JsonValue::Number(-3), s("x")]).is_ok());
}

#[test]
fn history_inserts_and_hash() {
    let mut entry = CommandHistoryEntry::new(
        "ls -la".to_string(),
        "/tmp".to_string(),
        Some(0),
        None,
        Some(12),
        None,
    );
    entry.executed_at = "2024-05-01T10:00:00+00:00".to_string();
    let (sql, params) = history_insert_sql(&entry).unwrap();
    assert_eq!(
        sql,
        "INSERT INTO command_history (command, working_directory, exit_code, output, duration_ms, executed_at, session_id, tags) VALUES (?, ?, ?, ?, ?, ?, ?, ?)"
    );
    assert_eq!(
        params,
        vec![
            s("ls -la"),
            s("/tmp"),
            JsonValue::Number(0),
            JsonValue::Null,
            JsonValue::Number(12),
            s("2024-05-01T10:00:00+00:00"),
            JsonValue::Null,
            JsonValue::Null
        ]
    );
    assert_eq!(command_hash("ls -la"), "a2da93172625f6e3633dba3d15e44334");
}

#[test]
fn task_contexts() {
    let task = obj(vec![
        ("taskPrompt", s("Build it")),
        ("description", s("Build it")),
        ("xml", s("<task></task>")),
    ]);
    assert_eq!(build_context_from_task(&task), Some("## 任务描述\nBuild it".to_string()));
    let task = obj(vec![
        ("taskPrompt", s("  ")),
        ("description", s("More")),
        ("xml", s("<task><a/></task>")),
    ]);
    assert_eq!(
        build_context_from_task(&task),
        Some("## 详细说明\nMore\n\n## 任务结构\n<task><a/></task>".to_string())
    );
    assert_eq!(build_context_from_task(&obj(vec![])), None);
    let state = obj(vec![
        ("type", s("agent_context")),
        ("taskPrompt", s("P")),
        (
            "nodes",
            JsonValue::Array(vec![obj(vec![("text", s("one"))]), obj(vec![]), obj(vec![("text", s("two"))])]),
        ),
    ]);
    assert_eq!(
        build_context_from_agent_state(&state),
        Some("## 任务描述\nP\n\n## 执行步骤\n- one\n- two".to_string())
    );
    assert_eq!(extract_context_from_event(&state), build_context_from_agent_state(&state));
    let other = obj(vec![("type", s("x")), ("task", obj(vec![("taskPrompt", s("Q"))]))]);
    assert_eq!(extract_context_from_event(&other), Some("## 任务描述\nQ".to_string()));
}

#[test]
fn history_rebuilt_from_events() {
    let events = vec![
        Some(obj(vec![
            ("type", s("agent_start")),
            ("systemPrompt", s("SYS")),
            ("task", obj(vec![("taskPrompt", s("T"))])),
        ])),
        None,
        Some(obj(vec![("type", s("user_message")), ("content", s("hi"))])),
        Some(obj(vec![("type", s("assistant_message")), ("content", s("hello"))])),
        Some(obj(vec![("type", s("thinking")), ("text", s("hmm"))])),
        Some(obj(vec![("type", s("tool")), ("task", obj(vec![("xml", s("<x/>"))]))])),
        Some(obj(vec![("type", s("tool")), ("task", obj(vec![("xml", s("<x/>"))]))])),
    ];
    assert_eq!(
        rebuild_history_from_events(&events),
        "SYS\n\n## 任务描述\nT\n\n## 对话历史\n用户: hi\n助手: hello\n思考: hmm\n\n## 任务结构\n<x/>"
    );
    assert_eq!(rebuild_history_from_events(&vec![]), "");
}

#[test]
fn sizes_formatted_like_floats() {
    for bytes in [0u64, 1, 1023, 1024, 1152, 1536, 1048575, 1048576, 5_000_000, 1073741824, 3 * 1073741824 + 12345, 1u64 << 50] {
        let mut size = bytes as f64;
        let mut unit = 0;
        let units = ["B", "KB", "MB", "GB"];
        while size >= 1024.0 && unit < units.len() - 1 {
            size /= 1024.0;
            unit += 1;
        }
        assert_eq!(format_bytes(bytes), format!("{:.2} {}", size, units[unit]), "bytes = {}", bytes);
    }
    let stats = StateStats {
        state_file_exists: true,
        state_file_size: 2048,
        backup_count: 2,
        backup_total_size: 3 * 1024 * 1024,
        compression_enabled: true,
        checksum_validation_enabled: true,
    };
    assert_eq!(stats.state_file_size_formatted(), "2.00 KB");
    assert_eq!(stats.backup_total_size_formatted(), "3.00 MB");
}

#[test]
fn pending_output_is_bounded() {
    let mut q = PendingQueue::new();
    for i in 0..100u8 {
        q.push(&[i; 10]);
    }
    assert_eq!(q.total_bytes(), 10 * MAX_PENDING_CHUNKS);
    let chunks = q.drain();
    assert_eq!(chunks.len(), MAX_PENDING_CHUNKS);
    assert_eq!(chunks[0][0], 36);
    assert_eq!(chunks[63][0], 99);
    let mut q = PendingQueue::new();
    q.push(&vec![1u8; MAX_PENDING_BYTES - 5]);
    q.push(&[2u8; 10]);
    let chunks = q.drain();
    assert_eq!(chunks.len(), 1);
    assert_eq!(chunks[0], vec![2u8; 10]);
    let mut q = PendingQueue::new();
    q.push(&vec![3u8; MAX_PENDING_BYTES + 1]);
    assert_eq!(q.total_bytes(), 0);
}
