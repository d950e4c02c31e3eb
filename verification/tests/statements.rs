use orbitx_storage::json::JsonValue;
use orbitx_storage::storage::error::{DatabaseError, RepositoryError};
use orbitx_storage::storage::key_vault::encrypt_data;
use orbitx_storage::storage::repositories::agent::{
    AgentContextSnapshot, AgentContextSnapshotRepository, AgentExecutionLog,
    AgentExecutionLogRepository, AgentTask, AgentTaskRepository, AgentTaskStatus, AgentToolCall,
    AgentToolCallRepository, ContextType, ExecutionStepType, ToolCallStatus,
};
use orbitx_storage::storage::repositories::ai_models::{
    AIModelConfig, AIModels, AIProvider, ModelType,
};
use orbitx_storage::storage::repositories::audit_logs::{AuditLogEntry, AuditLogRepository};
use orbitx_storage::storage::repositories::tasks::{
    EkoContext, EkoContextKind, EkoStatus, SavedState, TaskRepository, TaskStatus, UITask,
};
use orbitx_storage::storage::repositories::vector_workspaces::{IndexStatus, WorkspaceIndex};
use orbitx_storage::storage::workspace_index_service::WorkspaceIndexService;
use orbitx_storage::utils::error::{context_message, Validator};
use orbitx_storage::utils::migration::{log_and_return_error, LogError};

fn text(t: &str) -> JsonValue {
    JsonValue::String(t.to_string())
}

fn object(fields: Vec<(&str, JsonValue)>) -> JsonValue {
    JsonValue::Object(fields.into_iter().map(|(k, v)| (k.to_string(), v)).collect())
}

#[test]
fn full_context_of_a_saved_state() {
    let state = object(vec![
        ("systemPrompt", text("You are an agent")),
        ("taskPrompt", text("fix the build")),
        (
            "conversationHistory",
            JsonValue::Array(vec![
                object(vec![("role", text("user")), ("content", text("hi"))]),
                object(vec![("role", text("assistant"))]),
                object(vec![("role", text("assistant")), ("content", text("hello"))]),
            ]),
        ),
        ("xml", text("<task></task>")),
        (
            "nodes",
            JsonValue::Array(vec![object(vec![("text", text("step one"))]), object(vec![])]),
        ),
    ]);
    assert_eq!(
        TaskRepository::extract_full_context_from_state(&state),
        "You are an agent\n\n## 任务描述\nfix the build\n\n## 对话历史\nuser: hi\nassistant: hello\n\n## 执行步骤\n- step one"
    );
    let blank = object(vec![("systemPrompt", text("   ")), ("xml", text("<plan/>"))]);
    assert_eq!(TaskRepository::extract_full_context_from_state(&blank), "## 任务结构\n<plan/>");
    assert_eq!(TaskRepository::extract_full_context_from_state(&JsonValue::Null), "");
}

#[test]
fn full_history_prefers_the_saved_state() {
    let parsed = SavedState {
        payload_json: "{}".to_string(),
        parsed: Some(object(vec![("taskPrompt", text("do it"))])),
    };
    assert_eq!(TaskRepository::get_eko_full_history(Some(parsed), &vec![]), "## 任务描述\ndo it");
    let raw = SavedState { payload_json: "not json".to_string(), parsed: None };
    assert_eq!(TaskRepository::get_eko_full_history(Some(raw), &vec![]), "not json");
    let events = vec![Some(object(vec![("type", text("user_message")), ("content", text("hey"))]))];
    assert_eq!(TaskRepository::get_eko_full_history(None, &events), "## 对话历史\n用户: hey");
    assert_eq!(TaskRepository::get_eko_full_history(None, &vec![]), "");
}

#[test]
fn prompts_put_the_question_last() {
    assert_eq!(
        TaskRepository::build_prompt("history", "workspace", "why?"),
        "history\n\n## 当前问题\nwhy?"
    );
    assert_eq!(
        TaskRepository::build_prompt("", "workspace", "why?"),
        "workspace\n\n## 当前问题\nwhy?"
    );
}

#[test]
fn ui_task_rows() {
    let task = UITask::new(7, "t1".to_string(), "build".to_string(), TaskStatus::Active)
        .with_parent(3)
        .with_render_data("{}".to_string());
    assert_eq!(task.parent_ui_id, Some(3));
    assert_eq!(task.render_json.as_deref(), Some("{}"));
    assert_eq!(task.created_at, task.updated_at);
    let (sql, params) = TaskRepository::ui_task_insert(&task);
    assert_eq!(
        sql,
        "INSERT INTO ui_tasks (conversation_id, task_id, name, status, parent_ui_id, render_json, created_at, updated_at) VALUES (?, ?, ?, ?, ?, ?, ?, ?)"
    );
    assert_eq!(params.len(), 8);
    assert_eq!(params[0], JsonValue::Number(7));
    assert_eq!(params[1], text("t1"));
    assert_eq!(params[3], text("active"));
    assert_eq!(params[4], JsonValue::Number(3));
    assert_eq!(params[5], text("{}"));
    let plain = UITask::new(1, "t2".to_string(), "x".to_string(), TaskStatus::Init);
    let (_, params) = TaskRepository::ui_task_insert(&plain);
    assert_eq!(params[4], JsonValue::Null);
    assert_eq!(params[5], JsonValue::Null);
}

#[test]
fn eko_context_rows() {
    let ctx = EkoContext::new("t1".to_string(), 9, EkoContextKind::Snapshot, "{\"a\":1}".to_string())
        .with_name("s1".to_string())
        .with_node_id("n1".to_string())
        .with_status(EkoStatus::Done);
    let (sql, params) = TaskRepository::eko_context_insert(&ctx);
    assert_eq!(
        sql,
        "INSERT INTO eko_context (task_id, conversation_id, kind, name, node_id, status, payload_json, created_at) VALUES (?, ?, ?, ?, ?, ?, ?, ?)"
    );
    assert_eq!(params[1], JsonValue::Number(9));
    assert_eq!(params[2], text("snapshot"));
    assert_eq!(params[3], text("s1"));
    assert_eq!(params[4], text("n1"));
    assert_eq!(params[5], text("done"));
    assert_eq!(params[6], text("{\"a\":1}"));
    let bare = EkoContext::new("t1".to_string(), 9, EkoContextKind::Event, "{}".to_string());
    let (_, params) = TaskRepository::eko_context_insert(&bare);
    assert_eq!(params[3], JsonValue::Null);
    assert_eq!(params[5], JsonValue::Null);
}

#[test]
fn agent_rows() {
    let task = AgentTask::new(5, "plan".to_string())
        .with_config("{\"x\":true}".to_string())
        .with_max_iterations(20);
    assert!(task.task_id.starts_with("task_"));
    assert!(task.task_id[5..].chars().all(|c| c.is_ascii_digit()));
    assert_eq!(task.status, AgentTaskStatus::Created);
    assert_eq!(task.max_iterations, 20);
    let (sql, params) = AgentTaskRepository::create_statement(&task);
    assert_eq!(
        sql,
        "INSERT INTO agent_tasks (task_id, conversation_id, user_prompt, status, current_iteration, max_iterations, error_count, config_json, created_at, updated_at) VALUES (?, ?, ?, ?, ?, ?, ?, ?, ?, ?)"
    );
    assert_eq!(params[3], text("created"));
    assert_eq!(params[5], JsonValue::Number(20));
    assert_eq!(params[7], text("{\"x\":true}"));

    let call = AgentToolCall::new("t".to_string(), "c1".to_string(), "ls".to_string(), "[]".to_string());
    assert_eq!(call.status, ToolCallStatus::Pending);
    let (sql, params) = AgentToolCallRepository::create_statement(&call);
    assert_eq!(
        sql,
        "INSERT INTO agent_tool_calls (task_id, call_id, tool_name, arguments_json, result_json, status, error_message, started_at, completed_at) VALUES (?, ?, ?, ?, ?, ?, ?, ?, ?)"
    );
    assert_eq!(params[4], JsonValue::Null);
    assert_eq!(params[5], text("pending"));
    assert_eq!(params[8], JsonValue::Null);

    let log = AgentExecutionLog::new("t".to_string(), 2, ExecutionStepType::Thinking, "{}".to_string());
    let (sql, params) = AgentExecutionLogRepository::create_statement(&log);
    assert_eq!(
        sql,
        "INSERT INTO agent_execution_log (task_id, iteration, step_type, content_json, timestamp) VALUES (?, ?, ?, ?, ?)"
    );
    assert_eq!(params[1], JsonValue::Number(2));
    assert_eq!(params[2], text("thinking"));

    let snap = AgentContextSnapshot::new("t".to_string(), 4, ContextType::Full, "[]".to_string())
        .with_additional_state("{}".to_string());
    let (sql, params) = AgentContextSnapshotRepository::create_statement(&snap);
    assert_eq!(
        sql,
        "INSERT INTO agent_context_snapshots (task_id, iteration, context_type, messages_json, additional_state_json, created_at) VALUES (?, ?, ?, ?, ?, ?)"
    );
    assert_eq!(params[2], text("full"));
    assert_eq!(params[4], text("{}"));
}

#[test]
fn audit_log_queries() {
    let fields = "SELECT id, operation, table_name, record_id, user_context, details, timestamp, success, error_message FROM audit_logs";
    let (sql, params) = AuditLogRepository::find_logs_statement(None, None, None);
    assert_eq!(sql, format!("{} ORDER BY timestamp DESC", fields));
    assert!(params.is_empty());
    let (sql, params) = AuditLogRepository::find_logs_statement(
        Some("ai_models".to_string()),
        Some("insert".to_string()),
        Some(10),
    );
    assert_eq!(
        sql,
        format!("{} WHERE table_name = ? AND operation = ? ORDER BY timestamp DESC LIMIT ?", fields)
    );
    assert_eq!(params, vec![text("ai_models"), text("insert"), JsonValue::Number(10)]);
    let (sql, params) = AuditLogRepository::find_logs_statement(None, Some("delete".to_string()), None);
    assert_eq!(sql, format!("{} WHERE operation = ? ORDER BY timestamp DESC", fields));
    assert_eq!(params, vec![text("delete")]);
}

#[test]
fn audit_log_entries() {
    let entry = AuditLogEntry::new(
        "insert".to_string(),
        "ai_models".to_string(),
        Some("m1".to_string()),
        None,
        "created".to_string(),
        false,
        Some("boom".to_string()),
    );
    let (sql, params) = AuditLogRepository::save_statement(&entry);
    assert_eq!(
        sql,
        "INSERT INTO audit_logs (operation, table_name, record_id, user_context, details, success, error_message) VALUES (?, ?, ?, ?, ?, ?, ?)"
    );
    assert_eq!(params[2], text("m1"));
    assert_eq!(params[3], JsonValue::Null);
    assert_eq!(params[5], JsonValue::Bool(false));
    assert_eq!(params[6], text("boom"));
    assert_eq!(AuditLogRepository::update(&entry), Err(RepositoryError::AuditLogUpdateNotSupported));
    assert_eq!(AuditLogRepository::delete_outcome(42, 1), Ok(()));
    assert_eq!(
        AuditLogRepository::delete_outcome(-42, 0),
        Err(RepositoryError::AuditLogNotFound { id: "-42".to_string() })
    );
}

fn model(id: &str, key: &str) -> AIModelConfig {
    AIModelConfig {
        id: id.to_string(),
        provider: AIProvider::Anthropic,
        api_url: "https://api".to_string(),
        api_key: key.to_string(),
        model: "m".to_string(),
        model_type: ModelType::Chat,
        options: None,
        use_custom_base_url: None,
        created_at: String::new(),
        updated_at: String::new(),
    }
}

#[test]
fn api_keys_are_stored_sealed() {
    let key = [7u8; 32];
    let stored = AIModels::encode_api_key(true, &key, "sk-123").unwrap().unwrap();
    assert_ne!(stored, "sk-123");
    assert_eq!(AIModels::decode_api_key(true, &key, Some(&stored)), "sk-123");
    assert_eq!(AIModels::decode_api_key(true, &[8u8; 32], Some(&stored)), "");
    assert_eq!(AIModels::decode_api_key(true, &key, Some("%%%")), "");
    assert_eq!(AIModels::decode_api_key(true, &key, Some("")), "");
    assert_eq!(AIModels::decode_api_key(true, &key, None), "");
    assert_eq!(AIModels::encode_api_key(true, &key, "").unwrap(), None);
    assert!(matches!(
        AIModels::encode_api_key(false, &key, "k"),
        Err(DatabaseError::EncryptionNotEnabled)
    ));
    let sealed = encrypt_data(true, &key, "other").unwrap();
    let b64 = orbitx_storage::storage::codec::base64_encode(&sealed);
    assert_eq!(AIModels::decode_api_key(false, &key, Some(&b64)), "");
}

#[test]
fn models_found_by_id() {
    let models = vec![model("a", "1"), model("b", "2"), model("b", "3")];
    let found = AIModels::find_by_id(models, "b").unwrap();
    assert_eq!(found.api_key, "2");
    assert!(AIModels::find_by_id(vec![model("a", "1")], "z").is_none());
    assert_eq!(AIModels::use_custom_base_url(Some(0)), Some(false));
    assert_eq!(AIModels::use_custom_base_url(Some(5)), Some(true));
    assert_eq!(AIModels::use_custom_base_url(None), None);
    assert_eq!(
        AIModels::delete_outcome("m9", 0),
        Err(RepositoryError::AiModelNotFound { id: "m9".to_string() })
    );
    assert!(AIModels::delete_outcome("m9", 2).is_ok());
}

#[test]
fn index_checks() {
    let idx = WorkspaceIndex::new("/w".to_string(), Some("w".to_string()));
    let (kept, store) = WorkspaceIndexService::check_index(Some(idx.clone()), true);
    assert!(!store);
    assert_eq!(kept.unwrap().status, IndexStatus::Building);
    let (marked, store) = WorkspaceIndexService::check_index(Some(idx), false);
    assert!(store);
    let marked = marked.unwrap();
    assert_eq!(marked.status, IndexStatus::Error);
    assert_eq!(marked.error_message.as_deref(), Some("索引文件缺失"));
    let (none, store) = WorkspaceIndexService::check_index(None, false);
    assert!(none.is_none() && !store);
}

#[test]
fn index_builds_and_refreshes() {
    let err = WorkspaceIndexService::prepare_build("/w".to_string(), None, false, false).unwrap_err();
    assert_eq!(err, "工作区路径不存在: /w");
    let err = WorkspaceIndexService::prepare_build("/w".to_string(), None, true, true).unwrap_err();
    assert_eq!(err, "工作区索引已存在: /w");
    let idx = WorkspaceIndexService::prepare_build("/w".to_string(), Some("n".to_string()), true, false).unwrap();
    assert_eq!(idx.workspace_path, "/w");
    assert_eq!(idx.status, IndexStatus::Building);

    let mut ready = idx.clone();
    ready.mark_ready(10, 2048);
    let again = WorkspaceIndexService::prepare_refresh(ready.clone(), true).unwrap();
    assert_eq!(again.status, IndexStatus::Building);
    assert_eq!(again.file_count, 0);
    assert_eq!(again.index_size_bytes, 0);
    let (marked, msg) = WorkspaceIndexService::prepare_refresh(ready, false).unwrap_err();
    assert_eq!(marked.status, IndexStatus::Error);
    assert_eq!(marked.file_count, 10);
    assert_eq!(marked.error_message.as_deref(), Some("工作区路径不存在"));
    assert_eq!(msg, "工作区路径不存在: /w");

    let up = WorkspaceIndexService::build_status_update(Ok((3, 4096)));
    assert_eq!(up.status, IndexStatus::Ready);
    assert_eq!((up.file_count, up.index_size, up.error_message), (Some(3), Some(4096), None));
    let up = WorkspaceIndexService::build_status_update(Err("ck failed".to_string()));
    assert_eq!(up.status, IndexStatus::Error);
    assert_eq!(up.error_message.as_deref(), Some("ck failed"));
    assert_eq!(WorkspaceIndexService::missing_index_message(-3), "工作区索引不存在: -3");
}

#[test]
fn errors_in_context() {
    assert_eq!(context_message("读取失败", "no such file"), "读取失败: no such file");
    let e = orbitx_storage::utils::error::app_error_with_context("保存", "disk full");
    assert_eq!(e.to_string(), "保存: disk full");
    let e = log_and_return_error(anyhow::Error::msg("boom"), "save");
    assert_eq!(e.to_string(), "boom");
    let e = anyhow::Error::msg("bang").log_error("load");
    assert_eq!(e.to_string(), "bang");
    assert!(Validator::validate_id(1, "id").is_ok());
}

#[test]
fn model_configs_get_random_ids() {
    let a = AIModelConfig::new(AIProvider::Anthropic, "u".to_string(), "k".to_string(), "m".to_string());
    let b = AIModelConfig::with_model_type(
        AIProvider::OpenAiCompatible,
        "u".to_string(),
        "k".to_string(),
        "e".to_string(),
        ModelType::Embedding,
    );
    assert_eq!(a.id.len(), 36);
    assert_eq!(a.id.chars().nth(14), Some('4'));
    assert_eq!(a.id.chars().filter(|c| *c == '-').count(), 4);
    assert_ne!(a.id, b.id);
    assert_eq!(a.model_type, ModelType::Chat);
    assert_eq!(b.model_type, ModelType::Embedding);
    assert_eq!(a.created_at, a.updated_at);
}

#[test]
fn stored_secret_is_nonce_ciphertext_and_tag() {
    let key = [9u8; 32];
    let stored = encrypt_data(true, &key, "hello world").unwrap();
    assert_eq!(stored.len(), 12 + "hello world".len() + 16);
    assert_eq!(
        orbitx_storage::storage::key_vault::decrypt_data(true, &key, &stored),
        Ok("hello world".to_string())
    );
    assert_eq!(
        orbitx_storage::storage::key_vault::decrypt_data(true, &key, &[0u8; 12]),
        Err(DatabaseError::InvalidEncryptedData)
    );
}
