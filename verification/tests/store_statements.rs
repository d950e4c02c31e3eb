use orbitx_storage::storage::query::{QueryCondition, QueryOrder, SafeQueryBuilder, UpdateBuilder};
use orbitx_storage::storage::query::InsertBuilder;
use orbitx_storage::storage::coordinator::{config_section, ConfigSection};
use orbitx_storage::json::JsonValue;
use orbitx_storage::storage::error::RepositoryError;
use orbitx_storage::storage::repositories::agent::{
    AgentContextSnapshotRepository, AgentExecutionLogRepository, AgentTask, AgentTaskRepository,
    AgentTaskStatus, ContextType, ExecutionStepType, ToolCallStatus,
};
use orbitx_storage::storage::repositories::agent::AgentToolCallRepository as ToolCalls;
use orbitx_storage::storage::repositories::ai_features::AIFeaturesRepository;
use orbitx_storage::storage::repositories::ai_models::{AIModelRow, AIModels, AIProvider, ModelType};
use orbitx_storage::storage::repositories::command_history::CommandHistoryRepository;
use orbitx_storage::storage::repositories::completion_model::CompletionModelRepo;
use orbitx_storage::storage::repositories::conversations::{Conversation, ConversationRepository};
use orbitx_storage::storage::repositories::days_back;
use orbitx_storage::storage::repositories::recent_workspaces::RecentWorkspaceRepository;
use orbitx_storage::storage::repositories::tasks::{
    RebuiltContext, TaskRepository, TaskStatus, UITask,
};

fn s(t: &str) -> JsonValue {
    JsonValue::String(t.to_string())
}

fn n(i: i64) -> JsonValue {
    JsonValue::Number(i)
}

#[test]
fn days_back_modifier() {
    assert_eq!(days_back(30), "-30 days");
    assert_eq!(days_back(0), "-0 days");
    assert_eq!(days_back(-2), "--2 days");
}

#[test]
fn agent_task_statements() {
    let (sql, params) =
        AgentTaskRepository::update_status_statement("task_1", AgentTaskStatus::Running, 3, 1);
    assert_eq!(
        sql,
        "UPDATE agent_tasks SET status = ?, current_iteration = ?, error_count = ?, updated_at = CURRENT_TIMESTAMP WHERE task_id = ?"
    );
    assert_eq!(params, vec![s("running"), n(3), n(1), s("task_1")]);

    let (sql, params) = AgentTaskRepository::complete_task_statement("task_1", AgentTaskStatus::Completed);
    assert!(sql.starts_with("UPDATE agent_tasks SET status = ?, completed_at = CURRENT_TIMESTAMP"));
    assert_eq!(params, vec![s("completed"), s("task_1")]);

    let (sql, params) = AgentTaskRepository::find_incomplete_tasks_statement();
    assert_eq!(
        sql,
        "SELECT * FROM agent_tasks WHERE status IN ('created', 'running', 'paused') ORDER BY updated_at DESC"
    );
    assert!(params.is_empty());

    let mut task = AgentTask::new(7, "hi".to_string());
    task.current_iteration = 2;
    let (_, params) = AgentTaskRepository::update_statement(&task);
    assert_eq!(params, vec![s("created"), n(2), n(0), s(&task.task_id)]);

    let (sql, params) = AgentTaskRepository::find_by_conversation_id_statement(7);
    assert_eq!(sql, "SELECT * FROM agent_tasks WHERE conversation_id = ? ORDER BY created_at DESC");
    assert_eq!(params, vec![n(7)]);
}

#[test]
fn tool_call_status_updates() {
    let (sql, params) = ToolCalls::update_status_statement(
        "c1",
        ToolCallStatus::Completed,
        Some("{\"ok\":true}".to_string()),
        None,
    );
    assert_eq!(
        sql,
        "UPDATE agent_tool_calls SET status = ?, result_json = ?, error_message = ?, completed_at = CURRENT_TIMESTAMP WHERE call_id = ?"
    );
    assert_eq!(params, vec![s("completed"), s("{\"ok\":true}"), JsonValue::Null, s("c1")]);

    let (sql, params) = ToolCalls::update_status_statement("c1", ToolCallStatus::Running, None, None);
    assert_eq!(sql, "UPDATE agent_tool_calls SET status = ? WHERE call_id = ?");
    assert_eq!(params, vec![s("running"), s("c1")]);

    let (_, params) = ToolCalls::update_error_statement("c1", "boom");
    assert_eq!(params, vec![s("error"), s("boom"), s("c1")]);

    let (sql, params) = ToolCalls::cleanup_old_calls_statement(7);
    assert!(sql.starts_with("DELETE FROM agent_tool_calls WHERE started_at < datetime('now', ?)"));
    assert_eq!(params, vec![s("-7 days"), s("-7 days")]);

    let (sql, params) = ToolCalls::find_by_tool_name_statement("grep");
    assert!(sql.ends_with("ORDER BY started_at DESC LIMIT 100"));
    assert_eq!(params, vec![s("grep")]);
}

#[test]
fn execution_log_and_snapshot_queries() {
    let (sql, params) =
        AgentExecutionLogRepository::find_by_step_type_statement("t", ExecutionStepType::ToolCall);
    assert_eq!(
        sql,
        "SELECT * FROM agent_execution_log WHERE task_id = ? AND step_type = ? ORDER BY timestamp ASC"
    );
    assert_eq!(params, vec![s("t"), s(ExecutionStepType::ToolCall.as_str())]);

    let (_, params) = AgentExecutionLogRepository::find_by_task_and_iteration_statement("t", 4);
    assert_eq!(params, vec![s("t"), n(4)]);

    let (sql, params) = AgentContextSnapshotRepository::latest_full_snapshot_statement("t", 9);
    assert!(sql.contains("context_type = 'full' AND iteration <= ?"));
    assert_eq!(params, vec![s("t"), n(9)]);

    let (sql, params) = AgentContextSnapshotRepository::increments_after_statement("t", 3, 9);
    assert!(sql.contains("context_type = 'incremental' AND iteration > ? AND iteration <= ?"));
    assert_eq!(params, vec![s("t"), n(3), n(9)]);

    let (_, params) = AgentContextSnapshotRepository::find_by_context_type_statement("t", ContextType::Full);
    assert_eq!(params, vec![s("t"), s("full")]);
}

#[test]
fn completion_model_statements() {
    assert_eq!(CompletionModelRepo::increments(Some(true)), (1, 0));
    assert_eq!(CompletionModelRepo::increments(Some(false)), (0, 1));
    assert_eq!(CompletionModelRepo::increments(None), (0, 0));

    let (sql, params) =
        CompletionModelRepo::upsert_command_key_statement("git status", "git", Some("status"), 42, Some(false));
    assert!(sql.contains("INSERT INTO completion_command_keys"));
    assert!(sql.contains("RETURNING id"));
    assert_eq!(params, vec![s("git status"), s("git"), s("status"), n(0), n(1), n(42)]);

    let (_, params) = CompletionModelRepo::upsert_transition_statement(1, 2, 50, None);
    assert_eq!(params, vec![n(1), n(2), n(0), n(0), n(50)]);

    let (_, params) = CompletionModelRepo::upsert_command_key_statement("ls", "ls", None, u64::MAX, Some(true));
    assert_eq!(params[2], JsonValue::Null);
    assert_eq!(params[5], n(-1));

    let (sql, params) = CompletionModelRepo::enforce_transition_top_k_per_prev_statement(5, 3);
    assert!(sql.contains("LIMIT ?"));
    assert_eq!(params, vec![n(5), n(5), n(3)]);

    let (sql, params) = CompletionModelRepo::find_key_id_statement("ls");
    assert_eq!(sql, "SELECT id FROM completion_command_keys WHERE key = ? LIMIT 1");
    assert_eq!(params, vec![s("ls")]);
}

#[test]
fn ui_task_statements() {
    let mut task = UITask::new(3, "t1".to_string(), "Build".to_string(), TaskStatus::Active);
    task.parent_ui_id = Some(9);
    let (sql, params) = TaskRepository::upsert_ui_task_statement(&task);
    assert!(sql.starts_with("INSERT OR REPLACE INTO ui_tasks"));
    assert_eq!(
        params,
        vec![
            n(3),
            s("t1"),
            n(3),
            s("t1"),
            s("Build"),
            s("active"),
            n(9),
            JsonValue::Null,
            n(3),
            s("t1"),
        ]
    );

    let (sql, params) = TaskRepository::get_ui_tasks_by_conversation_statement(3);
    assert_eq!(
        sql,
        "SELECT ui_id, conversation_id, task_id, name, status, parent_ui_id, render_json, created_at, updated_at FROM ui_tasks WHERE conversation_id = ? ORDER BY updated_at DESC"
    );
    assert_eq!(params, vec![n(3)]);

    let (sql, params) = TaskRepository::find_ui_task_by_task_id_statement("t1");
    assert!(sql.ends_with("FROM ui_tasks WHERE task_id = ?"));
    assert_eq!(params, vec![s("t1")]);

    match TaskRepository::delete_ui_task_outcome(12, 0) {
        Err(m) => assert_eq!(m, "UI任务不存在: 12"),
        Ok(()) => panic!("nothing was deleted"),
    }
    assert!(TaskRepository::delete_ui_task_outcome(12, 1).is_ok());
    match TaskRepository::update_target(&task) {
        Err(m) => assert_eq!(m, "无法更新没有ID的UI任务"),
        Ok(_) => panic!("the task has no id"),
    }
}

#[test]
fn eko_context_is_rebuilt_from_the_best_source() {
    match TaskRepository::rebuild_eko_context("t", Some("snap".to_string()), Some("state".to_string()), vec![]) {
        RebuiltContext::Stored(p) => assert_eq!(p, "snap"),
        other => panic!("unexpected {:?}", other),
    }
    match TaskRepository::rebuild_eko_context("t", None, Some("state".to_string()), vec![]) {
        RebuiltContext::Stored(p) => assert_eq!(p, "state"),
        other => panic!("unexpected {:?}", other),
    }
    let events = vec![Some(n(1)), None, Some(s("x"))];
    match TaskRepository::rebuild_eko_context("t", None, None, events) {
        RebuiltContext::FromEvents(v) => assert_eq!(
            v,
            JsonValue::Object(vec![
                ("events".to_string(), JsonValue::Array(vec![n(1), s("x")])),
                ("task_id".to_string(), s("t")),
            ])
        ),
        other => panic!("unexpected {:?}", other),
    }
}

#[test]
fn conversation_update_statements() {
    let (sql, params) = ConversationRepository::update_title_statement(4, "New");
    assert_eq!(sql, "UPDATE ai_conversations SET title = ?, updated_at = CURRENT_TIMESTAMP WHERE id = ?");
    assert_eq!(params, vec![s("New"), n(4)]);

    let (_, params) = ConversationRepository::update_message_status_statement(8, Some("done"), None);
    assert_eq!(params, vec![s("done"), JsonValue::Null, n(8)]);

    let mut c = Conversation::new("T".to_string());
    match ConversationRepository::update_statement(&c) {
        Err(m) => assert_eq!(m, "无法更新没有ID的会话"),
        Ok(_) => panic!("the conversation has no id"),
    }
    c.id = Some(2);
    c.message_count = 5;
    let (sql, params) = ConversationRepository::update_statement(&c).unwrap();
    assert_eq!(sql, "UPDATE ai_conversations SET title = ?, message_count = ?, updated_at = ? WHERE id = ?");
    assert_eq!(params, vec![s("T"), n(5), s(&c.updated_at), n(2)]);

    let (sql, params) = ConversationRepository::delete_messages_after_statement(2, 10);
    assert_eq!(sql, "DELETE FROM ai_messages WHERE conversation_id = ? AND id > ?");
    assert_eq!(params, vec![n(2), n(10)]);
}

#[test]
fn model_rows_are_read_or_refused() {
    let key = [7u8; 32];
    let row = |provider: &str, model_type: &str| AIModelRow {
        id: "m1".to_string(),
        provider: provider.to_string(),
        api_url: "https://x".to_string(),
        api_key_encrypted: None,
        model_name: "gpt".to_string(),
        model_type: model_type.to_string(),
        options: None,
        use_custom_base_url: Some(0),
        created_at: "a".to_string(),
        updated_at: "b".to_string(),
    };
    let m = AIModels::model_from_row(row("OpenAI_Compatible", "embedding"), false, &key).unwrap();
    assert_eq!(m.provider, AIProvider::OpenAiCompatible);
    assert_eq!(m.model_type, ModelType::Embedding);
    assert_eq!(m.api_key, "");
    assert_eq!(m.use_custom_base_url, Some(false));
    assert_eq!(m.model, "gpt");

    let temperature = || JsonValue::Object(vec![("temperature".to_string(), JsonValue::NumberText("0.7".to_string()))]);
    let mut with_options = row("anthropic", "chat");
    with_options.options = Some(temperature());
    let read = AIModels::model_from_row(with_options, false, &key).unwrap();
    assert_eq!(read.options, Some(temperature()));

    match AIModels::model_from_row(row("acme", "chat"), false, &key) {
        Err(RepositoryError::Validation { reason }) => assert_eq!(reason, "Unknown AI provider: acme"),
        other => panic!("unexpected {:?}", other.is_ok()),
    }
    match AIModels::model_from_row(row("anthropic", "vision"), false, &key) {
        Err(RepositoryError::Validation { reason }) => assert_eq!(reason, "Unknown model type: vision"),
        other => panic!("unexpected {:?}", other.is_ok()),
    }

    let (sql, params) = AIModels::save_statement(&m, Some("c2VhbGVk".to_string()), None);
    assert!(sql.contains("INSERT OR REPLACE INTO ai_models"));
    assert_eq!(
        params,
        vec![
            s("m1"),
            s("openai_compatible"),
            s("https://x"),
            s("c2VhbGVk"),
            s("gpt"),
            s("embedding"),
            JsonValue::Null,
            n(0),
            s("a"),
            s("b"),
        ]
    );
}

#[test]
fn recent_workspace_and_history_statements() {
    let (sql, params) = RecentWorkspaceRepository::add_or_update_statement("/w", 100);
    assert!(sql.contains("ON CONFLICT(path) DO UPDATE SET"));
    assert_eq!(params, vec![s("/w"), n(100)]);
    let (sql, params) = RecentWorkspaceRepository::cleanup_old_statement(50);
    assert_eq!(sql, "DELETE FROM recent_workspaces WHERE last_accessed_at < ?");
    assert_eq!(params, vec![n(50)]);

    let (sql, params) = CommandHistoryRepository::find_by_id_statement(3);
    assert_eq!(sql, "SELECT * FROM command_history WHERE id = ?");
    assert_eq!(params, vec![n(3)]);
    let (sql, params) = CommandHistoryRepository::full_text_search_statement("git");
    assert!(sql.contains("WHERE command_search MATCH ?"));
    assert_eq!(params, vec![s("git")]);

    let (sql, params) = AIFeaturesRepository::delete_by_feature_name_statement("chat");
    assert_eq!(sql, "DELETE FROM ai_features WHERE feature_name = ?");
    assert_eq!(params, vec![s("chat")]);
}

#[test]
fn config_sections_by_name() {
    assert_eq!(config_section("app"), ConfigSection::App);
    assert_eq!(config_section("appearance"), ConfigSection::Appearance);
    assert_eq!(config_section("terminal"), ConfigSection::Terminal);
    assert_eq!(config_section("shortcuts"), ConfigSection::Shortcuts);
    assert_eq!(config_section("ai"), ConfigSection::Empty);
    assert_eq!(config_section("other"), ConfigSection::Empty);
}

#[test]
fn insert_fields_in_json_form() {
    let (sql, params) = InsertBuilder::new("t".to_string())
        .add_field("a", n(1))
        .add_field_opt("b", None)
        .add_field_opt("c", Some(s("x")))
        .add_field("a", n(2))
        .build()
        .unwrap();
    assert_eq!(sql, "INSERT INTO t (a, b, c) VALUES (?, ?, ?)");
    assert_eq!(params, vec![n(2), JsonValue::Null, s("x")]);
}

#[test]
fn one_placeholder_per_value() {
    let marks = |sql: &str| sql.chars().filter(|c| *c == '?').count();
    let (sql, params) = SafeQueryBuilder::new("t".to_string())
        .where_condition(QueryCondition::In("a".to_string(), vec![n(1), n(2), n(3)]))
        .where_condition(QueryCondition::Between("b".to_string(), n(0), n(9)))
        .where_condition(QueryCondition::Or(vec![
            QueryCondition::IsNull("c".to_string()),
            QueryCondition::Like("d".to_string(), "%x%".to_string()),
        ]))
        .order_by(QueryOrder::Desc("e".to_string()))
        .limit(10)
        .offset(20)
        .build()
        .unwrap();
    assert_eq!(marks(&sql), params.len());
    assert_eq!(params.len(), 8);

    let (sql, params) = UpdateBuilder::new("t".to_string())
        .set("x".to_string(), n(1))
        .set("y".to_string(), s("z"))
        .where_condition(QueryCondition::Eq("id".to_string(), n(4)))
        .build()
        .unwrap();
    assert_eq!(sql, "UPDATE t SET x = ?, y = ? WHERE id = ?");
    assert_eq!(marks(&sql), params.len());
}
