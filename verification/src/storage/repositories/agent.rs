//! Agent tasks: their status, the kinds of execution step, tool calls and
//! context snapshots.
use vstd::prelude::*;
use crate::storage::repositories::{days_back, days_back_text, invalid_value};
use crate::text::{chars_of, int_text, owned, push_int, str_eq, string_of};
use crate::clock::{utc_now_millis, utc_now_rfc3339};
use crate::json::JsonValue;
use crate::storage::query::{column, differs_from_all, distinct_names, field_names, insert_row, insert_sql, lemma_distinct_names, text_is, text_or_null, text_value};

verus! {

/// The state of an agent task.
#[derive(Debug, Clone, Copy, PartialEq, Eq, Structural)]
pub enum AgentTaskStatus {
    Created,
    Running,
    Paused,
    Completed,
    Error,
    Cancelled,
}

/// The name under which each value is stored.
pub open spec fn agent_task_status_name(v: AgentTaskStatus) -> Seq<char> {
    match v {
        AgentTaskStatus::Created => "created"@,
        AgentTaskStatus::Running => "running"@,
        AgentTaskStatus::Paused => "paused"@,
        AgentTaskStatus::Completed => "completed"@,
        AgentTaskStatus::Error => "error"@,
        AgentTaskStatus::Cancelled => "cancelled"@,
    }
}

/// The value a stored name stands for, if any.
pub open spec fn parse_agent_task_status(s: Seq<char>) -> Option<AgentTaskStatus> {
    if s == "created"@ {
        Some(AgentTaskStatus::Created)
    } else if s == "running"@ {
        Some(AgentTaskStatus::Running)
    } else if s == "paused"@ {
        Some(AgentTaskStatus::Paused)
    } else if s == "completed"@ {
        Some(AgentTaskStatus::Completed)
    } else if s == "error"@ {
        Some(AgentTaskStatus::Error)
    } else if s == "cancelled"@ {
        Some(AgentTaskStatus::Cancelled)
    } else {
        None
    }
}

impl AgentTaskStatus {
    /// The name stored in the database.
    pub fn as_str(&self) -> (r: &'static str)
        ensures
            r@ == agent_task_status_name(*self),
    {
        match self {
            AgentTaskStatus::Created => "created",
            AgentTaskStatus::Running => "running",
            AgentTaskStatus::Paused => "paused",
            AgentTaskStatus::Completed => "completed",
            AgentTaskStatus::Error => "error",
            AgentTaskStatus::Cancelled => "cancelled",
        }
    }

    /// Reads a stored name; any other text is an error.
    pub fn from_str(s: &str) -> (r: Result<Self, anyhow::Error>)
        ensures
            match r {
                Ok(v) => parse_agent_task_status(s@) == Some(v),
                Err(_) => parse_agent_task_status(s@) is None,
            },
    {
        let c = chars_of(s);
        if str_eq("created", &c) {
            Ok(AgentTaskStatus::Created)
        } else if str_eq("running", &c) {
            Ok(AgentTaskStatus::Running)
        } else if str_eq("paused", &c) {
            Ok(AgentTaskStatus::Paused)
        } else if str_eq("completed", &c) {
            Ok(AgentTaskStatus::Completed)
        } else if str_eq("error", &c) {
            Ok(AgentTaskStatus::Error)
        } else if str_eq("cancelled", &c) {
            Ok(AgentTaskStatus::Cancelled)
        } else {
            Err(invalid_value("无效的Agent任务状态: ", s))
        }
    }
}

/// Reading back the stored name of a value gives the value.
pub proof fn law_agent_task_status_roundtrip(v: AgentTaskStatus)
    ensures
        parse_agent_task_status(agent_task_status_name(v)) == Some(v),
{
    reveal_strlit("created");
    reveal_strlit("running");
    reveal_strlit("paused");
    reveal_strlit("completed");
    reveal_strlit("error");
    reveal_strlit("cancelled");
    match v {
        AgentTaskStatus::Created => {
        },
        AgentTaskStatus::Running => {
            assert("running"@[0] != "created"@[0]);
        },
        AgentTaskStatus::Paused => {
            assert("paused"@.len() != "created"@.len());
            assert("paused"@.len() != "running"@.len());
        },
        AgentTaskStatus::Completed => {
            assert("completed"@.len() != "created"@.len());
            assert("completed"@.len() != "running"@.len());
            assert("completed"@.len() != "paused"@.len());
        },
        AgentTaskStatus::Error => {
            assert("error"@.len() != "created"@.len());
            assert("error"@.len() != "running"@.len());
            assert("error"@.len() != "paused"@.len());
            assert("error"@.len() != "completed"@.len());
        },
        AgentTaskStatus::Cancelled => {
            assert("cancelled"@.len() != "created"@.len());
            assert("cancelled"@.len() != "running"@.len());
            assert("cancelled"@.len() != "paused"@.len());
            assert("cancelled"@[1] != "completed"@[1]);
            assert("cancelled"@.len() != "error"@.len());
        },
    }
}
/// The kind of a step in an agent's execution log.
#[derive(Debug, Clone, Copy, PartialEq, Eq, Structural)]
pub enum ExecutionStepType {
    Thinking,
    ToolCall,
    ToolResult,
    FinalAnswer,
    Error,
}

/// The name under which each value is stored.
pub open spec fn execution_step_type_name(v: ExecutionStepType) -> Seq<char> {
    match v {
        ExecutionStepType::Thinking => "thinking"@,
        ExecutionStepType::ToolCall => "tool_call"@,
        ExecutionStepType::ToolResult => "tool_result"@,
        ExecutionStepType::FinalAnswer => "final_answer"@,
        ExecutionStepType::Error => "error"@,
    }
}

/// The value a stored name stands for, if any.
pub open spec fn parse_execution_step_type(s: Seq<char>) -> Option<ExecutionStepType> {
    if s == "thinking"@ {
        Some(ExecutionStepType::Thinking)
    } else if s == "tool_call"@ {
        Some(ExecutionStepType::ToolCall)
    } else if s == "tool_result"@ {
        Some(ExecutionStepType::ToolResult)
    } else if s == "final_answer"@ {
        Some(ExecutionStepType::FinalAnswer)
    } else if s == "error"@ {
        Some(ExecutionStepType::Error)
    } else {
        None
    }
}

impl ExecutionStepType {
    /// The name stored in the database.
    pub fn as_str(&self) -> (r: &'static str)
        ensures
            r@ == execution_step_type_name(*self),
    {
        match self {
            ExecutionStepType::Thinking => "thinking",
            ExecutionStepType::ToolCall => "tool_call",
            ExecutionStepType::ToolResult => "tool_result",
            ExecutionStepType::FinalAnswer => "final_answer",
            ExecutionStepType::Error => "error",
        }
    }

    /// Reads a stored name; any other text is an error.
    pub fn from_str(s: &str) -> (r: Result<Self, anyhow::Error>)
        ensures
            match r {
                Ok(v) => parse_execution_step_type(s@) == Some(v),
                Err(_) => parse_execution_step_type(s@) is None,
            },
    {
        let c = chars_of(s);
        if str_eq("thinking", &c) {
            Ok(ExecutionStepType::Thinking)
        } else if str_eq("tool_call", &c) {
            Ok(ExecutionStepType::ToolCall)
        } else if str_eq("tool_result", &c) {
            Ok(ExecutionStepType::ToolResult)
        } else if str_eq("final_answer", &c) {
            Ok(ExecutionStepType::FinalAnswer)
        } else if str_eq("error", &c) {
            Ok(ExecutionStepType::Error)
        } else {
            Err(invalid_value("无效的执行步骤类型: ", s))
        }
    }
}

/// Reading back the stored name of a value gives the value.
pub proof fn law_execution_step_type_roundtrip(v: ExecutionStepType)
    ensures
        parse_execution_step_type(execution_step_type_name(v)) == Some(v),
{
    reveal_strlit("thinking");
    reveal_strlit("tool_call");
    reveal_strlit("tool_result");
    reveal_strlit("final_answer");
    reveal_strlit("error");
    match v {
        ExecutionStepType::Thinking => {
        },
        ExecutionStepType::ToolCall => {
            assert("tool_call"@.len() != "thinking"@.len());
        },
        ExecutionStepType::ToolResult => {
            assert("tool_result"@.len() != "thinking"@.len());
            assert("tool_result"@.len() != "tool_call"@.len());
        },
        ExecutionStepType::FinalAnswer => {
            assert("final_answer"@.len() != "thinking"@.len());
            assert("final_answer"@.len() != "tool_call"@.len());
            assert("final_answer"@.len() != "tool_result"@.len());
        },
        ExecutionStepType::Error => {
            assert("error"@.len() != "thinking"@.len());
            assert("error"@.len() != "tool_call"@.len());
            assert("error"@.len() != "tool_result"@.len());
            assert("error"@.len() != "final_answer"@.len());
        },
    }
}
/// The state of a tool call.
#[derive(Debug, Clone, Copy, PartialEq, Eq, Structural)]
pub enum ToolCallStatus {
    Pending,
    Running,
    Completed,
    Error,
}

/// The name under which each value is stored.
pub open spec fn tool_call_status_name(v: ToolCallStatus) -> Seq<char> {
    match v {
        ToolCallStatus::Pending => "pending"@,
        ToolCallStatus::Running => "running"@,
        ToolCallStatus::Completed => "completed"@,
        ToolCallStatus::Error => "error"@,
    }
}

/// The value a stored name stands for, if any.
pub open spec fn parse_tool_call_status(s: Seq<char>) -> Option<ToolCallStatus> {
    if s == "pending"@ {
        Some(ToolCallStatus::Pending)
    } else if s == "running"@ {
        Some(ToolCallStatus::Running)
    } else if s == "completed"@ {
        Some(ToolCallStatus::Completed)
    } else if s == "error"@ {
        Some(ToolCallStatus::Error)
    } else {
        None
    }
}

impl ToolCallStatus {
    /// The name stored in the database.
    pub fn as_str(&self) -> (r: &'static str)
        ensures
            r@ == tool_call_status_name(*self),
    {
        match self {
            ToolCallStatus::Pending => "pending",
            ToolCallStatus::Running => "running",
            ToolCallStatus::Completed => "completed",
            ToolCallStatus::Error => "error",
        }
    }

    /// Reads a stored name; any other text is an error.
    pub fn from_str(s: &str) -> (r: Result<Self, anyhow::Error>)
        ensures
            match r {
                Ok(v) => parse_tool_call_status(s@) == Some(v),
                Err(_) => parse_tool_call_status(s@) is None,
            },
    {
        let c = chars_of(s);
        if str_eq("pending", &c) {
            Ok(ToolCallStatus::Pending)
        } else if str_eq("running", &c) {
            Ok(ToolCallStatus::Running)
        } else if str_eq("completed", &c) {
            Ok(ToolCallStatus::Completed)
        } else if str_eq("error", &c) {
            Ok(ToolCallStatus::Error)
        } else {
            Err(invalid_value("无效的工具调用状态: ", s))
        }
    }
}

/// Reading back the stored name of a value gives the value.
pub proof fn law_tool_call_status_roundtrip(v: ToolCallStatus)
    ensures
        parse_tool_call_status(tool_call_status_name(v)) == Some(v),
{
    reveal_strlit("pending");
    reveal_strlit("running");
    reveal_strlit("completed");
    reveal_strlit("error");
    match v {
        ToolCallStatus::Pending => {
        },
        ToolCallStatus::Running => {
            assert("running"@[0] != "pending"@[0]);
        },
        ToolCallStatus::Completed => {
            assert("completed"@.len() != "pending"@.len());
            assert("completed"@.len() != "running"@.len());
        },
        ToolCallStatus::Error => {
            assert("error"@.len() != "pending"@.len());
            assert("error"@.len() != "running"@.len());
            assert("error"@.len() != "completed"@.len());
        },
    }
}
/// The kind of a context snapshot.
#[derive(Debug, Clone, Copy, PartialEq, Eq, Structural)]
pub enum ContextType {
    Full,
    Incremental,
}

/// The name under which each value is stored.
pub open spec fn context_type_name(v: ContextType) -> Seq<char> {
    match v {
        ContextType::Full => "full"@,
        ContextType::Incremental => "incremental"@,
    }
}

/// The value a stored name stands for, if any.
pub open spec fn parse_context_type(s: Seq<char>) -> Option<ContextType> {
    if s == "full"@ {
        Some(ContextType::Full)
    } else if s == "incremental"@ {
        Some(ContextType::Incremental)
    } else {
        None
    }
}

impl ContextType {
    /// The name stored in the database.
    pub fn as_str(&self) -> (r: &'static str)
        ensures
            r@ == context_type_name(*self),
    {
        match self {
            ContextType::Full => "full",
            ContextType::Incremental => "incremental",
        }
    }

    /// Reads a stored name; any other text is an error.
    pub fn from_str(s: &str) -> (r: Result<Self, anyhow::Error>)
        ensures
            match r {
                Ok(v) => parse_context_type(s@) == Some(v),
                Err(_) => parse_context_type(s@) is None,
            },
    {
        let c = chars_of(s);
        if str_eq("full", &c) {
            Ok(ContextType::Full)
        } else if str_eq("incremental", &c) {
            Ok(ContextType::Incremental)
        } else {
            Err(invalid_value("无效的上下文类型: ", s))
        }
    }
}

/// Reading back the stored name of a value gives the value.
pub proof fn law_context_type_roundtrip(v: ContextType)
    ensures
        parse_context_type(context_type_name(v)) == Some(v),
{
    reveal_strlit("full");
    reveal_strlit("incremental");
    match v {
        ContextType::Full => {
        },
        ContextType::Incremental => {
            assert("incremental"@.len() != "full"@.len());
        },
    }
}
// ---------------------------------------------------------------------------
// Records
// ---------------------------------------------------------------------------

/// An agent task.
#[derive(Debug, Clone)]
pub struct AgentTask {
    pub id: Option<i64>,
    pub task_id: String,
    pub conversation_id: i64,
    pub user_prompt: String,
    pub status: AgentTaskStatus,
    pub current_iteration: u32,
    pub max_iterations: u32,
    pub error_count: u32,
    /// the task's configuration as JSON text
    pub config_json: Option<String>,
    /// RFC 3339, UTC
    pub created_at: String,
    /// RFC 3339, UTC
    pub updated_at: String,
    /// RFC 3339, UTC
    pub completed_at: Option<String>,
}

/// The id of a task created at `millis` (milliseconds since the epoch).
pub open spec fn task_id_at(millis: int) -> Seq<char> {
    "task_"@ + int_text(millis)
}

impl AgentTask {
    /// A new task of a conversation: created, at iteration 0 of at most
    /// 100, without errors or configuration; its id is `task_` and the
    /// creation time in milliseconds.
    pub fn new(conversation_id: i64, user_prompt: String) -> (r: Self)
        ensures
            r.id is None,
            exists|millis: i64| r.task_id@ == task_id_at(millis as int),
            r.conversation_id == conversation_id,
            r.user_prompt == user_prompt,
            r.status == AgentTaskStatus::Created,
            r.current_iteration == 0,
            r.max_iterations == 100,
            r.error_count == 0,
            r.config_json is None,
            r.created_at == r.updated_at,
            r.completed_at is None,
    {
        let millis = utc_now_millis();
        let now = utc_now_rfc3339();
        let mut id = chars_of("task_");
        push_int(&mut id, millis);
        assert(id@ == task_id_at(millis as int));
        AgentTask {
            id: None,
            task_id: string_of(&id),
            conversation_id,
            user_prompt,
            status: AgentTaskStatus::Created,
            current_iteration: 0,
            max_iterations: 100,
            error_count: 0,
            config_json: None,
            created_at: now.clone(),
            updated_at: now,
            completed_at: None,
        }
    }

    /// The task with the given configuration (as JSON text).
    pub fn with_config(self, config_json: String) -> (r: Self)
        ensures
            r == (AgentTask { config_json: Some(config_json), ..self }),
    {
        AgentTask { config_json: Some(config_json), ..self }
    }

    pub fn with_max_iterations(self, max_iterations: u32) -> (r: Self)
        ensures
            r == (AgentTask { max_iterations, ..self }),
    {
        AgentTask { max_iterations, ..self }
    }
}

/// One step of an agent's execution, as logged.
#[derive(Debug, Clone)]
pub struct AgentExecutionLog {
    pub id: Option<i64>,
    pub task_id: String,
    pub iteration: u32,
    pub step_type: ExecutionStepType,
    /// the step's content as JSON text
    pub content_json: String,
    /// RFC 3339, UTC
    pub timestamp: String,
}

impl AgentExecutionLog {
    /// A step logged now.
    pub fn new(task_id: String, iteration: u32, step_type: ExecutionStepType, content_json: String) -> (r: Self)
        ensures
            r.id is None,
            r.task_id == task_id,
            r.iteration == iteration,
            r.step_type == step_type,
            r.content_json == content_json,
    {
        AgentExecutionLog {
            id: None,
            task_id,
            iteration,
            step_type,
            content_json,
            timestamp: utc_now_rfc3339(),
        }
    }
}

/// A call of a tool by an agent.
#[derive(Debug, Clone)]
pub struct AgentToolCall {
    pub id: Option<i64>,
    pub task_id: String,
    pub call_id: String,
    pub tool_name: String,
    /// the arguments as JSON text
    pub arguments_json: String,
    /// the result as JSON text
    pub result_json: Option<String>,
    pub status: ToolCallStatus,
    pub error_message: Option<String>,
    /// RFC 3339, UTC
    pub started_at: String,
    /// RFC 3339, UTC
    pub completed_at: Option<String>,
}

impl AgentToolCall {
    /// A call started now, pending, without result or error.
    pub fn new(task_id: String, call_id: String, tool_name: String, arguments_json: String) -> (r: Self)
        ensures
            r.id is None,
            r.task_id == task_id,
            r.call_id == call_id,
            r.tool_name == tool_name,
            r.arguments_json == arguments_json,
            r.result_json is None,
            r.status == ToolCallStatus::Pending,
            r.error_message is None,
            r.completed_at is None,
    {
        AgentToolCall {
            id: None,
            task_id,
            call_id,
            tool_name,
            arguments_json,
            result_json: None,
            status: ToolCallStatus::Pending,
            error_message: None,
            started_at: utc_now_rfc3339(),
            completed_at: None,
        }
    }
}

/// A snapshot of an agent's context at one iteration.
#[derive(Debug, Clone)]
pub struct AgentContextSnapshot {
    pub id: Option<i64>,
    pub task_id: String,
    pub iteration: u32,
    pub context_type: ContextType,
    /// the messages as JSON text
    pub messages_json: String,
    /// further state as JSON text
    pub additional_state_json: Option<String>,
    /// RFC 3339, UTC
    pub created_at: String,
}

impl AgentContextSnapshot {
    /// A snapshot taken now, without further state.
    pub fn new(task_id: String, iteration: u32, context_type: ContextType, messages_json: String) -> (r: Self)
        ensures
            r.id is None,
            r.task_id == task_id,
            r.iteration == iteration,
            r.context_type == context_type,
            r.messages_json == messages_json,
            r.additional_state_json is None,
    {
        AgentContextSnapshot {
            id: None,
            task_id,
            iteration,
            context_type,
            messages_json,
            additional_state_json: None,
            created_at: utc_now_rfc3339(),
        }
    }

    /// The snapshot with further state (as JSON text).
    pub fn with_additional_state(self, state_json: String) -> (r: Self)
        ensures
            r == (AgentContextSnapshot { additional_state_json: Some(state_json), ..self }),
    {
        AgentContextSnapshot { additional_state_json: Some(state_json), ..self }
    }
}

// ---------------------------------------------------------------------------
// Rows written for the records
// ---------------------------------------------------------------------------

/// The columns of an agent task's row.
pub open spec fn agent_task_columns() -> Seq<Seq<char>> {
    seq![
        "task_id"@,
        "conversation_id"@,
        "user_prompt"@,
        "status"@,
        "current_iteration"@,
        "max_iterations"@,
        "error_count"@,
        "config_json"@,
        "created_at"@,
        "updated_at"@,
    ]
}

/// The columns of a tool call's row.
pub open spec fn tool_call_columns() -> Seq<Seq<char>> {
    seq![
        "task_id"@,
        "call_id"@,
        "tool_name"@,
        "arguments_json"@,
        "result_json"@,
        "status"@,
        "error_message"@,
        "started_at"@,
        "completed_at"@,
    ]
}

/// The columns of an execution step's row.
pub open spec fn execution_log_columns() -> Seq<Seq<char>> {
    seq![
        "task_id"@,
        "iteration"@,
        "step_type"@,
        "content_json"@,
        "timestamp"@,
    ]
}

/// The columns of a context snapshot's row.
pub open spec fn snapshot_columns() -> Seq<Seq<char>> {
    seq![
        "task_id"@,
        "iteration"@,
        "context_type"@,
        "messages_json"@,
        "additional_state_json"@,
        "created_at"@,
    ]
}

/// The columns of an agent task's row are named once each.
proof fn lemma_agent_task_columns_distinct()
    ensures
        distinct_names(agent_task_columns()),
{
    reveal_strlit("config_json");
    reveal_strlit("conversation_id");
    reveal_strlit("created_at");
    reveal_strlit("current_iteration");
    reveal_strlit("error_count");
    reveal_strlit("max_iterations");
    reveal_strlit("status");
    reveal_strlit("task_id");
    reveal_strlit("updated_at");
    reveal_strlit("user_prompt");
    assert("config_json"@.len() == 11);
    assert("conversation_id"@.len() == 15);
    assert("created_at"@.len() == 10);
    assert("current_iteration"@.len() == 17);
    assert("error_count"@.len() == 11);
    assert("max_iterations"@.len() == 14);
    assert("status"@.len() == 6);
    assert("task_id"@.len() == 7);
    assert("updated_at"@.len() == 10);
    assert("user_prompt"@.len() == 11);
    assert("user_prompt"@[0] != "error_count"@[0]);
    assert("user_prompt"@[0] != "config_json"@[0]);
    assert("error_count"@[0] != "config_json"@[0]);
    assert("created_at"@[0] != "updated_at"@[0]);
    let n = agent_task_columns();
    assert(n[0] == "task_id"@);
    assert(n[1] == "conversation_id"@);
    assert(n[2] == "user_prompt"@);
    assert(n[3] == "status"@);
    assert(n[4] == "current_iteration"@);
    assert(n[5] == "max_iterations"@);
    assert(n[6] == "error_count"@);
    assert(n[7] == "config_json"@);
    assert(n[8] == "created_at"@);
    assert(n[9] == "updated_at"@);
    reveal_with_fuel(distinct_names, 11);
    reveal_with_fuel(differs_from_all, 10);
}

/// The columns of a tool call's row are named once each.
proof fn lemma_tool_call_columns_distinct()
    ensures
        distinct_names(tool_call_columns()),
{
    reveal_strlit("arguments_json");
    reveal_strlit("call_id");
    reveal_strlit("completed_at");
    reveal_strlit("error_message");
    reveal_strlit("result_json");
    reveal_strlit("started_at");
    reveal_strlit("status");
    reveal_strlit("task_id");
    reveal_strlit("tool_name");
    assert("arguments_json"@.len() == 14);
    assert("call_id"@.len() == 7);
    assert("completed_at"@.len() == 12);
    assert("error_message"@.len() == 13);
    assert("result_json"@.len() == 11);
    assert("started_at"@.len() == 10);
    assert("status"@.len() == 6);
    assert("task_id"@.len() == 7);
    assert("tool_name"@.len() == 9);
    assert("task_id"@[0] != "call_id"@[0]);
    let n = tool_call_columns();
    assert(n[0] == "task_id"@);
    assert(n[1] == "call_id"@);
    assert(n[2] == "tool_name"@);
    assert(n[3] == "arguments_json"@);
    assert(n[4] == "result_json"@);
    assert(n[5] == "status"@);
    assert(n[6] == "error_message"@);
    assert(n[7] == "started_at"@);
    assert(n[8] == "completed_at"@);
    reveal_with_fuel(distinct_names, 10);
    reveal_with_fuel(differs_from_all, 9);
}

/// The columns of an execution step's row are named once each.
proof fn lemma_execution_log_columns_distinct()
    ensures
        distinct_names(execution_log_columns()),
{
    reveal_strlit("content_json");
    reveal_strlit("iteration");
    reveal_strlit("step_type");
    reveal_strlit("task_id");
    reveal_strlit("timestamp");
    assert("content_json"@.len() == 12);
    assert("iteration"@.len() == 9);
    assert("step_type"@.len() == 9);
    assert("task_id"@.len() == 7);
    assert("timestamp"@.len() == 9);
    assert("iteration"@[0] != "step_type"@[0]);
    assert("iteration"@[0] != "timestamp"@[0]);
    assert("step_type"@[0] != "timestamp"@[0]);
    let n = execution_log_columns();
    assert(n[0] == "task_id"@);
    assert(n[1] == "iteration"@);
    assert(n[2] == "step_type"@);
    assert(n[3] == "content_json"@);
    assert(n[4] == "timestamp"@);
    reveal_with_fuel(distinct_names, 6);
    reveal_with_fuel(differs_from_all, 5);
}

/// The columns of a context snapshot's row are named once each.
proof fn lemma_snapshot_columns_distinct()
    ensures
        distinct_names(snapshot_columns()),
{
    reveal_strlit("additional_state_json");
    reveal_strlit("context_type");
    reveal_strlit("created_at");
    reveal_strlit("iteration");
    reveal_strlit("messages_json");
    reveal_strlit("task_id");
    assert("additional_state_json"@.len() == 21);
    assert("context_type"@.len() == 12);
    assert("created_at"@.len() == 10);
    assert("iteration"@.len() == 9);
    assert("messages_json"@.len() == 13);
    assert("task_id"@.len() == 7);
    let n = snapshot_columns();
    assert(n[0] == "task_id"@);
    assert(n[1] == "iteration"@);
    assert(n[2] == "context_type"@);
    assert(n[3] == "messages_json"@);
    assert(n[4] == "additional_state_json"@);
    assert(n[5] == "created_at"@);
    reveal_with_fuel(distinct_names, 7);
    reveal_with_fuel(differs_from_all, 6);
}


/// The statements of the agent task store; running them is the caller's
/// part.
pub struct AgentTaskRepository;

impl AgentTaskRepository {
    /// The INSERT of a task's row into `agent_tasks`, with its values in
    /// column order (see `agent_task_columns`).
    pub fn create_statement(task: &AgentTask) -> (r: (String, Vec<JsonValue>))
        ensures
            r.0@ == insert_sql("agent_tasks"@, agent_task_columns()),
            r.1@.len() == 10,
            r.1@[0] == JsonValue::String(task.task_id),
            r.1@[1] == JsonValue::Number(task.conversation_id),
            r.1@[2] == JsonValue::String(task.user_prompt),
            text_is(r.1@[3], agent_task_status_name(task.status)),
            r.1@[4] == JsonValue::Number(task.current_iteration as i64),
            r.1@[5] == JsonValue::Number(task.max_iterations as i64),
            r.1@[6] == JsonValue::Number(task.error_count as i64),
            r.1@[7] == text_or_null(task.config_json),
            r.1@[8] == JsonValue::String(task.created_at),
            r.1@[9] == JsonValue::String(task.updated_at),
    {
        let mut cols: Vec<(String, JsonValue)> = Vec::new();
        cols.push(column("task_id", JsonValue::String(task.task_id.clone())));
        cols.push(column("conversation_id", JsonValue::Number(task.conversation_id)));
        cols.push(column("user_prompt", JsonValue::String(task.user_prompt.clone())));
        cols.push(column("status", JsonValue::String(owned(task.status.as_str()))));
        cols.push(column("current_iteration", JsonValue::Number(task.current_iteration as i64)));
        cols.push(column("max_iterations", JsonValue::Number(task.max_iterations as i64)));
        cols.push(column("error_count", JsonValue::Number(task.error_count as i64)));
        cols.push(column("config_json", text_value(&task.config_json)));
        cols.push(column("created_at", JsonValue::String(task.created_at.clone())));
        cols.push(column("updated_at", JsonValue::String(task.updated_at.clone())));
        proof {
            assert(field_names(cols@) =~= agent_task_columns());
            lemma_agent_task_columns_distinct();
            lemma_distinct_names(cols@);
        }
        insert_row("agent_tasks", cols)
    }
}

/// The statements of the tool call store; running them is the caller's
/// part.
pub struct AgentToolCallRepository;

impl AgentToolCallRepository {
    /// The INSERT of a tool call's row into `agent_tool_calls`, with its
    /// values in column order (see `tool_call_columns`).
    pub fn create_statement(call: &AgentToolCall) -> (r: (String, Vec<JsonValue>))
        ensures
            r.0@ == insert_sql("agent_tool_calls"@, tool_call_columns()),
            r.1@.len() == 9,
            r.1@[0] == JsonValue::String(call.task_id),
            r.1@[1] == JsonValue::String(call.call_id),
            r.1@[2] == JsonValue::String(call.tool_name),
            r.1@[3] == JsonValue::String(call.arguments_json),
            r.1@[4] == text_or_null(call.result_json),
            text_is(r.1@[5], tool_call_status_name(call.status)),
            r.1@[6] == text_or_null(call.error_message),
            r.1@[7] == JsonValue::String(call.started_at),
            r.1@[8] == text_or_null(call.completed_at),
    {
        let mut cols: Vec<(String, JsonValue)> = Vec::new();
        cols.push(column("task_id", JsonValue::String(call.task_id.clone())));
        cols.push(column("call_id", JsonValue::String(call.call_id.clone())));
        cols.push(column("tool_name", JsonValue::String(call.tool_name.clone())));
        cols.push(column("arguments_json", JsonValue::String(call.arguments_json.clone())));
        cols.push(column("result_json", text_value(&call.result_json)));
        cols.push(column("status", JsonValue::String(owned(call.status.as_str()))));
        cols.push(column("error_message", text_value(&call.error_message)));
        cols.push(column("started_at", JsonValue::String(call.started_at.clone())));
        cols.push(column("completed_at", text_value(&call.completed_at)));
        proof {
            assert(field_names(cols@) =~= tool_call_columns());
            lemma_tool_call_columns_distinct();
            lemma_distinct_names(cols@);
        }
        insert_row("agent_tool_calls", cols)
    }
}

/// The statements of the execution log; running them is the caller's
/// part.
pub struct AgentExecutionLogRepository;

impl AgentExecutionLogRepository {
    /// The INSERT of a step's row into `agent_execution_log`, with its
    /// values in column order (see `execution_log_columns`).
    pub fn create_statement(log: &AgentExecutionLog) -> (r: (String, Vec<JsonValue>))
        ensures
            r.0@ == insert_sql("agent_execution_log"@, execution_log_columns()),
            r.1@.len() == 5,
            r.1@[0] == JsonValue::String(log.task_id),
            r.1@[1] == JsonValue::Number(log.iteration as i64),
            text_is(r.1@[2], execution_step_type_name(log.step_type)),
            r.1@[3] == JsonValue::String(log.content_json),
            r.1@[4] == JsonValue::String(log.timestamp),
    {
        let mut cols: Vec<(String, JsonValue)> = Vec::new();
        cols.push(column("task_id", JsonValue::String(log.task_id.clone())));
        cols.push(column("iteration", JsonValue::Number(log.iteration as i64)));
        cols.push(column("step_type", JsonValue::String(owned(log.step_type.as_str()))));
        cols.push(column("content_json", JsonValue::String(log.content_json.clone())));
        cols.push(column("timestamp", JsonValue::String(log.timestamp.clone())));
        proof {
            assert(field_names(cols@) =~= execution_log_columns());
            lemma_execution_log_columns_distinct();
            lemma_distinct_names(cols@);
        }
        insert_row("agent_execution_log", cols)
    }
}

/// The statements of the context snapshot store; running them is the
/// caller's part.
pub struct AgentContextSnapshotRepository;

impl AgentContextSnapshotRepository {
    /// The INSERT of a snapshot's row into `agent_context_snapshots`, with
    /// its values in column order (see `snapshot_columns`).
    pub fn create_statement(snapshot: &AgentContextSnapshot) -> (r: (String, Vec<JsonValue>))
        ensures
            r.0@ == insert_sql("agent_context_snapshots"@, snapshot_columns()),
            r.1@.len() == 6,
            r.1@[0] == JsonValue::String(snapshot.task_id),
            r.1@[1] == JsonValue::Number(snapshot.iteration as i64),
            text_is(r.1@[2], context_type_name(snapshot.context_type)),
            r.1@[3] == JsonValue::String(snapshot.messages_json),
            r.1@[4] == text_or_null(snapshot.additional_state_json),
            r.1@[5] == JsonValue::String(snapshot.created_at),
    {
        let mut cols: Vec<(String, JsonValue)> = Vec::new();
        cols.push(column("task_id", JsonValue::String(snapshot.task_id.clone())));
        cols.push(column("iteration", JsonValue::Number(snapshot.iteration as i64)));
        cols.push(column("context_type", JsonValue::String(owned(snapshot.context_type.as_str()))));
        cols.push(column("messages_json", JsonValue::String(snapshot.messages_json.clone())));
        cols.push(column("additional_state_json", text_value(&snapshot.additional_state_json)));
        cols.push(column("created_at", JsonValue::String(snapshot.created_at.clone())));
        proof {
            assert(field_names(cols@) =~= snapshot_columns());
            lemma_snapshot_columns_distinct();
            lemma_distinct_names(cols@);
        }
        insert_row("agent_context_snapshots", cols)
    }

    /// A snapshot of the given kind taken now, with its further state when
    /// given.
    fn snapshot_of(
        task_id: String,
        iteration: u32,
        context_type: ContextType,
        messages_json: String,
        additional_state_json: Option<String>,
    ) -> (r: AgentContextSnapshot)
        ensures
            r.id is None,
            r.task_id == task_id,
            r.iteration == iteration,
            r.context_type == context_type,
            r.messages_json == messages_json,
            r.additional_state_json == additional_state_json,
    {
        let snapshot = AgentContextSnapshot::new(task_id, iteration, context_type, messages_json);
        match additional_state_json {
            Some(state) => snapshot.with_additional_state(state),
            None => snapshot,
        }
    }

    /// The full snapshot to store for an iteration.
    pub fn full_snapshot(
        task_id: String,
        iteration: u32,
        messages_json: String,
        additional_state_json: Option<String>,
    ) -> (r: AgentContextSnapshot)
        ensures
            r.id is None,
            r.task_id == task_id,
            r.iteration == iteration,
            r.context_type == ContextType::Full,
            r.messages_json == messages_json,
            r.additional_state_json == additional_state_json,
    {
        Self::snapshot_of(task_id, iteration, ContextType::Full, messages_json, additional_state_json)
    }

    /// The incremental snapshot to store for an iteration.
    pub fn incremental_snapshot(
        task_id: String,
        iteration: u32,
        messages_json: String,
        additional_state_json: Option<String>,
    ) -> (r: AgentContextSnapshot)
        ensures
            r.id is None,
            r.task_id == task_id,
            r.iteration == iteration,
            r.context_type == ContextType::Incremental,
            r.messages_json == messages_json,
            r.additional_state_json == additional_state_json,
    {
        Self::snapshot_of(task_id, iteration, ContextType::Incremental, messages_json, additional_state_json)
    }

    /// A context rebuilt from the latest full snapshot up to an iteration
    /// and the incremental snapshots after it, in order: the messages of
    /// each increment that is a list are appended to a base that is a
    /// list; any other base or increment is left as it is. No full
    /// snapshot, no context.
    pub fn rebuild_context(full: Option<JsonValue>, increments: Vec<JsonValue>) -> (r: Option<JsonValue>)
        ensures
            match full {
                None => r is None,
                Some(JsonValue::Array(base)) => r matches Some(JsonValue::Array(items)) && items@ == base@
                    + appended_items(increments@),
                Some(other) => r == Some(other),
            },
    {
        match full {
            None => None,
            Some(JsonValue::Array(base)) => {
                let ghost b0 = base@;
                let ghost all = increments@;
                let mut items = base;
                let mut rest = increments;
                let mut i: usize = 0;
                let n = rest.len();
                assert(all.take(0) =~= Seq::<JsonValue>::empty());
                while rest.len() > 0
                    invariant
                        i + rest@.len() == all.len(),
                        all.len() == n,
                        rest@ == all.skip(i as int),
                        items@ == b0 + appended_items(all.take(i as int)),
                    decreases rest@.len(),
                {
                    let inc = rest.remove(0);
                    proof {
                        assert(inc == all[i as int]);
                        assert(rest@ =~= all.skip(i + 1));
                        assert(all.take(i + 1).drop_last() =~= all.take(i as int));
                        assert(all.take(i + 1).last() == all[i as int]);
                    }
                    match inc {
                        JsonValue::Array(more) => {
                            let mut more = more;
                            items.append(&mut more);
                            assert(items@ =~= b0 + appended_items(all.take(i + 1)));
                        },
                        _ => {
                            assert(items@ =~= b0 + appended_items(all.take(i + 1)));
                        },
                    }
                    i += 1;
                }
                assert(all.take(n as int) =~= all);
                Some(JsonValue::Array(items))
            },
            Some(other) => Some(other),
        }
    }
}

/// The messages appended by a run of increments: the items of each one
/// that is a list, in order.
pub open spec fn appended_items(increments: Seq<JsonValue>) -> Seq<JsonValue>
    decreases increments.len(),
{
    if increments.len() == 0 {
        Seq::empty()
    } else {
        appended_items(increments.drop_last()) + match increments.last() {
            JsonValue::Array(v) => v@,
            _ => Seq::empty(),
        }
    }
}


// The remaining statements of the agent repositories.

/// The SQL of `find_by_task_id_statement`.
pub open spec fn agent_task_by_task_id_sql() -> Seq<char> {
    "SELECT * FROM agent_tasks WHERE task_id = ?"@
}

/// The SQL of `update_status_statement`.
pub open spec fn agent_task_update_status_sql() -> Seq<char> {
    "UPDATE agent_tasks SET status = ?, current_iteration = ?, error_count = ?, updated_at = CURRENT_TIMESTAMP WHERE task_id = ?"@
}

/// The SQL of `complete_task_statement`.
pub open spec fn agent_task_complete_sql() -> Seq<char> {
    "UPDATE agent_tasks SET status = ?, completed_at = CURRENT_TIMESTAMP, updated_at = CURRENT_TIMESTAMP WHERE task_id = ?"@
}

/// The SQL of `find_by_conversation_id_statement`.
pub open spec fn agent_tasks_by_conversation_sql() -> Seq<char> {
    "SELECT * FROM agent_tasks WHERE conversation_id = ? ORDER BY created_at DESC"@
}

/// The SQL of `find_incomplete_tasks_statement`.
pub open spec fn agent_tasks_incomplete_sql() -> Seq<char> {
    "SELECT * FROM agent_tasks WHERE status IN ('created', 'running', 'paused') ORDER BY updated_at DESC"@
}

/// The SQL of `find_by_id_statement`.
pub open spec fn agent_task_by_id_sql() -> Seq<char> {
    "SELECT * FROM agent_tasks WHERE id = ?"@
}

/// The SQL of `find_all_statement`.
pub open spec fn agent_tasks_all_sql() -> Seq<char> {
    "SELECT * FROM agent_tasks ORDER BY created_at DESC"@
}

/// The SQL of `delete_statement`.
pub open spec fn agent_task_delete_sql() -> Seq<char> {
    "DELETE FROM agent_tasks WHERE id = ?"@
}

/// The SQL of `find_by_call_id_statement`.
pub open spec fn tool_call_by_call_id_sql() -> Seq<char> {
    "SELECT * FROM agent_tool_calls WHERE call_id = ?"@
}

/// The SQL of `find_by_task_id_statement`.
pub open spec fn tool_calls_by_task_sql() -> Seq<char> {
    "SELECT * FROM agent_tool_calls WHERE task_id = ? ORDER BY started_at ASC"@
}

/// The SQL of `update_result_statement`.
pub open spec fn tool_call_update_result_sql() -> Seq<char> {
    "UPDATE agent_tool_calls SET result_json = ?, status = ?, completed_at = CURRENT_TIMESTAMP WHERE call_id = ?"@
}

/// The SQL of `update_error_statement`.
pub open spec fn tool_call_update_error_sql() -> Seq<char> {
    "UPDATE agent_tool_calls SET status = ?, error_message = ?, completed_at = CURRENT_TIMESTAMP WHERE call_id = ?"@
}

/// The SQL of `find_by_status_statement`.
pub open spec fn tool_calls_by_status_sql() -> Seq<char> {
    "SELECT * FROM agent_tool_calls WHERE status = ? ORDER BY started_at DESC"@
}

/// The SQL of `find_by_tool_name_statement`.
pub open spec fn tool_calls_by_tool_sql() -> Seq<char> {
    "SELECT * FROM agent_tool_calls WHERE tool_name = ? ORDER BY started_at DESC LIMIT 100"@
}

/// The SQL of `tool_usage_stats_statement`.
pub open spec fn tool_usage_stats_sql() -> Seq<char> {
    "SELECT tool_name, COUNT(*) as usage_count FROM agent_tool_calls GROUP BY tool_name ORDER BY usage_count DESC"@
}

/// The SQL of `cleanup_old_calls_statement`.
pub open spec fn tool_calls_cleanup_sql() -> Seq<char> {
    "DELETE FROM agent_tool_calls WHERE started_at < datetime('now', ?) AND task_id IN (SELECT task_id FROM agent_tasks WHERE status IN ('completed', 'error', 'cancelled') AND completed_at < datetime('now', ?))"@
}

/// The SQL of `find_by_id_statement`.
pub open spec fn tool_call_by_id_sql() -> Seq<char> {
    "SELECT * FROM agent_tool_calls WHERE id = ?"@
}

/// The SQL of `find_all_statement`.
pub open spec fn tool_calls_all_sql() -> Seq<char> {
    "SELECT * FROM agent_tool_calls ORDER BY started_at DESC LIMIT 1000"@
}

/// The SQL of `delete_statement`.
pub open spec fn tool_call_delete_sql() -> Seq<char> {
    "DELETE FROM agent_tool_calls WHERE id = ?"@
}

/// The SQL of `find_by_task_id_statement`.
pub open spec fn execution_log_by_task_sql() -> Seq<char> {
    "SELECT * FROM agent_execution_log WHERE task_id = ? ORDER BY iteration ASC, timestamp ASC"@
}

/// The SQL of `find_by_task_and_iteration_statement`.
pub open spec fn execution_log_by_iteration_sql() -> Seq<char> {
    "SELECT * FROM agent_execution_log WHERE task_id = ? AND iteration = ? ORDER BY timestamp ASC"@
}

/// The SQL of `find_by_step_type_statement`.
pub open spec fn execution_log_by_step_sql() -> Seq<char> {
    "SELECT * FROM agent_execution_log WHERE task_id = ? AND step_type = ? ORDER BY timestamp ASC"@
}

/// The SQL of `get_latest_by_task_statement`.
pub open spec fn execution_log_latest_sql() -> Seq<char> {
    "SELECT * FROM agent_execution_log WHERE task_id = ? ORDER BY iteration DESC, timestamp DESC LIMIT 1"@
}

/// The SQL of `cleanup_old_logs_statement`.
pub open spec fn execution_log_cleanup_sql() -> Seq<char> {
    "DELETE FROM agent_execution_log WHERE timestamp < datetime('now', ?) AND task_id IN (SELECT task_id FROM agent_tasks WHERE status IN ('completed', 'error', 'cancelled') AND completed_at < datetime('now', ?))"@
}

/// The SQL of `find_by_id_statement`.
pub open spec fn execution_log_by_id_sql() -> Seq<char> {
    "SELECT * FROM agent_execution_log WHERE id = ?"@
}

/// The SQL of `find_all_statement`.
pub open spec fn execution_log_all_sql() -> Seq<char> {
    "SELECT * FROM agent_execution_log ORDER BY timestamp DESC LIMIT 1000"@
}

/// The SQL of `delete_statement`.
pub open spec fn execution_log_delete_sql() -> Seq<char> {
    "DELETE FROM agent_execution_log WHERE id = ?"@
}

/// The SQL of `find_by_task_id_statement`.
pub open spec fn snapshots_by_task_sql() -> Seq<char> {
    "SELECT * FROM agent_context_snapshots WHERE task_id = ? ORDER BY iteration DESC, created_at DESC"@
}

/// The SQL of `find_by_task_and_iteration_statement`.
pub open spec fn snapshot_by_iteration_sql() -> Seq<char> {
    "SELECT * FROM agent_context_snapshots WHERE task_id = ? AND iteration = ? ORDER BY created_at DESC LIMIT 1"@
}

/// The SQL of `get_latest_snapshot_statement`.
pub open spec fn snapshot_latest_sql() -> Seq<char> {
    "SELECT * FROM agent_context_snapshots WHERE task_id = ? ORDER BY iteration DESC, created_at DESC LIMIT 1"@
}

/// The SQL of `find_by_context_type_statement`.
pub open spec fn snapshots_by_type_sql() -> Seq<char> {
    "SELECT * FROM agent_context_snapshots WHERE task_id = ? AND context_type = ? ORDER BY iteration DESC, created_at DESC"@
}

/// The SQL of `latest_full_snapshot_statement`.
pub open spec fn latest_full_snapshot_sql() -> Seq<char> {
    "SELECT * FROM agent_context_snapshots WHERE task_id = ? AND context_type = 'full' AND iteration <= ? ORDER BY iteration DESC LIMIT 1"@
}

/// The SQL of `increments_after_statement`.
pub open spec fn increments_after_sql() -> Seq<char> {
    "SELECT * FROM agent_context_snapshots WHERE task_id = ? AND context_type = 'incremental' AND iteration > ? AND iteration <= ? ORDER BY iteration ASC"@
}

/// The SQL of `cleanup_old_snapshots_statement`.
pub open spec fn snapshots_cleanup_sql() -> Seq<char> {
    "DELETE FROM agent_context_snapshots WHERE id NOT IN (SELECT id FROM agent_context_snapshots GROUP BY task_id HAVING COUNT(*) <= 5) AND task_id IN (SELECT task_id FROM agent_tasks WHERE status IN ('completed', 'error', 'cancelled'))"@
}

/// The SQL of `delete_by_task_id_statement`.
pub open spec fn snapshots_delete_by_task_sql() -> Seq<char> {
    "DELETE FROM agent_context_snapshots WHERE task_id = ?"@
}

/// The SQL of `snapshot_stats_statement`.
pub open spec fn snapshot_stats_sql() -> Seq<char> {
    "SELECT COUNT(*) as total_count, COUNT(CASE WHEN context_type = 'full' THEN 1 END) as full_count FROM agent_context_snapshots WHERE task_id = ?"@
}

/// The SQL of `find_by_id_statement`.
pub open spec fn snapshot_by_id_sql() -> Seq<char> {
    "SELECT * FROM agent_context_snapshots WHERE id = ?"@
}

/// The SQL of `find_all_statement`.
pub open spec fn snapshots_all_sql() -> Seq<char> {
    "SELECT * FROM agent_context_snapshots ORDER BY created_at DESC LIMIT 100"@
}

/// The SQL of `delete_statement`.
pub open spec fn snapshot_delete_sql() -> Seq<char> {
    "DELETE FROM agent_context_snapshots WHERE id = ?"@
}

/// The statement that finishes a tool call.
pub open spec fn tool_call_finish_sql() -> Seq<char> {
    "UPDATE agent_tool_calls SET status = ?, result_json = ?, error_message = ?, completed_at = CURRENT_TIMESTAMP WHERE call_id = ?"@
}

/// The statement that sets a tool call's state alone.
pub open spec fn tool_call_set_status_sql() -> Seq<char> {
    "UPDATE agent_tool_calls SET status = ? WHERE call_id = ?"@
}

impl AgentTaskRepository {
    /// The query of the task with id `task_id`.
    pub fn find_by_task_id_statement(task_id: &str) -> (r: (String, Vec<JsonValue>))
        ensures
            r.0@ == agent_task_by_task_id_sql(),
            r.1@.len() == 1,
            text_is(r.1@[0], task_id@),
    {
        let mut params: Vec<JsonValue> = Vec::new();
        params.push(JsonValue::String(owned(task_id)));
        (owned("SELECT * FROM agent_tasks WHERE task_id = ?"), params)
    }

    /// Setting a task's state, iteration and error count (updated now).
    pub fn update_status_statement(task_id: &str, status: AgentTaskStatus, current_iteration: u32, error_count: u32) -> (r: (String, Vec<JsonValue>))
        ensures
            r.0@ == agent_task_update_status_sql(),
            r.1@.len() == 4,
            text_is(r.1@[0], agent_task_status_name(status)),
            r.1@[1] == JsonValue::Number(current_iteration as i64),
            r.1@[2] == JsonValue::Number(error_count as i64),
            text_is(r.1@[3], task_id@),
    {
        let mut params: Vec<JsonValue> = Vec::new();
        params.push(JsonValue::String(owned(status.as_str())));
        params.push(JsonValue::Number(current_iteration as i64));
        params.push(JsonValue::Number(error_count as i64));
        params.push(JsonValue::String(owned(task_id)));
        (owned("UPDATE agent_tasks SET status = ?, current_iteration = ?, error_count = ?, updated_at = CURRENT_TIMESTAMP WHERE task_id = ?"), params)
    }

    /// Closing a task in a final state (completed and updated now).
    pub fn complete_task_statement(task_id: &str, status: AgentTaskStatus) -> (r: (String, Vec<JsonValue>))
        ensures
            r.0@ == agent_task_complete_sql(),
            r.1@.len() == 2,
            text_is(r.1@[0], agent_task_status_name(status)),
            text_is(r.1@[1], task_id@),
    {
        let mut params: Vec<JsonValue> = Vec::new();
        params.push(JsonValue::String(owned(status.as_str())));
        params.push(JsonValue::String(owned(task_id)));
        (owned("UPDATE agent_tasks SET status = ?, completed_at = CURRENT_TIMESTAMP, updated_at = CURRENT_TIMESTAMP WHERE task_id = ?"), params)
    }

    /// The query of a conversation's tasks, newest first.
    pub fn find_by_conversation_id_statement(conversation_id: i64) -> (r: (String, Vec<JsonValue>))
        ensures
            r.0@ == agent_tasks_by_conversation_sql(),
            r.1@.len() == 1,
            r.1@[0] == JsonValue::Number(conversation_id),
    {
        let mut params: Vec<JsonValue> = Vec::new();
        params.push(JsonValue::Number(conversation_id));
        (owned("SELECT * FROM agent_tasks WHERE conversation_id = ? ORDER BY created_at DESC"), params)
    }

    /// The query of the tasks not yet finished, most recently updated first.
    pub fn find_incomplete_tasks_statement() -> (r: (String, Vec<JsonValue>))
        ensures
            r.0@ == agent_tasks_incomplete_sql(),
            r.1@.len() == 0,
    {
        (owned("SELECT * FROM agent_tasks WHERE status IN ('created', 'running', 'paused') ORDER BY updated_at DESC"), Vec::new())
    }

    /// The query of the task with row id `id`.
    pub fn find_by_id_statement(id: i64) -> (r: (String, Vec<JsonValue>))
        ensures
            r.0@ == agent_task_by_id_sql(),
            r.1@.len() == 1,
            r.1@[0] == JsonValue::Number(id),
    {
        let mut params: Vec<JsonValue> = Vec::new();
        params.push(JsonValue::Number(id));
        (owned("SELECT * FROM agent_tasks WHERE id = ?"), params)
    }

    /// The query of every task, newest first.
    pub fn find_all_statement() -> (r: (String, Vec<JsonValue>))
        ensures
            r.0@ == agent_tasks_all_sql(),
            r.1@.len() == 0,
    {
        (owned("SELECT * FROM agent_tasks ORDER BY created_at DESC"), Vec::new())
    }

    /// The statement that drops task `id`.
    pub fn delete_statement(id: i64) -> (r: (String, Vec<JsonValue>))
        ensures
            r.0@ == agent_task_delete_sql(),
            r.1@.len() == 1,
            r.1@[0] == JsonValue::Number(id),
    {
        let mut params: Vec<JsonValue> = Vec::new();
        params.push(JsonValue::Number(id));
        (owned("DELETE FROM agent_tasks WHERE id = ?"), params)
    }

    /// Writing back a task's state, iteration and error count (see
    /// `update_status_statement`).
    pub fn update_statement(task: &AgentTask) -> (r: (String, Vec<JsonValue>))
        ensures
            r.0@ == agent_task_update_status_sql(),
            r.1@.len() == 4,
            text_is(r.1@[0], agent_task_status_name(task.status)),
            r.1@[1] == JsonValue::Number(task.current_iteration as i64),
            r.1@[2] == JsonValue::Number(task.error_count as i64),
            text_is(r.1@[3], task.task_id@),
    {
        Self::update_status_statement(task.task_id.as_str(), task.status, task.current_iteration, task.error_count)
    }
}

impl AgentToolCallRepository {
    /// The query of the call with id `call_id`.
    pub fn find_by_call_id_statement(call_id: &str) -> (r: (String, Vec<JsonValue>))
        ensures
            r.0@ == tool_call_by_call_id_sql(),
            r.1@.len() == 1,
            text_is(r.1@[0], call_id@),
    {
        let mut params: Vec<JsonValue> = Vec::new();
        params.push(JsonValue::String(owned(call_id)));
        (owned("SELECT * FROM agent_tool_calls WHERE call_id = ?"), params)
    }

    /// The query of a task's calls, oldest first.
    pub fn find_by_task_id_statement(task_id: &str) -> (r: (String, Vec<JsonValue>))
        ensures
            r.0@ == tool_calls_by_task_sql(),
            r.1@.len() == 1,
            text_is(r.1@[0], task_id@),
    {
        let mut params: Vec<JsonValue> = Vec::new();
        params.push(JsonValue::String(owned(task_id)));
        (owned("SELECT * FROM agent_tool_calls WHERE task_id = ? ORDER BY started_at ASC"), params)
    }

    /// Recording a call's result (JSON text, or null) and state, completed now.
    pub fn update_result_statement(call_id: &str, result: Option<String>, status: ToolCallStatus) -> (r: (String, Vec<JsonValue>))
        ensures
            r.0@ == tool_call_update_result_sql(),
            r.1@.len() == 3,
            r.1@[0] == text_or_null(result),
            text_is(r.1@[1], tool_call_status_name(status)),
            text_is(r.1@[2], call_id@),
    {
        let mut params: Vec<JsonValue> = Vec::new();
        params.push(text_value(&result));
        params.push(JsonValue::String(owned(status.as_str())));
        params.push(JsonValue::String(owned(call_id)));
        (owned("UPDATE agent_tool_calls SET result_json = ?, status = ?, completed_at = CURRENT_TIMESTAMP WHERE call_id = ?"), params)
    }

    /// Recording that a call failed with `error_message`, completed now.
    pub fn update_error_statement(call_id: &str, error_message: &str) -> (r: (String, Vec<JsonValue>))
        ensures
            r.0@ == tool_call_update_error_sql(),
            r.1@.len() == 3,
            text_is(r.1@[0], tool_call_status_name(ToolCallStatus::Error)),
            text_is(r.1@[1], error_message@),
            text_is(r.1@[2], call_id@),
    {
        let mut params: Vec<JsonValue> = Vec::new();
        params.push(JsonValue::String(owned(ToolCallStatus::Error.as_str())));
        params.push(JsonValue::String(owned(error_message)));
        params.push(JsonValue::String(owned(call_id)));
        (owned("UPDATE agent_tool_calls SET status = ?, error_message = ?, completed_at = CURRENT_TIMESTAMP WHERE call_id = ?"), params)
    }

    /// The query of the calls in a state, newest first.
    pub fn find_by_status_statement(status: ToolCallStatus) -> (r: (String, Vec<JsonValue>))
        ensures
            r.0@ == tool_calls_by_status_sql(),
            r.1@.len() == 1,
            text_is(r.1@[0], tool_call_status_name(status)),
    {
        let mut params: Vec<JsonValue> = Vec::new();
        params.push(JsonValue::String(owned(status.as_str())));
        (owned("SELECT * FROM agent_tool_calls WHERE status = ? ORDER BY started_at DESC"), params)
    }

    /// The query of the latest hundred calls of a tool.
    pub fn find_by_tool_name_statement(tool_name: &str) -> (r: (String, Vec<JsonValue>))
        ensures
            r.0@ == tool_calls_by_tool_sql(),
            r.1@.len() == 1,
            text_is(r.1@[0], tool_name@),
    {
        let mut params: Vec<JsonValue> = Vec::new();
        params.push(JsonValue::String(owned(tool_name)));
        (owned("SELECT * FROM agent_tool_calls WHERE tool_name = ? ORDER BY started_at DESC LIMIT 100"), params)
    }

    /// The query of how often each tool was called, most used first.
    pub fn tool_usage_stats_statement() -> (r: (String, Vec<JsonValue>))
        ensures
            r.0@ == tool_usage_stats_sql(),
            r.1@.len() == 0,
    {
        (owned("SELECT tool_name, COUNT(*) as usage_count FROM agent_tool_calls GROUP BY tool_name ORDER BY usage_count DESC"), Vec::new())
    }

    /// The statement that drops the calls older than `days` days of tasks finished before then.
    pub fn cleanup_old_calls_statement(days: i32) -> (r: (String, Vec<JsonValue>))
        ensures
            r.0@ == tool_calls_cleanup_sql(),
            r.1@.len() == 2,
            text_is(r.1@[0], days_back_text(days as int)),
            text_is(r.1@[1], days_back_text(days as int)),
    {
        let mut params: Vec<JsonValue> = Vec::new();
        params.push(JsonValue::String(days_back(days)));
        params.push(JsonValue::String(days_back(days)));
        (owned("DELETE FROM agent_tool_calls WHERE started_at < datetime('now', ?) AND task_id IN (SELECT task_id FROM agent_tasks WHERE status IN ('completed', 'error', 'cancelled') AND completed_at < datetime('now', ?))"), params)
    }

    /// The query of the call with row id `id`.
    pub fn find_by_id_statement(id: i64) -> (r: (String, Vec<JsonValue>))
        ensures
            r.0@ == tool_call_by_id_sql(),
            r.1@.len() == 1,
            r.1@[0] == JsonValue::Number(id),
    {
        let mut params: Vec<JsonValue> = Vec::new();
        params.push(JsonValue::Number(id));
        (owned("SELECT * FROM agent_tool_calls WHERE id = ?"), params)
    }

    /// The query of the latest thousand calls.
    pub fn find_all_statement() -> (r: (String, Vec<JsonValue>))
        ensures
            r.0@ == tool_calls_all_sql(),
            r.1@.len() == 0,
    {
        (owned("SELECT * FROM agent_tool_calls ORDER BY started_at DESC LIMIT 1000"), Vec::new())
    }

    /// The statement that drops call `id`.
    pub fn delete_statement(id: i64) -> (r: (String, Vec<JsonValue>))
        ensures
            r.0@ == tool_call_delete_sql(),
            r.1@.len() == 1,
            r.1@[0] == JsonValue::Number(id),
    {
        let mut params: Vec<JsonValue> = Vec::new();
        params.push(JsonValue::Number(id));
        (owned("DELETE FROM agent_tool_calls WHERE id = ?"), params)
    }

    /// Setting a call's state. A finished call (completed or failed) also
    /// records its result (JSON text, or null) and its error, and is
    /// completed now; for any other state the state alone is written.
    pub fn update_status_statement(
        call_id: &str,
        status: ToolCallStatus,
        result: Option<String>,
        error_message: Option<String>,
    ) -> (r: (String, Vec<JsonValue>))
        ensures
            if status == ToolCallStatus::Completed || status == ToolCallStatus::Error {
                &&& r.0@ == tool_call_finish_sql()
                &&& r.1@.len() == 4
                &&& text_is(r.1@[0], tool_call_status_name(status))
                &&& r.1@[1] == text_or_null(result)
                &&& r.1@[2] == text_or_null(error_message)
                &&& text_is(r.1@[3], call_id@)
            } else {
                &&& r.0@ == tool_call_set_status_sql()
                &&& r.1@.len() == 2
                &&& text_is(r.1@[0], tool_call_status_name(status))
                &&& text_is(r.1@[1], call_id@)
            },
    {
        let mut params: Vec<JsonValue> = Vec::new();
        params.push(JsonValue::String(owned(status.as_str())));
        match status {
            ToolCallStatus::Completed | ToolCallStatus::Error => {
                params.push(text_value(&result));
                params.push(text_value(&error_message));
                params.push(JsonValue::String(owned(call_id)));
                (
                    owned(
                        "UPDATE agent_tool_calls SET status = ?, result_json = ?, error_message = ?, completed_at = CURRENT_TIMESTAMP WHERE call_id = ?",
                    ),
                    params,
                )
            },
            _ => {
                params.push(JsonValue::String(owned(call_id)));
                (owned("UPDATE agent_tool_calls SET status = ? WHERE call_id = ?"), params)
            },
        }
    }
}

impl AgentExecutionLogRepository {
    /// The query of a task's log, in iteration and time order.
    pub fn find_by_task_id_statement(task_id: &str) -> (r: (String, Vec<JsonValue>))
        ensures
            r.0@ == execution_log_by_task_sql(),
            r.1@.len() == 1,
            text_is(r.1@[0], task_id@),
    {
        let mut params: Vec<JsonValue> = Vec::new();
        params.push(JsonValue::String(owned(task_id)));
        (owned("SELECT * FROM agent_execution_log WHERE task_id = ? ORDER BY iteration ASC, timestamp ASC"), params)
    }

    /// The query of the log of one iteration of a task, in time order.
    pub fn find_by_task_and_iteration_statement(task_id: &str, iteration: u32) -> (r: (String, Vec<JsonValue>))
        ensures
            r.0@ == execution_log_by_iteration_sql(),
            r.1@.len() == 2,
            text_is(r.1@[0], task_id@),
            r.1@[1] == JsonValue::Number(iteration as i64),
    {
        let mut params: Vec<JsonValue> = Vec::new();
        params.push(JsonValue::String(owned(task_id)));
        params.push(JsonValue::Number(iteration as i64));
        (owned("SELECT * FROM agent_execution_log WHERE task_id = ? AND iteration = ? ORDER BY timestamp ASC"), params)
    }

    /// The query of a task's log steps of one kind, in time order.
    pub fn find_by_step_type_statement(task_id: &str, step_type: ExecutionStepType) -> (r: (String, Vec<JsonValue>))
        ensures
            r.0@ == execution_log_by_step_sql(),
            r.1@.len() == 2,
            text_is(r.1@[0], task_id@),
            text_is(r.1@[1], execution_step_type_name(step_type)),
    {
        let mut params: Vec<JsonValue> = Vec::new();
        params.push(JsonValue::String(owned(task_id)));
        params.push(JsonValue::String(owned(step_type.as_str())));
        (owned("SELECT * FROM agent_execution_log WHERE task_id = ? AND step_type = ? ORDER BY timestamp ASC"), params)
    }

    /// The query of a task's latest log step.
    pub fn get_latest_by_task_statement(task_id: &str) -> (r: (String, Vec<JsonValue>))
        ensures
            r.0@ == execution_log_latest_sql(),
            r.1@.len() == 1,
            text_is(r.1@[0], task_id@),
    {
        let mut params: Vec<JsonValue> = Vec::new();
        params.push(JsonValue::String(owned(task_id)));
        (owned("SELECT * FROM agent_execution_log WHERE task_id = ? ORDER BY iteration DESC, timestamp DESC LIMIT 1"), params)
    }

    /// The statement that drops the log steps older than `days` days of tasks finished before then.
    pub fn cleanup_old_logs_statement(days: i32) -> (r: (String, Vec<JsonValue>))
        ensures
            r.0@ == execution_log_cleanup_sql(),
            r.1@.len() == 2,
            text_is(r.1@[0], days_back_text(days as int)),
            text_is(r.1@[1], days_back_text(days as int)),
    {
        let mut params: Vec<JsonValue> = Vec::new();
        params.push(JsonValue::String(days_back(days)));
        params.push(JsonValue::String(days_back(days)));
        (owned("DELETE FROM agent_execution_log WHERE timestamp < datetime('now', ?) AND task_id IN (SELECT task_id FROM agent_tasks WHERE status IN ('completed', 'error', 'cancelled') AND completed_at < datetime('now', ?))"), params)
    }

    /// The query of the log step with row id `id`.
    pub fn find_by_id_statement(id: i64) -> (r: (String, Vec<JsonValue>))
        ensures
            r.0@ == execution_log_by_id_sql(),
            r.1@.len() == 1,
            r.1@[0] == JsonValue::Number(id),
    {
        let mut params: Vec<JsonValue> = Vec::new();
        params.push(JsonValue::Number(id));
        (owned("SELECT * FROM agent_execution_log WHERE id = ?"), params)
    }

    /// The query of the latest thousand log steps.
    pub fn find_all_statement() -> (r: (String, Vec<JsonValue>))
        ensures
            r.0@ == execution_log_all_sql(),
            r.1@.len() == 0,
    {
        (owned("SELECT * FROM agent_execution_log ORDER BY timestamp DESC LIMIT 1000"), Vec::new())
    }

    /// The statement that drops log step `id`.
    pub fn delete_statement(id: i64) -> (r: (String, Vec<JsonValue>))
        ensures
            r.0@ == execution_log_delete_sql(),
            r.1@.len() == 1,
            r.1@[0] == JsonValue::Number(id),
    {
        let mut params: Vec<JsonValue> = Vec::new();
        params.push(JsonValue::Number(id));
        (owned("DELETE FROM agent_execution_log WHERE id = ?"), params)
    }
}

impl AgentContextSnapshotRepository {
    /// The query of a task's snapshots, latest first.
    pub fn find_by_task_id_statement(task_id: &str) -> (r: (String, Vec<JsonValue>))
        ensures
            r.0@ == snapshots_by_task_sql(),
            r.1@.len() == 1,
            text_is(r.1@[0], task_id@),
    {
        let mut params: Vec<JsonValue> = Vec::new();
        params.push(JsonValue::String(owned(task_id)));
        (owned("SELECT * FROM agent_context_snapshots WHERE task_id = ? ORDER BY iteration DESC, created_at DESC"), params)
    }

    /// The query of the latest snapshot of one iteration of a task.
    pub fn find_by_task_and_iteration_statement(task_id: &str, iteration: u32) -> (r: (String, Vec<JsonValue>))
        ensures
            r.0@ == snapshot_by_iteration_sql(),
            r.1@.len() == 2,
            text_is(r.1@[0], task_id@),
            r.1@[1] == JsonValue::Number(iteration as i64),
    {
        let mut params: Vec<JsonValue> = Vec::new();
        params.push(JsonValue::String(owned(task_id)));
        params.push(JsonValue::Number(iteration as i64));
        (owned("SELECT * FROM agent_context_snapshots WHERE task_id = ? AND iteration = ? ORDER BY created_at DESC LIMIT 1"), params)
    }

    /// The query of a task's latest snapshot.
    pub fn get_latest_snapshot_statement(task_id: &str) -> (r: (String, Vec<JsonValue>))
        ensures
            r.0@ == snapshot_latest_sql(),
            r.1@.len() == 1,
            text_is(r.1@[0], task_id@),
    {
        let mut params: Vec<JsonValue> = Vec::new();
        params.push(JsonValue::String(owned(task_id)));
        (owned("SELECT * FROM agent_context_snapshots WHERE task_id = ? ORDER BY iteration DESC, created_at DESC LIMIT 1"), params)
    }

    /// The query of a task's snapshots of one kind, latest first.
    pub fn find_by_context_type_statement(task_id: &str, context_type: ContextType) -> (r: (String, Vec<JsonValue>))
        ensures
            r.0@ == snapshots_by_type_sql(),
            r.1@.len() == 2,
            text_is(r.1@[0], task_id@),
            text_is(r.1@[1], context_type_name(context_type)),
    {
        let mut params: Vec<JsonValue> = Vec::new();
        params.push(JsonValue::String(owned(task_id)));
        params.push(JsonValue::String(owned(context_type.as_str())));
        (owned("SELECT * FROM agent_context_snapshots WHERE task_id = ? AND context_type = ? ORDER BY iteration DESC, created_at DESC"), params)
    }

    /// The query of the latest full snapshot of a task up to an iteration.
    pub fn latest_full_snapshot_statement(task_id: &str, target_iteration: u32) -> (r: (String, Vec<JsonValue>))
        ensures
            r.0@ == latest_full_snapshot_sql(),
            r.1@.len() == 2,
            text_is(r.1@[0], task_id@),
            r.1@[1] == JsonValue::Number(target_iteration as i64),
    {
        let mut params: Vec<JsonValue> = Vec::new();
        params.push(JsonValue::String(owned(task_id)));
        params.push(JsonValue::Number(target_iteration as i64));
        (owned("SELECT * FROM agent_context_snapshots WHERE task_id = ? AND context_type = 'full' AND iteration <= ? ORDER BY iteration DESC LIMIT 1"), params)
    }

    /// The query of a task's incremental snapshots after the base iteration up to the target, in order.
    pub fn increments_after_statement(task_id: &str, base_iteration: i64, target_iteration: u32) -> (r: (String, Vec<JsonValue>))
        ensures
            r.0@ == increments_after_sql(),
            r.1@.len() == 3,
            text_is(r.1@[0], task_id@),
            r.1@[1] == JsonValue::Number(base_iteration),
            r.1@[2] == JsonValue::Number(target_iteration as i64),
    {
        let mut params: Vec<JsonValue> = Vec::new();
        params.push(JsonValue::String(owned(task_id)));
        params.push(JsonValue::Number(base_iteration));
        params.push(JsonValue::Number(target_iteration as i64));
        (owned("SELECT * FROM agent_context_snapshots WHERE task_id = ? AND context_type = 'incremental' AND iteration > ? AND iteration <= ? ORDER BY iteration ASC"), params)
    }

    /// The statement that drops the snapshots of finished tasks beyond the ones kept.
    pub fn cleanup_old_snapshots_statement() -> (r: (String, Vec<JsonValue>))
        ensures
            r.0@ == snapshots_cleanup_sql(),
            r.1@.len() == 0,
    {
        (owned("DELETE FROM agent_context_snapshots WHERE id NOT IN (SELECT id FROM agent_context_snapshots GROUP BY task_id HAVING COUNT(*) <= 5) AND task_id IN (SELECT task_id FROM agent_tasks WHERE status IN ('completed', 'error', 'cancelled'))"), Vec::new())
    }

    /// The statement that drops every snapshot of a task.
    pub fn delete_by_task_id_statement(task_id: &str) -> (r: (String, Vec<JsonValue>))
        ensures
            r.0@ == snapshots_delete_by_task_sql(),
            r.1@.len() == 1,
            text_is(r.1@[0], task_id@),
    {
        let mut params: Vec<JsonValue> = Vec::new();
        params.push(JsonValue::String(owned(task_id)));
        (owned("DELETE FROM agent_context_snapshots WHERE task_id = ?"), params)
    }

    /// The query of the number of a task's snapshots and of its full ones.
    pub fn snapshot_stats_statement(task_id: &str) -> (r: (String, Vec<JsonValue>))
        ensures
            r.0@ == snapshot_stats_sql(),
            r.1@.len() == 1,
            text_is(r.1@[0], task_id@),
    {
        let mut params: Vec<JsonValue> = Vec::new();
        params.push(JsonValue::String(owned(task_id)));
        (owned("SELECT COUNT(*) as total_count, COUNT(CASE WHEN context_type = 'full' THEN 1 END) as full_count FROM agent_context_snapshots WHERE task_id = ?"), params)
    }

    /// The query of the snapshot with row id `id`.
    pub fn find_by_id_statement(id: i64) -> (r: (String, Vec<JsonValue>))
        ensures
            r.0@ == snapshot_by_id_sql(),
            r.1@.len() == 1,
            r.1@[0] == JsonValue::Number(id),
    {
        let mut params: Vec<JsonValue> = Vec::new();
        params.push(JsonValue::Number(id));
        (owned("SELECT * FROM agent_context_snapshots WHERE id = ?"), params)
    }

    /// The query of the latest hundred snapshots.
    pub fn find_all_statement() -> (r: (String, Vec<JsonValue>))
        ensures
            r.0@ == snapshots_all_sql(),
            r.1@.len() == 0,
    {
        (owned("SELECT * FROM agent_context_snapshots ORDER BY created_at DESC LIMIT 100"), Vec::new())
    }

    /// The statement that drops snapshot `id`.
    pub fn delete_statement(id: i64) -> (r: (String, Vec<JsonValue>))
        ensures
            r.0@ == snapshot_delete_sql(),
            r.1@.len() == 1,
            r.1@[0] == JsonValue::Number(id),
    {
        let mut params: Vec<JsonValue> = Vec::new();
        params.push(JsonValue::Number(id));
        (owned("DELETE FROM agent_context_snapshots WHERE id = ?"), params)
    }
}

} // verus!
