//! Tasks of the UI and of the Eko agent runtime, and the rebuilding of an
//! agent's context from its recorded events.
use vstd::prelude::*;
use crate::storage::repositories::invalid_value;
use crate::json::{get_member, get_text_member, json_get, json_text, JsonValue};
use crate::storage::query::join_seq;
use crate::text::{chars_eq, chars_of, int_text, owned, push_int, str_eq, string_of, trim, trim_chars};
use crate::clock::utc_now_rfc3339;
use crate::storage::query::{select_where_eq, select_where_sql, simple_select, simple_select_params, simple_select_sql, QueryOrder};
use crate::storage::query::{column, distinct_names, field_names, insert_row, insert_sql, int_or_null, int_value, lemma_distinct_names, text_is, text_or_null, text_value, differs_from_all};

verus! {

/// The state of a UI task.
#[derive(Debug, Clone, Copy, PartialEq, Eq, Structural)]
pub enum TaskStatus {
    Init,
    Active,
    Paused,
    Completed,
    Error,
}

/// The name under which each value is stored.
pub open spec fn task_status_name(v: TaskStatus) -> Seq<char> {
    match v {
        TaskStatus::Init => "init"@,
        TaskStatus::Active => "active"@,
        TaskStatus::Paused => "paused"@,
        TaskStatus::Completed => "completed"@,
        TaskStatus::Error => "error"@,
    }
}

/// The value a stored name stands for, if any.
pub open spec fn parse_task_status(s: Seq<char>) -> Option<TaskStatus> {
    if s == "init"@ {
        Some(TaskStatus::Init)
    } else if s == "active"@ {
        Some(TaskStatus::Active)
    } else if s == "paused"@ {
        Some(TaskStatus::Paused)
    } else if s == "completed"@ {
        Some(TaskStatus::Completed)
    } else if s == "error"@ {
        Some(TaskStatus::Error)
    } else {
        None
    }
}

impl TaskStatus {
    /// The name stored in the database.
    pub fn as_str(&self) -> (r: &'static str)
        ensures
            r@ == task_status_name(*self),
    {
        match self {
            TaskStatus::Init => "init",
            TaskStatus::Active => "active",
            TaskStatus::Paused => "paused",
            TaskStatus::Completed => "completed",
            TaskStatus::Error => "error",
        }
    }

    /// Reads a stored name; any other text is an error.
    pub fn from_str(s: &str) -> (r: Result<Self, anyhow::Error>)
        ensures
            match r {
                Ok(v) => parse_task_status(s@) == Some(v),
                Err(_) => parse_task_status(s@) is None,
            },
    {
        let c = chars_of(s);
        if str_eq("init", &c) {
            Ok(TaskStatus::Init)
        } else if str_eq("active", &c) {
            Ok(TaskStatus::Active)
        } else if str_eq("paused", &c) {
            Ok(TaskStatus::Paused)
        } else if str_eq("completed", &c) {
            Ok(TaskStatus::Completed)
        } else if str_eq("error", &c) {
            Ok(TaskStatus::Error)
        } else {
            Err(invalid_value("无效的任务状态: ", s))
        }
    }
}

/// Reading back the stored name of a value gives the value.
pub proof fn law_task_status_roundtrip(v: TaskStatus)
    ensures
        parse_task_status(task_status_name(v)) == Some(v),
{
    reveal_strlit("init");
    reveal_strlit("active");
    reveal_strlit("paused");
    reveal_strlit("completed");
    reveal_strlit("error");
    match v {
        TaskStatus::Init => {
        },
        TaskStatus::Active => {
            assert("active"@.len() != "init"@.len());
        },
        TaskStatus::Paused => {
            assert("paused"@.len() != "init"@.len());
            assert("paused"@[0] != "active"@[0]);
        },
        TaskStatus::Completed => {
            assert("completed"@.len() != "init"@.len());
            assert("completed"@.len() != "active"@.len());
            assert("completed"@.len() != "paused"@.len());
        },
        TaskStatus::Error => {
            assert("error"@.len() != "init"@.len());
            assert("error"@.len() != "active"@.len());
            assert("error"@.len() != "paused"@.len());
            assert("error"@.len() != "completed"@.len());
        },
    }
}
/// The kind of a stored Eko context record.
#[derive(Debug, Clone, Copy, PartialEq, Eq, Structural)]
pub enum EkoContextKind {
    State,
    Event,
    Snapshot,
}

/// The name under which each value is stored.
pub open spec fn eko_context_kind_name(v: EkoContextKind) -> Seq<char> {
    match v {
        EkoContextKind::State => "state"@,
        EkoContextKind::Event => "event"@,
        EkoContextKind::Snapshot => "snapshot"@,
    }
}

/// The value a stored name stands for, if any.
pub open spec fn parse_eko_context_kind(s: Seq<char>) -> Option<EkoContextKind> {
    if s == "state"@ {
        Some(EkoContextKind::State)
    } else if s == "event"@ {
        Some(EkoContextKind::Event)
    } else if s == "snapshot"@ {
        Some(EkoContextKind::Snapshot)
    } else {
        None
    }
}

impl EkoContextKind {
    /// The name stored in the database.
    pub fn as_str(&self) -> (r: &'static str)
        ensures
            r@ == eko_context_kind_name(*self),
    {
        match self {
            EkoContextKind::State => "state",
            EkoContextKind::Event => "event",
            EkoContextKind::Snapshot => "snapshot",
        }
    }

    /// Reads a stored name; any other text is an error.
    pub fn from_str(s: &str) -> (r: Result<Self, anyhow::Error>)
        ensures
            match r {
                Ok(v) => parse_eko_context_kind(s@) == Some(v),
                Err(_) => parse_eko_context_kind(s@) is None,
            },
    {
        let c = chars_of(s);
        if str_eq("state", &c) {
            Ok(EkoContextKind::State)
        } else if str_eq("event", &c) {
            Ok(EkoContextKind::Event)
        } else if str_eq("snapshot", &c) {
            Ok(EkoContextKind::Snapshot)
        } else {
            Err(invalid_value("无效的Eko上下文类型: ", s))
        }
    }
}

/// Reading back the stored name of a value gives the value.
pub proof fn law_eko_context_kind_roundtrip(v: EkoContextKind)
    ensures
        parse_eko_context_kind(eko_context_kind_name(v)) == Some(v),
{
    reveal_strlit("state");
    reveal_strlit("event");
    reveal_strlit("snapshot");
    match v {
        EkoContextKind::State => {
        },
        EkoContextKind::Event => {
            assert("event"@[0] != "state"@[0]);
        },
        EkoContextKind::Snapshot => {
            assert("snapshot"@.len() != "state"@.len());
            assert("snapshot"@.len() != "event"@.len());
        },
    }
}
/// The state of an Eko run.
#[derive(Debug, Clone, Copy, PartialEq, Eq, Structural)]
pub enum EkoStatus {
    Init,
    Running,
    Paused,
    Aborted,
    Done,
    Error,
}

/// The name under which each value is stored.
pub open spec fn eko_status_name(v: EkoStatus) -> Seq<char> {
    match v {
        EkoStatus::Init => "init"@,
        EkoStatus::Running => "running"@,
        EkoStatus::Paused => "paused"@,
        EkoStatus::Aborted => "aborted"@,
        EkoStatus::Done => "done"@,
        EkoStatus::Error => "error"@,
    }
}

/// The value a stored name stands for, if any.
pub open spec fn parse_eko_status(s: Seq<char>) -> Option<EkoStatus> {
    if s == "init"@ {
        Some(EkoStatus::Init)
    } else if s == "running"@ {
        Some(EkoStatus::Running)
    } else if s == "paused"@ {
        Some(EkoStatus::Paused)
    } else if s == "aborted"@ {
        Some(EkoStatus::Aborted)
    } else if s == "done"@ {
        Some(EkoStatus::Done)
    } else if s == "error"@ {
        Some(EkoStatus::Error)
    } else {
        None
    }
}

impl EkoStatus {
    /// The name stored in the database.
    pub fn as_str(&self) -> (r: &'static str)
        ensures
            r@ == eko_status_name(*self),
    {
        match self {
            EkoStatus::Init => "init",
            EkoStatus::Running => "running",
            EkoStatus::Paused => "paused",
            EkoStatus::Aborted => "aborted",
            EkoStatus::Done => "done",
            EkoStatus::Error => "error",
        }
    }

    /// Reads a stored name; any other text is an error.
    pub fn from_str(s: &str) -> (r: Result<Self, anyhow::Error>)
        ensures
            match r {
                Ok(v) => parse_eko_status(s@) == Some(v),
                Err(_) => parse_eko_status(s@) is None,
            },
    {
        let c = chars_of(s);
        if str_eq("init", &c) {
            Ok(EkoStatus::Init)
        } else if str_eq("running", &c) {
            Ok(EkoStatus::Running)
        } else if str_eq("paused", &c) {
            Ok(EkoStatus::Paused)
        } else if str_eq("aborted", &c) {
            Ok(EkoStatus::Aborted)
        } else if str_eq("done", &c) {
            Ok(EkoStatus::Done)
        } else if str_eq("error", &c) {
            Ok(EkoStatus::Error)
        } else {
            Err(invalid_value("无效的Eko状态: ", s))
        }
    }
}

/// Reading back the stored name of a value gives the value.
pub proof fn law_eko_status_roundtrip(v: EkoStatus)
    ensures
        parse_eko_status(eko_status_name(v)) == Some(v),
{
    reveal_strlit("init");
    reveal_strlit("running");
    reveal_strlit("paused");
    reveal_strlit("aborted");
    reveal_strlit("done");
    reveal_strlit("error");
    match v {
        EkoStatus::Init => {
        },
        EkoStatus::Running => {
            assert("running"@.len() != "init"@.len());
        },
        EkoStatus::Paused => {
            assert("paused"@.len() != "init"@.len());
            assert("paused"@.len() != "running"@.len());
        },
        EkoStatus::Aborted => {
            assert("aborted"@.len() != "init"@.len());
            assert("aborted"@[0] != "running"@[0]);
            assert("aborted"@.len() != "paused"@.len());
        },
        EkoStatus::Done => {
            assert("done"@[0] != "init"@[0]);
            assert("done"@.len() != "running"@.len());
            assert("done"@.len() != "paused"@.len());
            assert("done"@.len() != "aborted"@.len());
        },
        EkoStatus::Error => {
            assert("error"@.len() != "init"@.len());
            assert("error"@.len() != "running"@.len());
            assert("error"@.len() != "paused"@.len());
            assert("error"@.len() != "aborted"@.len());
            assert("error"@.len() != "done"@.len());
        },
    }
}
// ---------------------------------------------------------------------------
// Context rebuilt from recorded events
// ---------------------------------------------------------------------------

/// The texts of a list of character vectors.
pub open spec fn views(parts: Seq<Vec<char>>) -> Seq<Seq<char>> {
    parts.map_values(|p: Vec<char>| p@)
}

/// Joins the parts with `sep` between them.
fn join_parts(parts: &Vec<Vec<char>>, sep: &str) -> (r: Vec<char>)
    ensures
        r@ == join_seq(views(parts@), sep@),
{
    let sepc = chars_of(sep);
    let mut out: Vec<char> = Vec::new();
    let mut i: usize = 0;
    while i < parts.len()
        invariant
            i <= parts@.len(),
            sepc@ == sep@,
            out@ == join_seq(views(parts@).take(i as int), sep@),
        decreases parts.len() - i,
    {
        proof {
            let t = views(parts@).take(i + 1);
            assert(t.drop_last() =~= views(parts@).take(i as int));
            assert(t.last() == parts@[i as int]@);
            if i == 0 {
                assert(views(parts@).take(0) =~= Seq::<Seq<char>>::empty());
            }
        }
        if i > 0 {
            let mut j: usize = 0;
            let ghost before = out@;
            while j < sepc.len()
                invariant
                    j <= sepc@.len(),
                    out@ == before + sepc@.take(j as int),
                decreases sepc.len() - j,
            {
                out.push(sepc[j]);
                assert(sepc@.take(j + 1) =~= sepc@.take(j as int).push(sepc@[j as int]));
                j += 1;
            }
            assert(sepc@.take(sepc@.len() as int) =~= sepc@);
        }
        let part = &parts[i];
        let ghost before = out@;
        let mut k: usize = 0;
        while k < part.len()
            invariant
                k <= part@.len(),
                out@ == before + part@.take(k as int),
            decreases part.len() - k,
        {
            out.push(part[k]);
            assert(part@.take(k + 1) =~= part@.take(k as int).push(part@[k as int]));
            k += 1;
        }
        assert(part@.take(part@.len() as int) =~= part@);
        proof {
            let t = views(parts@).take(i + 1);
            if i == 0 {
                assert(t =~= seq![part@]);
            }
            assert(out@ =~= join_seq(t, sep@));
        }
        i += 1;
    }
    assert(views(parts@).take(parts@.len() as int) =~= views(parts@));
    out
}

/// `head` followed by `body`.
fn headed(head: &str, body: &Vec<char>) -> (r: Vec<char>)
    ensures
        r@ == head@ + body@,
{
    let mut out = chars_of(head);
    let ghost start = out@;
    let mut i: usize = 0;
    while i < body.len()
        invariant
            i <= body@.len(),
            out@ == start + body@.take(i as int),
        decreases body.len() - i,
    {
        out.push(body[i]);
        assert(body@.take(i + 1) =~= body@.take(i as int).push(body@[i as int]));
        i += 1;
    }
    assert(body@.take(body@.len() as int) =~= body@);
    out
}

/// The task prompt section, when the prompt is not blank.
pub open spec fn prompt_section(v: JsonValue) -> Seq<Seq<char>> {
    match json_text(json_get(v, "taskPrompt"@)) {
        Some(p) => if trim(p).len() > 0 {
            seq!["## 任务描述\n"@ + p]
        } else {
            Seq::empty()
        },
        None => Seq::empty(),
    }
}

/// The task structure section, when the XML is neither blank nor the
/// empty task.
pub open spec fn xml_section(v: JsonValue) -> Seq<Seq<char>> {
    match json_text(json_get(v, "xml"@)) {
        Some(x) => if x != "<task></task>"@ && trim(x).len() > 0 {
            seq!["## 任务结构\n"@ + x]
        } else {
            Seq::empty()
        },
        None => Seq::empty(),
    }
}

/// The description section, when the description is not blank and says
/// something besides the prompt.
pub open spec fn description_section(v: JsonValue) -> Seq<Seq<char>> {
    let prompt = match json_text(json_get(v, "taskPrompt"@)) {
        Some(p) => p,
        None => Seq::<char>::empty(),
    };
    match json_text(json_get(v, "description"@)) {
        Some(d) => if trim(d).len() > 0 && d != prompt {
            seq!["## 详细说明\n"@ + d]
        } else {
            Seq::empty()
        },
        None => Seq::empty(),
    }
}

/// The sections joined by blank lines, or nothing when there is none.
pub open spec fn joined_sections(parts: Seq<Seq<char>>) -> Option<Seq<char>> {
    if parts.len() == 0 {
        None
    } else {
        Some(join_seq(parts, "\n\n"@))
    }
}

/// The context a task object gives.
pub open spec fn task_context(task: JsonValue) -> Option<Seq<char>> {
    joined_sections(prompt_section(task) + description_section(task) + xml_section(task))
}

/// The step lines of an agent state's nodes: `- ` and the text of each
/// node that has one.
pub open spec fn node_lines(nodes: Seq<JsonValue>) -> Seq<Seq<char>>
    decreases nodes.len(),
{
    if nodes.len() == 0 {
        Seq::empty()
    } else {
        let init = node_lines(nodes.drop_last());
        match json_text(json_get(nodes.last(), "text"@)) {
            Some(t) => init.push("- "@ + t),
            None => init,
        }
    }
}

/// The steps section of an agent state, when some node has a text.
pub open spec fn steps_section(state: JsonValue) -> Seq<Seq<char>> {
    match json_get(state, "nodes"@) {
        Some(JsonValue::Array(nodes)) => if node_lines(nodes@).len() > 0 {
            seq!["## 执行步骤\n"@ + join_seq(node_lines(nodes@), "\n"@)]
        } else {
            Seq::empty()
        },
        _ => Seq::empty(),
    }
}

/// The context an agent state gives.
pub open spec fn agent_state_context(state: JsonValue) -> Option<Seq<char>> {
    joined_sections(prompt_section(state) + xml_section(state) + steps_section(state))
}

/// The context an event gives: its agent state for an `agent_context`
/// event, else its task's, if it has one.
pub open spec fn event_context(event: JsonValue) -> Option<Seq<char>> {
    if json_text(json_get(event, "type"@)) == Some("agent_context"@) {
        agent_state_context(event)
    } else {
        match json_get(event, "task"@) {
            Some(t) => task_context(t),
            None => None,
        }
    }
}

/// Appends the prompt section of `v`, if any.
fn push_prompt_section(parts: &mut Vec<Vec<char>>, v: &JsonValue)
    ensures
        views(final(parts)@) == views(old(parts)@) + prompt_section(*v),
{
    let ghost p0 = views(parts@);
    if let Some(p) = get_text_member(v, "taskPrompt") {
        let pc = chars_of(p.as_str());
        if trim_chars(&pc).len() > 0 {
            parts.push(headed("## 任务描述\n", &pc));
        }
    }
    assert(views(parts@) =~= p0 + prompt_section(*v));
}

/// Appends the structure section of `v`, if any.
fn push_xml_section(parts: &mut Vec<Vec<char>>, v: &JsonValue)
    ensures
        views(final(parts)@) == views(old(parts)@) + xml_section(*v),
{
    let ghost p0 = views(parts@);
    if let Some(x) = get_text_member(v, "xml") {
        let xc = chars_of(x.as_str());
        if !str_eq("<task></task>", &xc) && trim_chars(&xc).len() > 0 {
            parts.push(headed("## 任务结构\n", &xc));
        }
    }
    assert(views(parts@) =~= p0 + xml_section(*v));
}

/// Appends the steps section of `state`, if any.
fn push_steps_section(parts: &mut Vec<Vec<char>>, state: &JsonValue)
    ensures
        views(final(parts)@) == views(old(parts)@) + steps_section(*state),
{
    let ghost p2 = views(parts@);
    if let Some(JsonValue::Array(nodes)) = get_member(state, "nodes") {
        let mut lines: Vec<Vec<char>> = Vec::new();
        let mut i: usize = 0;
        while i < nodes.len()
            invariant
                i <= nodes@.len(),
                views(lines@) == node_lines(nodes@.take(i as int)),
            decreases nodes.len() - i,
        {
            proof {
                let t = nodes@.take(i + 1);
                assert(t.drop_last() =~= nodes@.take(i as int));
                assert(t.last() == nodes@[i as int]);
            }
            if let Some(t) = get_text_member(&nodes[i], "text") {
                lines.push(headed("- ", &chars_of(t.as_str())));
            }
            assert(views(lines@) =~= node_lines(nodes@.take(i + 1)));
            i += 1;
        }
        assert(nodes@.take(nodes@.len() as int) =~= nodes@);
        if lines.len() > 0 {
            let body = join_parts(&lines, "\n");
            parts.push(headed("## 执行步骤\n", &body));
        }
    }
    assert(views(parts@) =~= p2 + steps_section(*state));
}

/// The context of a task object: its prompt, its description (when it is
/// not the prompt again) and its structure, as sections joined by blank
/// lines; nothing when none is there.
pub fn build_context_from_task(task: &JsonValue) -> (r: Option<String>)
    ensures
        match r {
            Some(t) => task_context(*task) == Some(t@),
            None => task_context(*task) is None,
        },
{
    let mut parts: Vec<Vec<char>> = Vec::new();
    assert(views(parts@) =~= Seq::<Seq<char>>::empty());
    push_prompt_section(&mut parts, task);
    let ghost p1 = views(parts@);
    let prompt: Vec<char> = match get_text_member(task, "taskPrompt") {
        Some(p) => chars_of(p.as_str()),
        None => Vec::new(),
    };
    if let Some(d) = get_text_member(task, "description") {
        let dc = chars_of(d.as_str());
        if trim_chars(&dc).len() > 0 && !chars_eq(&dc, &prompt) {
            parts.push(headed("## 详细说明\n", &dc));
        }
    }
    assert(views(parts@) =~= p1 + description_section(*task));
    push_xml_section(&mut parts, task);
    assert(views(parts@) =~= prompt_section(*task) + description_section(*task) + xml_section(*task));
    if parts.len() == 0 {
        None
    } else {
        Some(string_of(&join_parts(&parts, "\n\n")))
    }
}

/// The context of an agent state: its prompt, its structure, and the
/// texts of its nodes as steps.
pub fn build_context_from_agent_state(state: &JsonValue) -> (r: Option<String>)
    ensures
        match r {
            Some(t) => agent_state_context(*state) == Some(t@),
            None => agent_state_context(*state) is None,
        },
{
    let mut parts: Vec<Vec<char>> = Vec::new();
    assert(views(parts@) =~= Seq::<Seq<char>>::empty());
    push_prompt_section(&mut parts, state);
    push_xml_section(&mut parts, state);
    push_steps_section(&mut parts, state);
    if parts.len() == 0 {
        None
    } else {
        Some(string_of(&join_parts(&parts, "\n\n")))
    }
}

/// The context an event gives (see `event_context`).
pub fn extract_context_from_event(event: &JsonValue) -> (r: Option<String>)
    ensures
        match r {
            Some(t) => event_context(*event) == Some(t@),
            None => event_context(*event) is None,
        },
{
    let ty: Option<Vec<char>> = match get_text_member(event, "type") {
        Some(t) => Some(chars_of(t.as_str())),
        None => None,
    };
    if let Some(t) = &ty {
        if str_eq("agent_context", t) {
            return build_context_from_agent_state(event);
        }
        if str_eq("agent_start", t) {
            if let Some(task) = get_member(event, "task") {
                return build_context_from_task(task);
            }
        }
    }
    match get_member(event, "task") {
        Some(task) => build_context_from_task(task),
        None => None,
    }
}

/// What has been gathered from the events so far: the other contexts
/// (each once), the conversation lines, the task's context and the system
/// prompt.
pub struct HistoryState {
    pub contexts: Seq<Seq<char>>,
    pub conversation: Seq<Seq<char>>,
    pub task_info: Option<Seq<char>>,
    pub system_prompt: Option<Seq<char>>,
}

/// The state after one more event (an event whose payload did not parse
/// changes nothing).
pub open spec fn history_step(st: HistoryState, ev: Option<JsonValue>) -> HistoryState {
    match ev {
        None => st,
        Some(e) => {
            let ty = match json_text(json_get(e, "type"@)) {
                Some(t) => t,
                None => Seq::<char>::empty(),
            };
            if ty == "agent_start"@ {
                HistoryState {
                    task_info: match json_get(e, "task"@) {
                        Some(t) => task_context(t),
                        None => st.task_info,
                    },
                    system_prompt: match json_text(json_get(e, "systemPrompt"@)) {
                        Some(p) => Some(p),
                        None => st.system_prompt,
                    },
                    ..st
                }
            } else if ty == "user_message"@ || ty == "assistant_message"@ || ty == "thinking"@ {
                let (member, head) = if ty == "user_message"@ {
                    ("content"@, "用户: "@)
                } else if ty == "assistant_message"@ {
                    ("content"@, "助手: "@)
                } else {
                    ("text"@, "思考: "@)
                };
                match json_text(json_get(e, member)) {
                    Some(c) => HistoryState { conversation: st.conversation.push(head + c), ..st },
                    None => st,
                }
            } else {
                match event_context(e) {
                    Some(info) => if st.contexts.contains(info) {
                        st
                    } else {
                        HistoryState { contexts: st.contexts.push(info), ..st }
                    },
                    None => st,
                }
            }
        },
    }
}

/// The state after all the events, in order.
pub open spec fn history_state(events: Seq<Option<JsonValue>>) -> HistoryState
    decreases events.len(),
{
    if events.len() == 0 {
        HistoryState {
            contexts: Seq::empty(),
            conversation: Seq::empty(),
            task_info: None,
            system_prompt: None,
        }
    } else {
        history_step(history_state(events.drop_last()), events.last())
    }
}

/// The rebuilt context: the system prompt, the task, the conversation
/// under its heading, then the other contexts, joined by blank lines.
pub open spec fn rebuilt_context(events: Seq<Option<JsonValue>>) -> Seq<char> {
    let st = history_state(events);
    let a = match st.system_prompt {
        Some(p) => seq![p],
        None => Seq::empty(),
    };
    let b = match st.task_info {
        Some(t) => seq![t],
        None => Seq::empty(),
    };
    let c = if st.conversation.len() > 0 {
        seq!["## 对话历史\n"@ + join_seq(st.conversation, "\n"@)]
    } else {
        Seq::empty()
    };
    join_seq(a + b + c + st.contexts, "\n\n"@)
}

/// Rebuilds an agent's context from its recorded events, in order (`None`
/// for an event whose payload did not parse as JSON).
pub fn rebuild_history_from_events(events: &Vec<Option<JsonValue>>) -> (r: String)
    ensures
        r@ == rebuilt_context(events@),
{
    let mut contexts: Vec<Vec<char>> = Vec::new();
    let mut conversation: Vec<Vec<char>> = Vec::new();
    let mut task_info: Option<Vec<char>> = None;
    let mut system_prompt: Option<Vec<char>> = None;
    let mut i: usize = 0;
    proof {
        assert(views(contexts@) =~= Seq::<Seq<char>>::empty());
        assert(views(conversation@) =~= Seq::<Seq<char>>::empty());
        assert(events@.take(0) =~= Seq::<Option<JsonValue>>::empty());
    }
    while i < events.len()
        invariant
            i <= events@.len(),
            ({
                let st = history_state(events@.take(i as int));
                &&& views(contexts@) == st.contexts
                &&& views(conversation@) == st.conversation
                &&& match task_info {
                    Some(t) => st.task_info == Some(t@),
                    None => st.task_info is None,
                }
                &&& match system_prompt {
                    Some(p) => st.system_prompt == Some(p@),
                    None => st.system_prompt is None,
                }
            }),
        decreases events.len() - i,
    {
        proof {
            let t = events@.take(i + 1);
            assert(t.drop_last() =~= events@.take(i as int));
            assert(t.last() == events@[i as int]);
            reveal_strlit("agent_start");
            reveal_strlit("user_message");
            reveal_strlit("assistant_message");
            reveal_strlit("thinking");
        }
        if let Some(e) = &events[i] {
            let ty: Vec<char> = match get_text_member(e, "type") {
                Some(t) => chars_of(t.as_str()),
                None => Vec::new(),
            };
            if str_eq("agent_start", &ty) {
                if let Some(task) = get_member(e, "task") {
                    task_info = match build_context_from_task(task) {
                        Some(t) => Some(chars_of(t.as_str())),
                        None => None,
                    };
                }
                if let Some(p) = get_text_member(e, "systemPrompt") {
                    system_prompt = Some(chars_of(p.as_str()));
                }
            } else if str_eq("user_message", &ty) {
                if let Some(c) = get_text_member(e, "content") {
                    conversation.push(headed("用户: ", &chars_of(c.as_str())));
                }
            } else if str_eq("assistant_message", &ty) {
                if let Some(c) = get_text_member(e, "content") {
                    conversation.push(headed("助手: ", &chars_of(c.as_str())));
                }
            } else if str_eq("thinking", &ty) {
                if let Some(c) = get_text_member(e, "text") {
                    conversation.push(headed("思考: ", &chars_of(c.as_str())));
                }
            } else {
                if let Some(info) = extract_context_from_event(e) {
                    let ic = chars_of(info.as_str());
                    let mut seen = false;
                    let mut k: usize = 0;
                    while k < contexts.len()
                        invariant
                            k <= contexts@.len(),
                            seen <==> exists|j: int| 0 <= j < k && contexts@[j]@ == ic@,
                        decreases contexts.len() - k,
                    {
                        if chars_eq(&contexts[k], &ic) {
                            seen = true;
                        }
                        k += 1;
                    }
                    proof {
                        let vs = views(contexts@);
                        if seen {
                            let j = choose|j: int| 0 <= j < contexts@.len() && contexts@[j]@ == ic@;
                            assert(vs[j] == ic@);
                            assert(vs.contains(ic@));
                        } else {
                            assert forall|j: int| 0 <= j < vs.len() implies vs[j] != ic@ by {
                                assert(vs[j] == contexts@[j]@);
                            }
                            assert(!vs.contains(ic@));
                        }
                    }
                    if !seen {
                        contexts.push(ic);
                    }
                }
            }
        }
        proof {
            let st = history_state(events@.take(i + 1));
            assert(views(contexts@) =~= st.contexts);
            assert(views(conversation@) =~= st.conversation);
        }
        i += 1;
    }
    assert(events@.take(events@.len() as int) =~= events@);
    let mut parts: Vec<Vec<char>> = Vec::new();
    if let Some(p) = system_prompt {
        parts.push(p);
    }
    if let Some(t) = task_info {
        parts.push(t);
    }
    let ghost pa = views(parts@);
    if conversation.len() > 0 {
        let body = join_parts(&conversation, "\n");
        parts.push(headed("## 对话历史\n", &body));
    }
    let ghost pb = views(parts@);
    let mut k: usize = 0;
    while k < contexts.len()
        invariant
            k <= contexts@.len(),
            views(parts@) == pb + views(contexts@).take(k as int),
        decreases contexts.len() - k,
    {
        let c = slice_all(&contexts[k]);
        let ghost before = parts@;
        parts.push(c);
        assert(views(contexts@).take(k + 1) =~= views(contexts@).take(k as int).push(contexts@[k as int]@));
        assert(views(parts@) =~= views(before).push(contexts@[k as int]@));
        k += 1;
    }
    proof {
        assert(views(contexts@).take(contexts@.len() as int) =~= views(contexts@));
        let st = history_state(events@);
        let a = match st.system_prompt {
            Some(p) => seq![p],
            None => Seq::<Seq<char>>::empty(),
        };
        let b = match st.task_info {
            Some(t) => seq![t],
            None => Seq::<Seq<char>>::empty(),
        };
        assert(pa =~= a + b);
        assert(views(parts@) =~= a + b + (if st.conversation.len() > 0 {
            seq!["## 对话历史\n"@ + join_seq(st.conversation, "\n"@)]
        } else {
            Seq::<Seq<char>>::empty()
        }) + st.contexts);
    }
    string_of(&join_parts(&parts, "\n\n"))
}

/// A copy of a character vector.
fn slice_all(v: &Vec<char>) -> (r: Vec<char>)
    ensures
        r@ == v@,
{
    let r = crate::text::slice_chars(v, 0, v.len());
    assert(v@.subrange(0, v@.len() as int) =~= v@);
    r
}

// ---------------------------------------------------------------------------
// Context kept in a saved agent state
// ---------------------------------------------------------------------------

/// The system prompt of a state, when it is not blank.
pub open spec fn system_section(state: JsonValue) -> Seq<Seq<char>> {
    match json_text(json_get(state, "systemPrompt"@)) {
        Some(p) => if trim(p).len() > 0 {
            seq![p]
        } else {
            Seq::empty()
        },
        None => Seq::empty(),
    }
}

/// The lines `role: content` of the messages that have both as text.
pub open spec fn message_lines(msgs: Seq<JsonValue>) -> Seq<Seq<char>>
    decreases msgs.len(),
{
    if msgs.len() == 0 {
        Seq::empty()
    } else {
        let init = message_lines(msgs.drop_last());
        match (
            json_text(json_get(msgs.last(), "role"@)),
            json_text(json_get(msgs.last(), "content"@)),
        ) {
            (Some(role), Some(content)) => init.push(role + ": "@ + content),
            _ => init,
        }
    }
}

/// The conversation section of a state, when some message has a role and
/// a content.
pub open spec fn conversation_section(state: JsonValue) -> Seq<Seq<char>> {
    match json_get(state, "conversationHistory"@) {
        Some(JsonValue::Array(msgs)) => if message_lines(msgs@).len() > 0 {
            seq!["## 对话历史\n"@ + join_seq(message_lines(msgs@), "\n"@)]
        } else {
            Seq::empty()
        },
        _ => Seq::empty(),
    }
}

/// The whole context of a saved state: system prompt, task, conversation,
/// structure and steps, joined by blank lines.
pub open spec fn full_state_context(state: JsonValue) -> Seq<char> {
    join_seq(
        system_section(state) + prompt_section(state) + conversation_section(state) + xml_section(
            state,
        ) + steps_section(state),
        "\n\n"@,
    )
}

/// `a`, then `sep`, then `b`.
fn joined3(a: &Vec<char>, sep: &str, b: &Vec<char>) -> (r: Vec<char>)
    ensures
        r@ == a@ + sep@ + b@,
{
    let mut out = slice_all(a);
    let sc = chars_of(sep);
    crate::text::extend_chars(&mut out, &sc);
    crate::text::extend_chars(&mut out, b);
    out
}

/// The whole context kept in a saved agent state (see
/// `full_state_context`); empty when the state holds none of it.
fn full_context_text(state: &JsonValue) -> (r: String)
    ensures
        r@ == full_state_context(*state),
{
    let mut parts: Vec<Vec<char>> = Vec::new();
    assert(views(parts@) =~= Seq::<Seq<char>>::empty());
    if let Some(p) = get_text_member(state, "systemPrompt") {
        let pc = chars_of(p.as_str());
        if trim_chars(&pc).len() > 0 {
            parts.push(pc);
        }
    }
    assert(views(parts@) =~= system_section(*state));
    push_prompt_section(&mut parts, state);
    let ghost p2 = views(parts@);
    if let Some(JsonValue::Array(msgs)) = get_member(state, "conversationHistory") {
        let mut lines: Vec<Vec<char>> = Vec::new();
        let mut i: usize = 0;
        while i < msgs.len()
            invariant
                i <= msgs@.len(),
                views(lines@) == message_lines(msgs@.take(i as int)),
            decreases msgs.len() - i,
        {
            proof {
                let t = msgs@.take(i + 1);
                assert(t.drop_last() =~= msgs@.take(i as int));
                assert(t.last() == msgs@[i as int]);
            }
            let role = get_text_member(&msgs[i], "role");
            let content = get_text_member(&msgs[i], "content");
            match (role, content) {
                (Some(r), Some(c)) => {
                    lines.push(joined3(&chars_of(r.as_str()), ": ", &chars_of(c.as_str())));
                },
                _ => {},
            }
            assert(views(lines@) =~= message_lines(msgs@.take(i + 1)));
            i += 1;
        }
        assert(msgs@.take(msgs@.len() as int) =~= msgs@);
        if lines.len() > 0 {
            let body = join_parts(&lines, "\n");
            parts.push(headed("## 对话历史\n", &body));
        }
    }
    assert(views(parts@) =~= p2 + conversation_section(*state));
    push_xml_section(&mut parts, state);
    push_steps_section(&mut parts, state);
    assert(views(parts@) =~= system_section(*state) + prompt_section(*state)
        + conversation_section(*state) + xml_section(*state) + steps_section(*state));
    string_of(&join_parts(&parts, "\n\n"))
}

/// What is known of a task's saved agent state: its payload text and that
/// payload read as JSON (`None` when it is not JSON).
pub struct SavedState {
    pub payload_json: String,
    pub parsed: Option<JsonValue>,
}

// ---------------------------------------------------------------------------
// Records of the UI and of the agent runtime
// ---------------------------------------------------------------------------

/// A task as the UI renders it.
#[derive(Debug, Clone)]
pub struct UITask {
    pub ui_id: Option<i64>,
    pub conversation_id: i64,
    pub task_id: String,
    pub name: String,
    pub status: TaskStatus,
    pub parent_ui_id: Option<i64>,
    pub render_json: Option<String>,
    /// RFC 3339, UTC
    pub created_at: String,
    /// RFC 3339, UTC
    pub updated_at: String,
}

impl UITask {
    /// A new task of a conversation, without parent or render data,
    /// created and updated now.
    pub fn new(conversation_id: i64, task_id: String, name: String, status: TaskStatus) -> (r: Self)
        ensures
            r.ui_id is None,
            r.conversation_id == conversation_id,
            r.task_id == task_id,
            r.name == name,
            r.status == status,
            r.parent_ui_id is None,
            r.render_json is None,
            r.created_at == r.updated_at,
    {
        let now = utc_now_rfc3339();
        UITask {
            ui_id: None,
            conversation_id,
            task_id,
            name,
            status,
            parent_ui_id: None,
            render_json: None,
            created_at: now.clone(),
            updated_at: now,
        }
    }

    pub fn with_parent(self, parent_ui_id: i64) -> (r: Self)
        ensures
            r == (UITask { parent_ui_id: Some(parent_ui_id), ..self }),
    {
        UITask { parent_ui_id: Some(parent_ui_id), ..self }
    }

    pub fn with_render_data(self, render_json: String) -> (r: Self)
        ensures
            r == (UITask { render_json: Some(render_json), ..self }),
    {
        UITask { render_json: Some(render_json), ..self }
    }
}

/// A raw record of the agent runtime: a state, an event or a snapshot.
#[derive(Debug, Clone)]
pub struct EkoContext {
    pub id: Option<i64>,
    pub task_id: String,
    pub conversation_id: i64,
    pub kind: EkoContextKind,
    pub name: Option<String>,
    pub node_id: Option<String>,
    pub status: Option<EkoStatus>,
    pub payload_json: String,
    /// RFC 3339, UTC
    pub created_at: String,
}

impl EkoContext {
    /// A new record, without name, node or status, created now.
    pub fn new(task_id: String, conversation_id: i64, kind: EkoContextKind, payload_json: String) -> (r: Self)
        ensures
            r.id is None,
            r.task_id == task_id,
            r.conversation_id == conversation_id,
            r.kind == kind,
            r.name is None,
            r.node_id is None,
            r.status is None,
            r.payload_json == payload_json,
    {
        EkoContext {
            id: None,
            task_id,
            conversation_id,
            kind,
            name: None,
            node_id: None,
            status: None,
            payload_json,
            created_at: utc_now_rfc3339(),
        }
    }

    pub fn with_name(self, name: String) -> (r: Self)
        ensures
            r == (EkoContext { name: Some(name), ..self }),
    {
        EkoContext { name: Some(name), ..self }
    }

    pub fn with_node_id(self, node_id: String) -> (r: Self)
        ensures
            r == (EkoContext { node_id: Some(node_id), ..self }),
    {
        EkoContext { node_id: Some(node_id), ..self }
    }

    pub fn with_status(self, status: EkoStatus) -> (r: Self)
        ensures
            r == (EkoContext { status: Some(status), ..self }),
    {
        EkoContext { status: Some(status), ..self }
    }
}

/// The columns of a UI task's row.
pub open spec fn ui_task_columns() -> Seq<Seq<char>> {
    seq![
        "conversation_id"@,
        "task_id"@,
        "name"@,
        "status"@,
        "parent_ui_id"@,
        "render_json"@,
        "created_at"@,
        "updated_at"@,
    ]
}

/// The columns of an agent runtime record's row.
pub open spec fn eko_context_columns() -> Seq<Seq<char>> {
    seq![
        "task_id"@,
        "conversation_id"@,
        "kind"@,
        "name"@,
        "node_id"@,
        "status"@,
        "payload_json"@,
        "created_at"@,
    ]
}

/// The columns of a UI task's row are named once each.
proof fn lemma_ui_task_columns_distinct()
    ensures
        distinct_names(ui_task_columns()),
{
    reveal_strlit("conversation_id");
    reveal_strlit("created_at");
    reveal_strlit("name");
    reveal_strlit("parent_ui_id");
    reveal_strlit("render_json");
    reveal_strlit("status");
    reveal_strlit("task_id");
    reveal_strlit("updated_at");
    assert("conversation_id"@.len() == 15);
    assert("created_at"@.len() == 10);
    assert("name"@.len() == 4);
    assert("parent_ui_id"@.len() == 12);
    assert("render_json"@.len() == 11);
    assert("status"@.len() == 6);
    assert("task_id"@.len() == 7);
    assert("updated_at"@.len() == 10);
    assert("created_at"@[0] != "updated_at"@[0]);
    let n = ui_task_columns();
    assert(n[0] == "conversation_id"@);
    assert(n[1] == "task_id"@);
    assert(n[2] == "name"@);
    assert(n[3] == "status"@);
    assert(n[4] == "parent_ui_id"@);
    assert(n[5] == "render_json"@);
    assert(n[6] == "created_at"@);
    assert(n[7] == "updated_at"@);
    reveal_with_fuel(distinct_names, 9);
    reveal_with_fuel(differs_from_all, 8);
}

/// The columns of a runtime record's row are named once each.
proof fn lemma_eko_context_columns_distinct()
    ensures
        distinct_names(eko_context_columns()),
{
    reveal_strlit("conversation_id");
    reveal_strlit("created_at");
    reveal_strlit("kind");
    reveal_strlit("name");
    reveal_strlit("node_id");
    reveal_strlit("payload_json");
    reveal_strlit("status");
    reveal_strlit("task_id");
    assert("conversation_id"@.len() == 15);
    assert("created_at"@.len() == 10);
    assert("kind"@.len() == 4);
    assert("name"@.len() == 4);
    assert("node_id"@.len() == 7);
    assert("payload_json"@.len() == 12);
    assert("status"@.len() == 6);
    assert("task_id"@.len() == 7);
    assert("task_id"@[0] != "node_id"@[0]);
    assert("kind"@[0] != "name"@[0]);
    let n = eko_context_columns();
    assert(n[0] == "task_id"@);
    assert(n[1] == "conversation_id"@);
    assert(n[2] == "kind"@);
    assert(n[3] == "name"@);
    assert(n[4] == "node_id"@);
    assert(n[5] == "status"@);
    assert(n[6] == "payload_json"@);
    assert(n[7] == "created_at"@);
    reveal_with_fuel(distinct_names, 9);
    reveal_with_fuel(differs_from_all, 8);
}

/// The heading of the question in a prompt.
pub open spec fn question_heading() -> Seq<char> {
    "\n\n## 当前问题\n"@
}

/// The statements of the task store; running them is the caller's part.
pub struct TaskRepository;

impl TaskRepository {
    /// The INSERT of a UI task's row into `ui_tasks`, with its values in
    /// column order (see `ui_task_columns`).
    pub fn ui_task_insert(task: &UITask) -> (r: (String, Vec<JsonValue>))
        ensures
            r.0@ == insert_sql("ui_tasks"@, ui_task_columns()),
            r.1@.len() == 8,
            r.1@[0] == JsonValue::Number(task.conversation_id),
            r.1@[1] == JsonValue::String(task.task_id),
            r.1@[2] == JsonValue::String(task.name),
            text_is(r.1@[3], task_status_name(task.status)),
            r.1@[4] == int_or_null(task.parent_ui_id),
            r.1@[5] == text_or_null(task.render_json),
            r.1@[6] == JsonValue::String(task.created_at),
            r.1@[7] == JsonValue::String(task.updated_at),
    {
        let mut cols: Vec<(String, JsonValue)> = Vec::new();
        cols.push(column("conversation_id", JsonValue::Number(task.conversation_id)));
        cols.push(column("task_id", JsonValue::String(task.task_id.clone())));
        cols.push(column("name", JsonValue::String(task.name.clone())));
        cols.push(column("status", JsonValue::String(owned(task.status.as_str()))));
        cols.push(column("parent_ui_id", int_value(task.parent_ui_id)));
        cols.push(column("render_json", text_value(&task.render_json)));
        cols.push(column("created_at", JsonValue::String(task.created_at.clone())));
        cols.push(column("updated_at", JsonValue::String(task.updated_at.clone())));
        proof {
            assert(field_names(cols@) =~= ui_task_columns());
            lemma_ui_task_columns_distinct();
            lemma_distinct_names(cols@);
        }
        insert_row("ui_tasks", cols)
    }

    /// The INSERT of an agent runtime record into `eko_context`, with its
    /// values in column order (see `eko_context_columns`).
    pub fn eko_context_insert(context: &EkoContext) -> (r: (String, Vec<JsonValue>))
        ensures
            r.0@ == insert_sql("eko_context"@, eko_context_columns()),
            r.1@.len() == 8,
            r.1@[0] == JsonValue::String(context.task_id),
            r.1@[1] == JsonValue::Number(context.conversation_id),
            text_is(r.1@[2], eko_context_kind_name(context.kind)),
            r.1@[3] == text_or_null(context.name),
            r.1@[4] == text_or_null(context.node_id),
            match context.status {
                Some(st) => text_is(r.1@[5], eko_status_name(st)),
                None => r.1@[5] == JsonValue::Null,
            },
            r.1@[6] == JsonValue::String(context.payload_json),
            r.1@[7] == JsonValue::String(context.created_at),
    {
        let status = match context.status {
            Some(st) => JsonValue::String(owned(st.as_str())),
            None => JsonValue::Null,
        };
        let mut cols: Vec<(String, JsonValue)> = Vec::new();
        cols.push(column("task_id", JsonValue::String(context.task_id.clone())));
        cols.push(column("conversation_id", JsonValue::Number(context.conversation_id)));
        cols.push(column("kind", JsonValue::String(owned(context.kind.as_str()))));
        cols.push(column("name", text_value(&context.name)));
        cols.push(column("node_id", text_value(&context.node_id)));
        cols.push(column("status", status));
        cols.push(column("payload_json", JsonValue::String(context.payload_json.clone())));
        cols.push(column("created_at", JsonValue::String(context.created_at.clone())));
        proof {
            assert(field_names(cols@) =~= eko_context_columns());
            lemma_eko_context_columns_distinct();
            lemma_distinct_names(cols@);
        }
        insert_row("eko_context", cols)
    }

    /// The whole context kept in a saved agent state.
    pub fn extract_full_context_from_state(state: &JsonValue) -> (r: String)
        ensures
            r@ == full_state_context(*state),
    {
        full_context_text(state)
    }

    /// The full history of a task: the context of its latest saved state (the
    /// raw payload when that is not JSON); without a state, the context rebuilt
    /// from its recorded events; empty when there are neither.
    pub fn get_eko_full_history(latest_state: Option<SavedState>, events: &Vec<Option<JsonValue>>) -> (r: String)
        ensures
            match latest_state {
                Some(st) => match st.parsed {
                    Some(v) => r@ == full_state_context(v),
                    None => r == st.payload_json,
                },
                None => if events@.len() > 0 {
                    r@ == rebuilt_context(events@)
                } else {
                    r@ == Seq::<char>::empty()
                },
            },
    {
        match latest_state {
            Some(st) => match &st.parsed {
                Some(v) => full_context_text(v),
                None => st.payload_json,
            },
            None => if events.len() > 0 {
                rebuild_history_from_events(events)
            } else {
                String::new()
            },
        }
    }

    /// The prompt for the agent: the task's history, or the workspace context
    /// when there is no history yet, then the user's question under its
    /// heading.
    pub fn build_prompt(eko_history: &str, workspace_context: &str, user_input: &str) -> (r: String)
        ensures
            eko_history@.len() > 0 ==> r@ == eko_history@ + question_heading() + user_input@,
            eko_history@.len() == 0 ==> r@ == workspace_context@ + question_heading() + user_input@,
    {
        let lead = if eko_history.unicode_len() > 0 {
            chars_of(eko_history)
        } else {
            chars_of(workspace_context)
        };
        let out = joined3(&lead, "\n\n## 当前问题\n", &chars_of(user_input));
        string_of(&out)
    }
}


// The remaining statements and decisions of the task store.

/// The SQL of `update_ui_task_statement`.
pub open spec fn ui_task_update_sql() -> Seq<char> {
    "UPDATE ui_tasks SET name = ?, status = ?, render_json = ?, updated_at = ? WHERE ui_id = ?"@
}

/// The SQL of `delete_ui_task_statement`.
pub open spec fn ui_task_delete_sql() -> Seq<char> {
    "DELETE FROM ui_tasks WHERE ui_id = ?"@
}

/// The SQL of `latest_eko_state_statement`.
pub open spec fn latest_eko_state_sql() -> Seq<char> {
    r#"SELECT id, task_id, conversation_id, kind, name, node_id, status, payload_json, created_at 
             FROM eko_context 
             WHERE task_id = ? AND kind = 'state' 
             ORDER BY created_at DESC 
             LIMIT 1"#@
}

/// The SQL of `snapshot_payload_statement`.
pub open spec fn snapshot_payload_sql() -> Seq<char> {
    r#"SELECT payload_json FROM eko_context 
                 WHERE task_id = ? AND kind = 'snapshot' AND name = ? 
                 ORDER BY created_at DESC LIMIT 1"#@
}

/// The SQL of `event_payloads_statement`.
pub open spec fn event_payloads_sql() -> Seq<char> {
    r#"SELECT payload_json FROM eko_context 
             WHERE task_id = ? AND kind = 'event' 
             ORDER BY created_at ASC"#@
}

/// The SQL of `event_history_statement`.
pub open spec fn event_history_sql() -> Seq<char> {
    r#"SELECT payload_json, created_at FROM eko_context 
             WHERE task_id = ? AND kind = 'event' 
             ORDER BY created_at ASC"#@
}

/// The SQL of `get_snapshots_statement`.
pub open spec fn eko_snapshots_sql() -> Seq<char> {
    r#"SELECT id, task_id, conversation_id, kind, name, node_id, status, payload_json, created_at 
             FROM eko_context 
             WHERE task_id = ? AND kind = 'snapshot' 
             ORDER BY created_at DESC"#@
}

/// The SQL of `upsert_ui_task_statement`.
pub open spec fn ui_task_upsert_sql() -> Seq<char> {
    r#"INSERT OR REPLACE INTO ui_tasks
                   (ui_id, conversation_id, task_id, name, status, parent_ui_id, render_json, created_at, updated_at)
                   VALUES (
                       (SELECT ui_id FROM ui_tasks WHERE conversation_id = ? AND task_id = ?),
                       ?, ?, ?, ?, ?, ?,
                       COALESCE((SELECT created_at FROM ui_tasks WHERE conversation_id = ? AND task_id = ?), CURRENT_TIMESTAMP),
                       CURRENT_TIMESTAMP
                   )"#@
}

/// The fields read back for a UI task.
pub open spec fn ui_task_fields() -> Seq<Seq<char>> {
    seq![
        "ui_id"@,
        "conversation_id"@,
        "task_id"@,
        "name"@,
        "status"@,
        "parent_ui_id"@,
        "render_json"@,
        "created_at"@,
        "updated_at"@,
    ]
}

/// The fields read back for an agent runtime record.
pub open spec fn eko_context_fields() -> Seq<Seq<char>> {
    seq![
        "id"@,
        "task_id"@,
        "conversation_id"@,
        "kind"@,
        "name"@,
        "node_id"@,
        "status"@,
        "payload_json"@,
        "created_at"@,
    ]
}

/// The events that could be read, in order.
pub open spec fn present_events(events: Seq<Option<JsonValue>>) -> Seq<JsonValue>
    decreases events.len(),
{
    if events.len() == 0 {
        Seq::empty()
    } else {
        present_events(events.drop_last()) + match events.last() {
            Some(v) => seq![v],
            None => Seq::<JsonValue>::empty(),
        }
    }
}

/// The context rebuilt from a task's events: an object with the events
/// that could be read, in order, and the task's id (keys in sorted order).
pub open spec fn is_events_context(v: JsonValue, task_id: Seq<char>, events: Seq<Option<JsonValue>>) -> bool {
    v matches JsonValue::Object(fs) && fs@.len() == 2 && fs@[0].0@ == "events"@ && (fs@[0].1 matches JsonValue::Array(
        items,
    ) && items@ == present_events(events)) && fs@[1].0@ == "task_id"@ && text_is(fs@[1].1, task_id)
}

/// A rebuilt agent context: a stored payload as it was written, or the
/// context made from the task's events.
#[derive(Debug)]
pub enum RebuiltContext {
    Stored(String),
    FromEvents(JsonValue),
}

impl TaskRepository {
    /// Rewriting UI task `ui_id` with the name, state, render data and update time of `updates`.
    pub fn update_ui_task_statement(ui_id: i64, updates: &UITask) -> (r: (String, Vec<JsonValue>))
        ensures
            r.0@ == ui_task_update_sql(),
            r.1@.len() == 5,
            r.1@[0] == JsonValue::String(updates.name),
            text_is(r.1@[1], task_status_name(updates.status)),
            r.1@[2] == text_or_null(updates.render_json),
            r.1@[3] == JsonValue::String(updates.updated_at),
            r.1@[4] == JsonValue::Number(ui_id),
    {
        let mut params: Vec<JsonValue> = Vec::new();
        params.push(JsonValue::String(updates.name.clone()));
        params.push(JsonValue::String(owned(updates.status.as_str())));
        params.push(text_value(&updates.render_json));
        params.push(JsonValue::String(updates.updated_at.clone()));
        params.push(JsonValue::Number(ui_id));
        (owned("UPDATE ui_tasks SET name = ?, status = ?, render_json = ?, updated_at = ? WHERE ui_id = ?"), params)
    }

    /// The statement that drops UI task `ui_id`.
    pub fn delete_ui_task_statement(ui_id: i64) -> (r: (String, Vec<JsonValue>))
        ensures
            r.0@ == ui_task_delete_sql(),
            r.1@.len() == 1,
            r.1@[0] == JsonValue::Number(ui_id),
    {
        let mut params: Vec<JsonValue> = Vec::new();
        params.push(JsonValue::Number(ui_id));
        (owned("DELETE FROM ui_tasks WHERE ui_id = ?"), params)
    }

    /// The query of a task's latest recorded state.
    pub fn latest_eko_state_statement(task_id: &str) -> (r: (String, Vec<JsonValue>))
        ensures
            r.0@ == latest_eko_state_sql(),
            r.1@.len() == 1,
            text_is(r.1@[0], task_id@),
    {
        let mut params: Vec<JsonValue> = Vec::new();
        params.push(JsonValue::String(owned(task_id)));
        (owned(r#"SELECT id, task_id, conversation_id, kind, name, node_id, status, payload_json, created_at 
             FROM eko_context 
             WHERE task_id = ? AND kind = 'state' 
             ORDER BY created_at DESC 
             LIMIT 1"#), params)
    }

    /// The query of the payload of a task's latest snapshot named `snapshot_name`.
    pub fn snapshot_payload_statement(task_id: &str, snapshot_name: &str) -> (r: (String, Vec<JsonValue>))
        ensures
            r.0@ == snapshot_payload_sql(),
            r.1@.len() == 2,
            text_is(r.1@[0], task_id@),
            text_is(r.1@[1], snapshot_name@),
    {
        let mut params: Vec<JsonValue> = Vec::new();
        params.push(JsonValue::String(owned(task_id)));
        params.push(JsonValue::String(owned(snapshot_name)));
        (owned(r#"SELECT payload_json FROM eko_context 
                 WHERE task_id = ? AND kind = 'snapshot' AND name = ? 
                 ORDER BY created_at DESC LIMIT 1"#), params)
    }

    /// The query of the payloads of a task's events, oldest first.
    pub fn event_payloads_statement(task_id: &str) -> (r: (String, Vec<JsonValue>))
        ensures
            r.0@ == event_payloads_sql(),
            r.1@.len() == 1,
            text_is(r.1@[0], task_id@),
    {
        let mut params: Vec<JsonValue> = Vec::new();
        params.push(JsonValue::String(owned(task_id)));
        (owned(r#"SELECT payload_json FROM eko_context 
             WHERE task_id = ? AND kind = 'event' 
             ORDER BY created_at ASC"#), params)
    }

    /// The query of the payloads and times of a task's events, oldest first.
    pub fn event_history_statement(task_id: &str) -> (r: (String, Vec<JsonValue>))
        ensures
            r.0@ == event_history_sql(),
            r.1@.len() == 1,
            text_is(r.1@[0], task_id@),
    {
        let mut params: Vec<JsonValue> = Vec::new();
        params.push(JsonValue::String(owned(task_id)));
        (owned(r#"SELECT payload_json, created_at FROM eko_context 
             WHERE task_id = ? AND kind = 'event' 
             ORDER BY created_at ASC"#), params)
    }

    /// The query of a task's snapshots, newest first.
    pub fn get_snapshots_statement(task_id: &str) -> (r: (String, Vec<JsonValue>))
        ensures
            r.0@ == eko_snapshots_sql(),
            r.1@.len() == 1,
            text_is(r.1@[0], task_id@),
    {
        let mut params: Vec<JsonValue> = Vec::new();
        params.push(JsonValue::String(owned(task_id)));
        (owned(r#"SELECT id, task_id, conversation_id, kind, name, node_id, status, payload_json, created_at 
             FROM eko_context 
             WHERE task_id = ? AND kind = 'snapshot' 
             ORDER BY created_at DESC"#), params)
    }

    /// Writing a UI task in place of the one of its conversation and task id, if any, keeping that one's row id and creation time.
    pub fn upsert_ui_task_statement(task: &UITask) -> (r: (String, Vec<JsonValue>))
        ensures
            r.0@ == ui_task_upsert_sql(),
            r.1@.len() == 10,
            r.1@[0] == JsonValue::Number(task.conversation_id),
            r.1@[1] == JsonValue::String(task.task_id),
            r.1@[2] == JsonValue::Number(task.conversation_id),
            r.1@[3] == JsonValue::String(task.task_id),
            r.1@[4] == JsonValue::String(task.name),
            text_is(r.1@[5], task_status_name(task.status)),
            r.1@[6] == int_or_null(task.parent_ui_id),
            r.1@[7] == text_or_null(task.render_json),
            r.1@[8] == JsonValue::Number(task.conversation_id),
            r.1@[9] == JsonValue::String(task.task_id),
    {
        let mut params: Vec<JsonValue> = Vec::new();
        params.push(JsonValue::Number(task.conversation_id));
        params.push(JsonValue::String(task.task_id.clone()));
        params.push(JsonValue::Number(task.conversation_id));
        params.push(JsonValue::String(task.task_id.clone()));
        params.push(JsonValue::String(task.name.clone()));
        params.push(JsonValue::String(owned(task.status.as_str())));
        params.push(int_value(task.parent_ui_id));
        params.push(text_value(&task.render_json));
        params.push(JsonValue::Number(task.conversation_id));
        params.push(JsonValue::String(task.task_id.clone()));
        (owned(r#"INSERT OR REPLACE INTO ui_tasks
                   (ui_id, conversation_id, task_id, name, status, parent_ui_id, render_json, created_at, updated_at)
                   VALUES (
                       (SELECT ui_id FROM ui_tasks WHERE conversation_id = ? AND task_id = ?),
                       ?, ?, ?, ?, ?, ?,
                       COALESCE((SELECT created_at FROM ui_tasks WHERE conversation_id = ? AND task_id = ?), CURRENT_TIMESTAMP),
                       CURRENT_TIMESTAMP
                   )"#), params)
    }

    /// The query of a conversation's UI tasks, most recently updated first.
    pub fn get_ui_tasks_by_conversation_statement(conversation_id: i64) -> (r: (String, Vec<JsonValue>))
        ensures
            r.0@ == simple_select_sql(
                "ui_tasks"@,
                ui_task_fields(),
                Some("conversation_id"@),
                "updated_at"@ + " DESC"@,
                false,
                false,
            ),
            r.1@ == simple_select_params(Some(JsonValue::Number(conversation_id)), None, None),
    {
        let fields: [&str; 9] = [
            "ui_id",
            "conversation_id",
            "task_id",
            "name",
            "status",
            "parent_ui_id",
            "render_json",
            "created_at",
            "updated_at",
        ];
        let order = QueryOrder::Desc(owned("updated_at"));
        let r = simple_select(
            "ui_tasks",
            &fields,
            Some(("conversation_id", JsonValue::Number(conversation_id))),
            order,
            None,
            None,
        );
        assert(fields@.map_values(|f: &str| f@) =~= ui_task_fields());
        r
    }

    /// The query of every UI task, most recently updated first.
    pub fn find_all_statement() -> (r: (String, Vec<JsonValue>))
        ensures
            r.0@ == simple_select_sql("ui_tasks"@, ui_task_fields(), None, "updated_at"@ + " DESC"@, false, false),
            r.1@.len() == 0,
    {
        let fields: [&str; 9] = [
            "ui_id",
            "conversation_id",
            "task_id",
            "name",
            "status",
            "parent_ui_id",
            "render_json",
            "created_at",
            "updated_at",
        ];
        let order = QueryOrder::Desc(owned("updated_at"));
        let r = simple_select("ui_tasks", &fields, None, order, None, None);
        assert(fields@.map_values(|f: &str| f@) =~= ui_task_fields());
        assert(simple_select_params(None, None, None) =~= Seq::<JsonValue>::empty());
        r
    }

    /// The query of the UI task of a task id.
    pub fn find_ui_task_by_task_id_statement(task_id: &str) -> (r: (String, Vec<JsonValue>))
        ensures
            r.0@ == select_where_sql("ui_tasks"@, ui_task_fields(), "task_id"@),
            r.1@.len() == 1,
            text_is(r.1@[0], task_id@),
    {
        let fields: [&str; 9] = [
            "ui_id",
            "conversation_id",
            "task_id",
            "name",
            "status",
            "parent_ui_id",
            "render_json",
            "created_at",
            "updated_at",
        ];
        let r = select_where_eq("ui_tasks", &fields, "task_id", JsonValue::String(owned(task_id)));
        assert(fields@.map_values(|f: &str| f@) =~= ui_task_fields());
        r
    }

    /// The query of UI task `ui_id`.
    pub fn find_by_id_statement(ui_id: i64) -> (r: (String, Vec<JsonValue>))
        ensures
            r.0@ == select_where_sql("ui_tasks"@, ui_task_fields(), "ui_id"@),
            r.1@ == seq![JsonValue::Number(ui_id)],
    {
        let fields: [&str; 9] = [
            "ui_id",
            "conversation_id",
            "task_id",
            "name",
            "status",
            "parent_ui_id",
            "render_json",
            "created_at",
            "updated_at",
        ];
        let r = select_where_eq("ui_tasks", &fields, "ui_id", JsonValue::Number(ui_id));
        assert(fields@.map_values(|f: &str| f@) =~= ui_task_fields());
        r
    }

    /// The query of a task's runtime records, oldest first.
    pub fn get_eko_contexts_statement(task_id: &str) -> (r: (String, Vec<JsonValue>))
        ensures
            r.0@ == simple_select_sql(
                "eko_context"@,
                eko_context_fields(),
                Some("task_id"@),
                "created_at"@ + " ASC"@,
                false,
                false,
            ),
            r.1@.len() == 1,
            text_is(r.1@[0], task_id@),
    {
        let fields: [&str; 9] = [
            "id",
            "task_id",
            "conversation_id",
            "kind",
            "name",
            "node_id",
            "status",
            "payload_json",
            "created_at",
        ];
        let order = QueryOrder::Asc(owned("created_at"));
        let r = simple_select(
            "eko_context",
            &fields,
            Some(("task_id", JsonValue::String(owned(task_id)))),
            order,
            None,
            None,
        );
        assert(fields@.map_values(|f: &str| f@) =~= eko_context_fields());
        r
    }

    /// The outcome of deleting UI task `ui_id`, from the number of rows the
    /// DELETE removed: refused when it removed none.
    pub fn delete_ui_task_outcome(ui_id: i64, rows_affected: u64) -> (r: Result<(), String>)
        ensures
            rows_affected > 0 ==> r is Ok,
            rows_affected == 0 ==> (r matches Err(m) && m@ == "UI任务不存在: "@ + int_text(ui_id as int)),
    {
        if rows_affected == 0 {
            let mut m = chars_of("UI任务不存在: ");
            push_int(&mut m, ui_id);
            return Err(string_of(&m));
        }
        Ok(())
    }

    /// The row id under which a UI task is rewritten; a task without one
    /// cannot be.
    pub fn update_target(task: &UITask) -> (r: Result<i64, String>)
        ensures
            match task.ui_id {
                Some(id) => r == Ok::<i64, String>(id),
                None => r matches Err(m) && m@ == "无法更新没有ID的UI任务"@,
            },
    {
        match task.ui_id {
            Some(id) => Ok(id),
            None => Err(owned("无法更新没有ID的UI任务")),
        }
    }

    /// The context made from a task's events (each `None` where its payload
    /// could not be read): the ones read, in order, with the task's id.
    pub fn events_context(task_id: &str, events: Vec<Option<JsonValue>>) -> (r: JsonValue)
        ensures
            is_events_context(r, task_id@, events@),
    {
        let ghost all = events@;
        let mut items: Vec<JsonValue> = Vec::new();
        let mut rest = events;
        let mut i: usize = 0;
        let n = rest.len();
        assert(all.take(0) =~= Seq::<Option<JsonValue>>::empty());
        while rest.len() > 0
            invariant
                i + rest@.len() == all.len(),
                all.len() == n,
                rest@ == all.skip(i as int),
                items@ == present_events(all.take(i as int)),
            decreases rest@.len(),
        {
            let e = rest.remove(0);
            proof {
                assert(e == all[i as int]);
                assert(rest@ =~= all.skip(i + 1));
                assert(all.take(i + 1).drop_last() =~= all.take(i as int));
                assert(all.take(i + 1).last() == all[i as int]);
            }
            match e {
                Some(v) => {
                    items.push(v);
                    assert(items@ =~= present_events(all.take(i + 1)));
                },
                None => {
                    assert(items@ =~= present_events(all.take(i + 1)));
                },
            }
            i += 1;
        }
        assert(all.take(n as int) =~= all);
        let mut fs: Vec<(String, JsonValue)> = Vec::new();
        fs.push((owned("events"), JsonValue::Array(items)));
        fs.push((owned("task_id"), JsonValue::String(owned(task_id))));
        JsonValue::Object(fs)
    }

    /// The context of a task rebuilt for a rerun: the payload of the named
    /// snapshot when one was asked for and found, else that of the latest
    /// state, else the context made from its events.
    pub fn rebuild_eko_context(
        task_id: &str,
        snapshot_payload: Option<String>,
        latest_state_payload: Option<String>,
        events: Vec<Option<JsonValue>>,
    ) -> (r: RebuiltContext)
        ensures
            match snapshot_payload {
                Some(p) => r == RebuiltContext::Stored(p),
                None => match latest_state_payload {
                    Some(p) => r == RebuiltContext::Stored(p),
                    None => r matches RebuiltContext::FromEvents(v) && is_events_context(v, task_id@, events@),
                },
            },
    {
        if let Some(p) = snapshot_payload {
            return RebuiltContext::Stored(p);
        }
        if let Some(p) = latest_state_payload {
            return RebuiltContext::Stored(p);
        }
        RebuiltContext::FromEvents(Self::events_context(task_id, events))
    }
}

} // verus!
