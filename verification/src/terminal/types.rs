//! The context kept for each terminal pane.
//!
//! Times are milliseconds since the Unix epoch, read from the wall clock
//! where the context changes.
use vstd::prelude::*;
use crate::clock::now_millis;
use crate::text::{chars_of, owned, str_eq, str_lowercase, to_lowercase, trim, trim_chars};

verus! {

/// Identifier of a terminal pane.
#[derive(Debug, Clone, Copy, PartialEq, Eq, Structural, Hash)]
pub struct PaneId(pub u32);

impl PaneId {
    pub fn new(id: u32) -> (r: Self)
        ensures
            r.0 == id,
    {
        PaneId(id)
    }

    pub fn as_u32(&self) -> (r: u32)
        ensures
            r == self.0,
    {
        self.0
    }
}

/// A message on a pane's output channel.
#[derive(Debug, Clone)]
pub enum TerminalChannelMessage {
    Data { pane_id: u32, data: Vec<u8> },
    Error { pane_id: u32, error: String },
    Close { pane_id: u32 },
}

/// A change of terminal context that is announced to subscribers.
#[derive(Debug, Clone)]
pub enum TerminalContextEvent {
    /// the active pane changed
    ActivePaneChanged { old_pane_id: Option<PaneId>, new_pane_id: Option<PaneId> },
    /// a pane's context was refreshed
    PaneContextUpdated { pane_id: PaneId, context: TerminalContext },
    /// a pane's working directory changed
    PaneCwdChanged { pane_id: PaneId, old_cwd: Option<String>, new_cwd: String },
    /// shell integration was switched on or off for a pane
    PaneShellIntegrationChanged { pane_id: PaneId, enabled: bool },
}

/// The shell that runs in a pane.
#[derive(Debug, Clone, PartialEq, Eq)]
pub enum ShellType {
    Bash,
    Zsh,
    Fish,
    Other(String),
}

/// Display name of a shell.
pub open spec fn shell_display_name(t: ShellType) -> Seq<char> {
    match t {
        ShellType::Bash => "Bash"@,
        ShellType::Zsh => "Zsh"@,
        ShellType::Fish => "Fish"@,
        ShellType::Other(name) => name@,
    }
}

impl ShellType {
    /// Parses a shell name: `bash`, `zsh` and `fish` in any case are known
    /// shells, every other name is `Other` with the name as given.
    pub fn from_str(s: &str) -> (r: Self)
        ensures
            str_lowercase(s@) == "bash"@ ==> r == ShellType::Bash,
            str_lowercase(s@) == "zsh"@ ==> r == ShellType::Zsh,
            str_lowercase(s@) == "fish"@ ==> r == ShellType::Fish,
            str_lowercase(s@) != "bash"@ && str_lowercase(s@) != "zsh"@ && str_lowercase(s@)
                != "fish"@ ==> (r matches ShellType::Other(name) && name@ == s@),
    {
        let lower = to_lowercase(s);
        let lower = chars_of(lower.as_str());
        proof {
            reveal_strlit("bash");
            reveal_strlit("zsh");
            reveal_strlit("fish");
            assert("bash"@[0] != "fish"@[0]);
            assert("bash"@.len() != "zsh"@.len());
            assert("zsh"@.len() != "fish"@.len());
        }
        if str_eq("bash", &lower) {
            ShellType::Bash
        } else if str_eq("zsh", &lower) {
            ShellType::Zsh
        } else if str_eq("fish", &lower) {
            ShellType::Fish
        } else {
            ShellType::Other(owned(s))
        }
    }

    /// The name shown to users.
    pub fn display_name(&self) -> (r: &str)
        ensures
            r@ == shell_display_name(*self),
    {
        match self {
            ShellType::Bash => "Bash",
            ShellType::Zsh => "Zsh",
            ShellType::Fish => "Fish",
            ShellType::Other(name) => name.as_str(),
        }
    }

    /// Whether shell integration scripts exist for this shell.
    pub fn supports_integration(&self) -> (r: bool)
        ensures
            r == !(*self is Other),
    {
        match self {
            ShellType::Other(_) => false,
            _ => true,
        }
    }

    /// The prompt the shell shows by default.
    pub fn default_prompt(&self) -> (r: &str)
        ensures
            r@ == (if *self is Fish { "❯ "@ } else { "$ "@ }),
    {
        match self {
            ShellType::Fish => "❯ ",
            _ => "$ ",
        }
    }
}

impl Default for ShellType {
    fn default() -> (r: Self)
        ensures
            r == ShellType::Bash,
    {
        ShellType::Bash
    }
}

/// A command run in a pane.
#[derive(Debug, Clone)]
pub struct CommandInfo {
    pub command: String,
    pub args: Vec<String>,
    /// when the command started
    pub start_time: u64,
    /// when it finished, once it has
    pub end_time: Option<u64>,
    pub exit_code: Option<i32>,
    pub working_directory: Option<String>,
}

/// Why a command record is inconsistent, or `None` when it is sound.
pub open spec fn command_problem(c: CommandInfo) -> Option<Seq<char>> {
    if trim(c.command@).len() == 0 {
        Some("Command cannot be empty"@)
    } else if c.end_time matches Some(e) && e < c.start_time {
        Some("End time cannot be earlier than start time"@)
    } else if c.end_time is None && c.exit_code is Some {
        Some("Unfinished command should not have exit code"@)
    } else {
        None
    }
}

impl CommandInfo {
    /// A command that starts now.
    pub fn new(command: String, args: Vec<String>, working_directory: Option<String>) -> (r: Self)
        ensures
            r.command == command,
            r.args == args,
            r.working_directory == working_directory,
            r.end_time is None,
            r.exit_code is None,
    {
        CommandInfo {
            command,
            args,
            start_time: now_millis(),
            end_time: None,
            exit_code: None,
            working_directory,
        }
    }

    /// Marks the command finished now with the given exit code.
    pub fn complete(&mut self, exit_code: i32)
        ensures
            final(self).end_time is Some,
            final(self).exit_code == Some(exit_code),
            final(self).command == old(self).command,
            final(self).args == old(self).args,
            final(self).start_time == old(self).start_time,
            final(self).working_directory == old(self).working_directory,
    {
        self.end_time = Some(now_millis());
        self.exit_code = Some(exit_code);
    }

    /// Checks the record: a command text that is not blank, an end no
    /// earlier than the start, and no exit code before the end.
    pub fn validate(&self) -> (r: Result<(), String>)
        ensures
            r is Ok <==> command_problem(*self) is None,
            r matches Err(e) ==> command_problem(*self) == Some(e@),
    {
        let text = chars_of(self.command.as_str());
        let trimmed = trim_chars(&text);
        if trimmed.len() == 0 {
            return Err(owned("Command cannot be empty"));
        }
        if let Some(end_time) = self.end_time {
            if end_time < self.start_time {
                return Err(owned("End time cannot be earlier than start time"));
            }
        }
        if self.end_time.is_none() && self.exit_code.is_some() {
            return Err(owned("Unfinished command should not have exit code"));
        }
        Ok(())
    }

    pub fn is_completed(&self) -> (r: bool)
        ensures
            r == self.end_time is Some,
    {
        self.end_time.is_some()
    }

    /// Whether the command exited with code 0.
    pub fn is_successful(&self) -> (r: bool)
        ensures
            r == (self.exit_code == Some(0i32)),
    {
        match self.exit_code {
            Some(code) => code == 0,
            None => false,
        }
    }

    /// How long the command ran, in milliseconds; `None` while it runs or
    /// when its end lies before its start.
    pub fn duration(&self) -> (r: Option<u64>)
        ensures
            r == (match self.end_time {
                Some(e) => if e >= self.start_time { Some((e - self.start_time) as u64) } else { None },
                None => None,
            }),
    {
        match self.end_time {
            Some(e) => if e >= self.start_time { Some(e - self.start_time) } else { None },
            None => None,
        }
    }
}

/// Why a pane context failed its check.
#[derive(Debug, Clone, PartialEq, Eq)]
pub enum TerminalValidationError {
    /// pane id 0 is not a pane
    InvalidPaneId,
    /// a command of the history is inconsistent
    InvalidHistoryEntry { index: usize, reason: String },
    /// the running command is inconsistent
    InvalidCurrentCommand { reason: String },
}

/// The most commands a pane's history keeps.
pub const MAX_COMMAND_HISTORY: usize = 100;

/// The context of one pane.
#[derive(Debug, Clone)]
pub struct TerminalContext {
    pub pane_id: PaneId,
    pub current_working_directory: Option<String>,
    pub shell_type: Option<ShellType>,
    pub shell_integration_enabled: bool,
    pub current_command: Option<CommandInfo>,
    pub command_history: Vec<CommandInfo>,
    pub window_title: Option<String>,
    /// when the context last changed
    pub last_activity: u64,
    pub is_active: bool,
}

/// The first inconsistent history entry at or after `i`.
pub open spec fn first_bad_entry(h: Seq<CommandInfo>, i: int) -> Option<int>
    decreases h.len() - i,
{
    if i < 0 || i >= h.len() {
        None
    } else if command_problem(h[i]) is Some {
        Some(i)
    } else {
        first_bad_entry(h, i + 1)
    }
}

/// Whether `validate` accepts a context: a real pane id and sound commands.
pub open spec fn context_sound(c: TerminalContext) -> bool {
    &&& c.pane_id.0 != 0
    &&& first_bad_entry(c.command_history@, 0) is None
    &&& (c.current_command matches Some(cmd) ==> command_problem(cmd) is None)
}

impl TerminalContext {
    /// A fresh context: nothing known yet, inactive.
    pub fn new(pane_id: PaneId) -> (r: Self)
        ensures
            r.pane_id == pane_id,
            r.current_working_directory is None,
            r.shell_type is None,
            !r.shell_integration_enabled,
            r.current_command is None,
            r.command_history@.len() == 0,
            r.window_title is None,
            !r.is_active,
    {
        TerminalContext {
            pane_id,
            current_working_directory: None,
            shell_type: None,
            shell_integration_enabled: false,
            current_command: None,
            command_history: Vec::new(),
            window_title: None,
            last_activity: now_millis(),
            is_active: false,
        }
    }

    /// The fallback context: home directory `~` and Bash.
    pub fn with_defaults(pane_id: PaneId) -> (r: Self)
        ensures
            r.pane_id == pane_id,
            r.current_working_directory matches Some(d) && d@ == "~"@,
            r.shell_type == Some(ShellType::Bash),
            !r.shell_integration_enabled,
            r.current_command is None,
            r.command_history@.len() == 0,
            r.window_title is None,
            !r.is_active,
    {
        TerminalContext {
            pane_id,
            current_working_directory: Some(owned("~")),
            shell_type: Some(ShellType::Bash),
            shell_integration_enabled: false,
            current_command: None,
            command_history: Vec::new(),
            window_title: None,
            last_activity: now_millis(),
            is_active: false,
        }
    }

    /// Checks the pane id (0 is no pane), then each history entry in order,
    /// then the running command; the first problem found is reported.
    pub fn validate(&self) -> (r: Result<(), TerminalValidationError>)
        ensures
            r is Ok <==> context_sound(*self),
            r matches Err(TerminalValidationError::InvalidPaneId) <==> self.pane_id.0 == 0,
            r matches Err(TerminalValidationError::InvalidHistoryEntry { index, reason }) ==> {
                &&& self.pane_id.0 != 0
                &&& first_bad_entry(self.command_history@, 0) == Some(index as int)
                &&& command_problem(self.command_history@[index as int]) == Some(reason@)
            },
            r matches Err(TerminalValidationError::InvalidCurrentCommand { reason }) ==> {
                &&& self.pane_id.0 != 0
                &&& first_bad_entry(self.command_history@, 0) is None
                &&& self.current_command matches Some(cmd) && command_problem(cmd) == Some(
                    reason@,
                )
            },
    {
        if self.pane_id.as_u32() == 0 {
            return Err(TerminalValidationError::InvalidPaneId);
        }
        let mut i: usize = 0;
        while i < self.command_history.len()
            invariant
                self.pane_id.0 != 0,
                i <= self.command_history@.len(),
                first_bad_entry(self.command_history@, 0) == first_bad_entry(
                    self.command_history@,
                    i as int,
                ),
            decreases self.command_history.len() - i,
        {
            match self.command_history[i].validate() {
                Err(reason) => {
                    return Err(TerminalValidationError::InvalidHistoryEntry { index: i, reason });
                },
                Ok(()) => {},
            }
            i += 1;
        }
        if let Some(command) = &self.current_command {
            match command.validate() {
                Err(reason) => {
                    return Err(TerminalValidationError::InvalidCurrentCommand { reason });
                },
                Ok(()) => {},
            }
        }
        Ok(())
    }

    /// Whether both the working directory and the shell are known.
    pub fn is_complete(&self) -> (r: bool)
        ensures
            r == (self.current_working_directory is Some && self.shell_type is Some),
    {
        self.current_working_directory.is_some() && self.shell_type.is_some()
    }

    /// The working directory, or `~` when it is not known.
    pub fn get_cwd_or_default(&self) -> (r: String)
        ensures
            r@ == (match self.current_working_directory {
                Some(d) => d@,
                None => "~"@,
            }),
    {
        match &self.current_working_directory {
            Some(d) => owned(d.as_str()),
            None => owned("~"),
        }
    }

    /// The shell, or Bash when it is not known.
    pub fn get_shell_type_or_default(&self) -> (r: ShellType)
        ensures
            r == (match self.shell_type {
                Some(t) => t,
                None => ShellType::Bash,
            }),
    {
        match &self.shell_type {
            Some(t) => copy_shell(t),
            None => ShellType::Bash,
        }
    }

    /// Marks the pane active or inactive; becoming active counts as activity.
    pub fn set_active(&mut self, active: bool)
        ensures
            final(self).is_active == active,
            !active ==> final(self).last_activity == old(self).last_activity,
            same_except_activity(*old(self), *final(self)),
    {
        self.is_active = active;
        if active {
            self.last_activity = now_millis();
        }
    }

    pub fn update_cwd(&mut self, cwd: String)
        ensures
            final(self).current_working_directory == Some(cwd),
            final(self).is_active == old(self).is_active,
            final(self).shell_type == old(self).shell_type,
            final(self).shell_integration_enabled == old(self).shell_integration_enabled,
            final(self).current_command == old(self).current_command,
            final(self).command_history == old(self).command_history,
            final(self).window_title == old(self).window_title,
            final(self).pane_id == old(self).pane_id,
    {
        self.current_working_directory = Some(cwd);
        self.last_activity = now_millis();
    }

    pub fn update_shell_type(&mut self, shell_type: ShellType)
        ensures
            final(self).shell_type == Some(shell_type),
            final(self).current_working_directory == old(self).current_working_directory,
            final(self).is_active == old(self).is_active,
            final(self).shell_integration_enabled == old(self).shell_integration_enabled,
            final(self).current_command == old(self).current_command,
            final(self).command_history == old(self).command_history,
            final(self).window_title == old(self).window_title,
            final(self).pane_id == old(self).pane_id,
    {
        self.shell_type = Some(shell_type);
        self.last_activity = now_millis();
    }

    pub fn set_shell_integration(&mut self, enabled: bool)
        ensures
            final(self).shell_integration_enabled == enabled,
            final(self).current_working_directory == old(self).current_working_directory,
            final(self).shell_type == old(self).shell_type,
            final(self).is_active == old(self).is_active,
            final(self).current_command == old(self).current_command,
            final(self).command_history == old(self).command_history,
            final(self).window_title == old(self).window_title,
            final(self).pane_id == old(self).pane_id,
    {
        self.shell_integration_enabled = enabled;
        self.last_activity = now_millis();
    }

    /// Appends a command to the history, which keeps the latest
    /// `MAX_COMMAND_HISTORY` commands: the oldest one goes when it overflows.
    pub fn add_command(&mut self, command: CommandInfo)
        ensures
            final(self).command_history@ == bounded_history(old(self).command_history@, command),
            final(self).current_working_directory == old(self).current_working_directory,
            final(self).shell_type == old(self).shell_type,
            final(self).is_active == old(self).is_active,
            final(self).shell_integration_enabled == old(self).shell_integration_enabled,
            final(self).current_command == old(self).current_command,
            final(self).window_title == old(self).window_title,
            final(self).pane_id == old(self).pane_id,
    {
        let ghost h0 = self.command_history@;
        self.command_history.push(command);
        self.last_activity = now_millis();
        if self.command_history.len() > MAX_COMMAND_HISTORY {
            self.command_history.remove(0);
            assert(self.command_history@ =~= h0.push(command).drop_first());
        }
    }

    pub fn set_current_command(&mut self, command: Option<CommandInfo>)
        ensures
            final(self).current_command == command,
            final(self).current_working_directory == old(self).current_working_directory,
            final(self).shell_type == old(self).shell_type,
            final(self).is_active == old(self).is_active,
            final(self).shell_integration_enabled == old(self).shell_integration_enabled,
            final(self).command_history == old(self).command_history,
            final(self).window_title == old(self).window_title,
            final(self).pane_id == old(self).pane_id,
    {
        self.current_command = command;
        self.last_activity = now_millis();
    }

    pub fn update_window_title(&mut self, title: String)
        ensures
            final(self).window_title == Some(title),
            final(self).current_working_directory == old(self).current_working_directory,
            final(self).shell_type == old(self).shell_type,
            final(self).is_active == old(self).is_active,
            final(self).shell_integration_enabled == old(self).shell_integration_enabled,
            final(self).current_command == old(self).current_command,
            final(self).command_history == old(self).command_history,
            final(self).pane_id == old(self).pane_id,
    {
        self.window_title = Some(title);
        self.last_activity = now_millis();
    }
}

/// The history after one more command: appended, and the oldest entry
/// dropped when that makes more than `MAX_COMMAND_HISTORY`.
pub open spec fn bounded_history(h: Seq<CommandInfo>, c: CommandInfo) -> Seq<CommandInfo> {
    if h.len() + 1 > MAX_COMMAND_HISTORY {
        h.push(c).drop_first()
    } else {
        h.push(c)
    }
}

/// Two contexts that differ at most in the active flag and the time of
/// last activity.
pub open spec fn same_except_activity(a: TerminalContext, b: TerminalContext) -> bool {
    &&& a.pane_id == b.pane_id
    &&& a.current_working_directory == b.current_working_directory
    &&& a.shell_type == b.shell_type
    &&& a.shell_integration_enabled == b.shell_integration_enabled
    &&& a.current_command == b.current_command
    &&& a.command_history == b.command_history
    &&& a.window_title == b.window_title
}

/// A copy of a shell type.
pub fn copy_shell(t: &ShellType) -> (r: ShellType)
    ensures
        r == *t,
{
    match t {
        ShellType::Bash => ShellType::Bash,
        ShellType::Zsh => ShellType::Zsh,
        ShellType::Fish => ShellType::Fish,
        ShellType::Other(name) => ShellType::Other(name.clone()),
    }
}

/// How a context is looked up.
#[derive(Debug, Clone, Copy, Default)]
pub struct ContextQueryOptions {
    /// whether a cached context may answer
    pub use_cache: bool,
    /// how long the lookup may take, in milliseconds
    pub timeout: Option<u64>,
    /// whether a default context may stand in when the lookup fails
    pub allow_fallback: bool,
    /// whether the command history is wanted
    pub include_history: bool,
    /// the most history entries wanted
    pub max_history_count: Option<usize>,
}

impl ContextQueryOptions {
    /// A quick lookup: cached answers and fallback allowed, no history,
    /// 10 ms.
    pub fn fast() -> (r: Self)
        ensures
            r.use_cache,
            r.timeout == Some(10u64),
            r.allow_fallback,
            !r.include_history,
            r.max_history_count is None,
    {
        ContextQueryOptions {
            use_cache: true,
            timeout: Some(10),
            allow_fallback: true,
            include_history: false,
            max_history_count: None,
        }
    }

    /// A full lookup: no cache, fallback allowed, up to 50 history entries,
    /// 100 ms.
    pub fn complete() -> (r: Self)
        ensures
            !r.use_cache,
            r.timeout == Some(100u64),
            r.allow_fallback,
            r.include_history,
            r.max_history_count == Some(50usize),
    {
        ContextQueryOptions {
            use_cache: false,
            timeout: Some(100),
            allow_fallback: true,
            include_history: true,
            max_history_count: Some(50),
        }
    }
}

} // verus!
