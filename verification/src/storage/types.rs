//! The storage layers and the small state records kept with the session.
use vstd::prelude::*;
use crate::text::owned;

verus! {

/// The three layers of storage.
#[derive(Debug, Clone, Copy, PartialEq, Eq, Structural, Hash)]
pub enum StorageLayer {
    /// the TOML configuration
    Config,
    /// the serialized session state
    State,
    /// the database
    Data,
}

pub open spec fn layer_name(l: StorageLayer) -> Seq<char> {
    match l {
        StorageLayer::Config => "config"@,
        StorageLayer::State => "state"@,
        StorageLayer::Data => "data"@,
    }
}

impl StorageLayer {
    pub fn as_str(&self) -> (r: &'static str)
        ensures
            r@ == layer_name(*self),
    {
        match self {
            StorageLayer::Config => "config",
            StorageLayer::State => "state",
            StorageLayer::Data => "data",
        }
    }
}

/// What a tab is attached to.
#[derive(Debug, Clone, PartialEq, Eq)]
pub enum TabContext {
    /// attached to nothing
    Unattached,
    Terminal { pane_id: u32 },
    Workspace { path: String },
    Git { repo_path: String },
}

impl Default for TabContext {
    fn default() -> (r: Self)
        ensures
            r == TabContext::Unattached,
    {
        TabContext::Unattached
    }
}

/// Position and size of the main window.
#[derive(Debug, Clone, Copy, PartialEq, Eq, Structural)]
pub struct WindowState {
    pub x: i32,
    pub y: i32,
    pub width: u32,
    pub height: u32,
    pub maximized: bool,
}

impl Default for WindowState {
    /// 1200 by 800 at (100, 100), not maximized.
    fn default() -> (r: Self)
        ensures
            r == (WindowState { x: 100, y: 100, width: 1200, height: 800, maximized: false }),
    {
        WindowState { x: 100, y: 100, width: 1200, height: 800, maximized: false }
    }
}

/// A terminal as it was when the session was saved.
#[derive(Debug, Clone)]
pub struct TerminalRuntimeState {
    pub id: u32,
    pub cwd: String,
    pub shell: String,
}

/// The state of the AI side panel.
#[derive(Debug, Clone)]
pub struct AiState {
    pub visible: bool,
    pub width: u32,
    pub mode: String,
    pub session_id: Option<i64>,
    pub workspace_path: Option<String>,
    pub selected_model_id: Option<String>,
}

impl Default for AiState {
    /// Hidden, 350 wide, in chat mode, with nothing selected.
    fn default() -> (r: Self)
        ensures
            !r.visible,
            r.width == 350,
            r.mode@ == "chat"@,
            r.session_id is None,
            r.workspace_path is None,
            r.selected_model_id is None,
    {
        AiState {
            visible: false,
            width: 350,
            mode: owned("chat"),
            session_id: None,
            workspace_path: None,
            selected_model_id: None,
        }
    }
}

/// The width of the left sidebar when the saved state does not give one.
pub fn default_left_sidebar_width() -> (r: u32)
    ensures
        r == 280,
{
    280
}

/// A section of the configuration file.
#[derive(Debug, Clone, PartialEq, Eq, Hash)]
pub enum ConfigSection {
    App,
    Appearance,
    Terminal,
    Shortcuts,
    Ai,
    Custom(String),
}

pub open spec fn section_name(s: ConfigSection) -> Seq<char> {
    match s {
        ConfigSection::App => "app"@,
        ConfigSection::Appearance => "appearance"@,
        ConfigSection::Terminal => "terminal"@,
        ConfigSection::Shortcuts => "shortcuts"@,
        ConfigSection::Ai => "ai"@,
        ConfigSection::Custom(name) => name@,
    }
}

/// Whether a name is one of the named sections.
pub open spec fn known_section(n: Seq<char>) -> bool {
    n == "app"@ || n == "appearance"@ || n == "terminal"@ || n == "shortcuts"@ || n == "ai"@
}

impl ConfigSection {
    /// The section's name in the file.
    pub fn as_str(&self) -> (r: &str)
        ensures
            r@ == section_name(*self),
    {
        match self {
            ConfigSection::App => "app",
            ConfigSection::Appearance => "appearance",
            ConfigSection::Terminal => "terminal",
            ConfigSection::Shortcuts => "shortcuts",
            ConfigSection::Ai => "ai",
            ConfigSection::Custom(name) => name.as_str(),
        }
    }

    /// The section a name stands for: a named one, or a custom section of
    /// that name.
    pub fn from_name(s: &str) -> (r: Self)
        ensures
            section_name(r) == s@,
            (r is Custom) <==> !known_section(s@),
    {
        let c = crate::text::chars_of(s);
        if crate::text::str_eq("app", &c) {
            ConfigSection::App
        } else if crate::text::str_eq("appearance", &c) {
            ConfigSection::Appearance
        } else if crate::text::str_eq("terminal", &c) {
            ConfigSection::Terminal
        } else if crate::text::str_eq("shortcuts", &c) {
            ConfigSection::Shortcuts
        } else if crate::text::str_eq("ai", &c) {
            ConfigSection::Ai
        } else {
            ConfigSection::Custom(owned(s))
        }
    }
}

} // verus!
