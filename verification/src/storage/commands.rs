//! Requests that the interface sends to the storage layer.
use vstd::prelude::*;
use crate::text::{chars_of, string_of, trim, trim_chars};

verus! {

/// A request to index a workspace: the path, when one is given, and a name.
#[derive(Debug, Clone)]
pub struct BuildWorkspaceIndexRequest {
    pub path: Option<String>,
    pub name: Option<String>,
}

/// The directory a workspace command works on, or the message key of its
/// refusal. A path that is given is used trimmed, and a blank one is
/// refused with `storage.workspace_path_empty`. Without a path, the active
/// pane's working directory, else the application's own directory; when
/// neither is known, `storage.get_current_directory_failed`.
pub open spec fn workspace_dir(
    path: Option<Seq<char>>,
    active_cwd: Option<Seq<char>>,
    current_dir: Option<Seq<char>>,
) -> Result<Seq<char>, Seq<char>> {
    match path {
        Some(p) => if trim(p).len() > 0 {
            Ok(trim(p))
        } else {
            Err("storage.workspace_path_empty"@)
        },
        None => match active_cwd {
            Some(c) => Ok(c),
            None => match current_dir {
                Some(d) => Ok(d),
                None => Err("storage.get_current_directory_failed"@),
            },
        },
    }
}

/// Chooses the directory of a workspace command (see `workspace_dir`).
pub fn resolve_workspace_path(path: Option<&str>, active_cwd: Option<String>, current_dir: Option<String>) -> (r: Result<String, &'static str>)
    ensures
        match workspace_dir(
            match path {
                Some(p) => Some(p@),
                None => None,
            },
            opt_text(active_cwd),
            opt_text(current_dir),
        ) {
            Ok(d) => r matches Ok(s) && s@ == d,
            Err(k) => r matches Err(m) && m@ == k,
        },
{
    match path {
        Some(p) => {
            let t = trim_chars(&chars_of(p));
            if t.len() > 0 {
                Ok(string_of(&t))
            } else {
                Err("storage.workspace_path_empty")
            }
        },
        None => match active_cwd {
            Some(c) => Ok(c),
            None => match current_dir {
                Some(d) => Ok(d),
                None => Err("storage.get_current_directory_failed"),
            },
        },
    }
}

/// The text of an optional string.
pub open spec fn opt_text(v: Option<String>) -> Option<Seq<char>> {
    match v {
        Some(s) => Some(s@),
        None => None,
    }
}

/// A workspace name, when one is given, must not be blank: else the
/// message key `storage.workspace_name_empty`.
pub fn check_workspace_name(name: &Option<String>) -> (r: Result<(), &'static str>)
    ensures
        match name {
            Some(n) => if trim(n@).len() > 0 {
                r is Ok
            } else {
                r matches Err(k) && k@ == "storage.workspace_name_empty"@
            },
            None => r is Ok,
        },
{
    match name {
        Some(n) => if trim_chars(&chars_of(n.as_str())).len() > 0 {
            Ok(())
        } else {
            Err("storage.workspace_name_empty")
        },
        None => Ok(()),
    }
}

/// A workspace index id must be positive: else the message key
/// `storage.invalid_workspace_id`.
pub fn check_workspace_id(id: i32) -> (r: Result<(), &'static str>)
    ensures
        id > 0 ==> r is Ok,
        id <= 0 ==> (r matches Err(k) && k@ == "storage.invalid_workspace_id"@),
{
    if id <= 0 {
        Err("storage.invalid_workspace_id")
    } else {
        Ok(())
    }
}

} // verus!
