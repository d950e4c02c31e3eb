//! The checks that the terminal-context commands make of their arguments,
//! and what the active-context command does with what it was given.
use vstd::prelude::*;
use crate::terminal::types::{PaneId, TerminalContext};
use crate::text::{chars_of, contains_chars, contains_seq, owned};

verus! {

/// The refusal of pane id 0, which names no pane.
pub open spec fn zero_pane_message() -> Seq<char> {
    "面板ID不能为0"@
}

/// A pane id given to a command: any but 0.
pub fn validate_pane_id(pane_id: u32) -> (r: Result<PaneId, String>)
    ensures
        pane_id != 0 ==> r == Ok::<PaneId, String>(PaneId(pane_id)),
        pane_id == 0 ==> (r matches Err(m) && m@ == zero_pane_message()),
{
    if pane_id == 0 {
        Err(owned("面板ID不能为0"))
    } else {
        Ok(PaneId::new(pane_id))
    }
}

/// An optional pane id given to a command: none, or any but 0.
pub fn validate_optional_pane_id(pane_id: Option<u32>) -> (r: Result<Option<PaneId>, String>)
    ensures
        match pane_id {
            None => r == Ok::<Option<PaneId>, String>(None),
            Some(id) => if id != 0 {
                r == Ok::<Option<PaneId>, String>(Some(PaneId(id)))
            } else {
                r matches Err(m) && m@ == zero_pane_message()
            },
        },
{
    match pane_id {
        None => Ok(None),
        Some(id) => match validate_pane_id(id) {
            Ok(p) => Ok(Some(p)),
            Err(e) => Err(e),
        },
    }
}

/// What the command for the active pane's context does once that context
/// was asked for.
pub enum ActiveContextOutcome {
    /// Answer with this context.
    Answer(TerminalContext),
    /// No pane is active: answer with the request with fallback instead.
    Fallback,
    /// Answer with the failure `terminal.get_active_context_failed`.
    Fail,
}

/// The text by which the command recognises the error of a request made
/// when no pane is active.
pub open spec fn no_active_pane_marker() -> Seq<char> {
    "No active terminal pane"@
}

/// The command's decision on what asking for the active pane's context
/// gave: the context itself; on an error whose text holds
/// "No active terminal pane", the fallback; on any other error, failure.
pub fn active_context_outcome(result: Result<TerminalContext, String>) -> (r: ActiveContextOutcome)
    ensures
        match result {
            Ok(c) => r == ActiveContextOutcome::Answer(c),
            Err(m) => if contains_seq(m@, no_active_pane_marker()) {
                r is Fallback
            } else {
                r is Fail
            },
        },
{
    match result {
        Ok(c) => ActiveContextOutcome::Answer(c),
        Err(m) => {
            if contains_chars(&chars_of(m.as_str()), &chars_of("No active terminal pane")) {
                ActiveContextOutcome::Fallback
            } else {
                ActiveContextOutcome::Fail
            }
        },
    }
}

} // verus!
