//! Replay of a pane's output to a view that attaches late.
use vstd::prelude::*;
use crate::text::{owned, push_str};
use crate::utils::error::error_from_message;

verus! {

/// The size of a pseudo-terminal.
#[derive(Debug, Clone, Copy, PartialEq, Eq, Structural)]
pub struct PtySize {
    pub rows: u16,
    pub cols: u16,
    pub pixel_width: u16,
    pub pixel_height: u16,
}

impl Default for PtySize {
    /// 24 rows of 80 columns.
    fn default() -> (r: Self)
        ensures
            r == (PtySize { rows: 24, cols: 80, pixel_width: 0, pixel_height: 0 }),
    {
        PtySize { rows: 24, cols: 80, pixel_width: 0, pixel_height: 0 }
    }
}

/// Output to write to the view, at the size it was produced for.
#[derive(Debug, Clone)]
pub struct ReplayEvent {
    pub data: String,
    pub cols: u16,
    pub rows: u16,
}

/// The output replayed to a view.
#[derive(Debug, Clone)]
pub struct ProcessReplayEvent {
    pub events: Vec<ReplayEvent>,
}

impl ProcessReplayEvent {
    pub fn empty() -> (r: Self)
        ensures
            r.events@.len() == 0,
    {
        ProcessReplayEvent { events: Vec::new() }
    }

    /// One event with the whole buffer at the pane's size; nothing for an
    /// empty buffer.
    pub fn from_buffer(buffer: String, size: PtySize) -> (r: Self)
        ensures
            buffer@.len() == 0 ==> r.events@.len() == 0,
            buffer@.len() > 0 ==> r.events@.len() == 1 && r.events@[0].data == buffer
                && r.events@[0].cols == size.cols && r.events@[0].rows == size.rows,
    {
        if buffer.as_str().unicode_len() == 0 {
            return ProcessReplayEvent::empty();
        }
        let mut events = Vec::new();
        events.push(ReplayEvent { data: buffer, cols: size.cols, rows: size.rows });
        ProcessReplayEvent { events }
    }
}

/// The replay of a pane from what was read of it: its buffered output
/// (or the reason it could not be read) and its size, if the pane is
/// still there (the default size otherwise).
pub fn build_replay(buffer: Result<String, String>, size: Option<PtySize>) -> (r: Result<
    ProcessReplayEvent,
    anyhow::Error,
>)
    ensures
        r is Ok <==> buffer is Ok,
        buffer matches Ok(b) ==> (r matches Ok(e) && ({
            let sz = match size {
                Some(s) => s,
                None => PtySize { rows: 24, cols: 80, pixel_width: 0, pixel_height: 0 },
            };
            &&& b@.len() == 0 ==> e.events@.len() == 0
            &&& b@.len() > 0 ==> e.events@.len() == 1 && e.events@[0].data == b
                && e.events@[0].cols == sz.cols && e.events@[0].rows == sz.rows
        })),
{
    match buffer {
        Err(err) => {
            let mut m = owned("Failed to read terminal buffer: ");
            push_str(&mut m, err.as_str());
            Err(error_from_message(m))
        },
        Ok(text) => {
            let sz = match size {
                Some(s) => s,
                None => PtySize::default(),
            };
            Ok(ProcessReplayEvent::from_buffer(text, sz))
        },
    }
}

/// Marks a pane's replay as delivered. Nothing is kept: the call only
/// closes the exchange.
pub fn mark_replay_complete(pane_id: u32) {
}

} // verus!
