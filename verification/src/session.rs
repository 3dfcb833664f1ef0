//! Decisions of the interactive game-session loop.
//!
//! A session runs on its own derived topic. The render loop redraws the
//! whole surface on every event and ends — broadcasting `GameAborted` where
//! the decision says so — when the user quits, when the terminal is or
//! becomes smaller than the minimum playable size, or when the game ended
//! elsewhere. A nested listener tears the session down the moment the peer's
//! `GameAborted` arrives. The loops themselves live with the terminal and
//! the transport; only their decisions are here.

use vstd::prelude::*;
use crate::codec::{decode_spec, BodyView, CodecError, MinimalMessage, MessageBody};

verus! {

/// Smallest playable width, in columns.
pub const MIN_TERM_COLS: u16 = 30;

/// Smallest playable height, in rows.
pub const MIN_TERM_ROWS: u16 = 7;

/// Whether a terminal of this size is playable.
pub open spec fn large_enough_spec(cols: u16, rows: u16) -> bool {
    cols >= 30 && rows >= 7
}

/// Whether a terminal of this size is playable.
pub fn terminal_large_enough(cols: u16, rows: u16) -> (r: bool)
    ensures
        r == large_enough_spec(cols, rows),
{
    cols >= MIN_TERM_COLS && rows >= MIN_TERM_ROWS
}

/// The terminal dimensions a session tracks.
pub struct SessionDims {
    /// Columns.
    pub cols: u16,
    /// Rows.
    pub rows: u16,
}

/// One event of the session loop, as plain values.
#[derive(Clone, Copy, PartialEq, Eq, Structural, Debug)]
pub enum SessionEvent {
    /// A character key was pressed; the field is its ASCII byte.
    KeyChar { c: u8 },
    /// Some other key was pressed.
    KeyOther,
    /// The mouse moved to this cell.
    MouseMoved { col: u16, row: u16 },
    /// Some other mouse event.
    OtherMouse,
    /// The terminal was resized.
    Resized { cols: u16, rows: u16 },
    /// Raw mode was found disabled: the game ended elsewhere.
    RawModeLost,
    /// Any other event.
    Other,
}

/// What the loop does with one event.
#[derive(Clone, Copy, PartialEq, Eq, Structural, Debug)]
pub enum SessionAction {
    /// The user quit: restore the terminal, broadcast the abort, stop.
    AbortQuit,
    /// The terminal is below the minimum playable size: broadcast the abort
    /// and stop.
    AbortTooSmall,
    /// The game ended elsewhere: stop without broadcasting.
    StopOpponentGone,
    /// Redraw and mark the cell right below and right of the cursor.
    MarkCursor { col: u16, row: u16 },
    /// Redraw only.
    Redraw,
}

/// The action one event decides. 113 is ASCII `q`, the quit key.
pub open spec fn step_action_spec(e: SessionEvent) -> SessionAction {
    match e {
        SessionEvent::KeyChar { c } => if c == 113u8 {
            SessionAction::AbortQuit
        } else {
            SessionAction::Redraw
        },
        SessionEvent::KeyOther => SessionAction::Redraw,
        SessionEvent::MouseMoved { col, row } => SessionAction::MarkCursor {
            col: (col + 1) as u16,
            row: (row + 1) as u16,
        },
        SessionEvent::OtherMouse => SessionAction::Redraw,
        SessionEvent::Resized { cols, rows } => if !large_enough_spec(cols, rows) {
            SessionAction::AbortTooSmall
        } else {
            SessionAction::Redraw
        },
        SessionEvent::RawModeLost => SessionAction::StopOpponentGone,
        SessionEvent::Other => SessionAction::Redraw,
    }
}

/// The dimensions after one event: a resize adopts the new size, everything
/// else keeps the old one.
pub open spec fn dims_after_spec(cols: u16, rows: u16, e: SessionEvent) -> (u16, u16) {
    match e {
        SessionEvent::Resized { cols: c, rows: r } => (c, r),
        _ => (cols, rows),
    }
}

impl SessionDims {
    /// Handle one session event: track resizes and decide the action.
    pub fn step(&mut self, event: &SessionEvent) -> (r: SessionAction)
        requires
            *event matches SessionEvent::MouseMoved { col, row } ==> col < u16::MAX && row
                < u16::MAX,
        ensures
            (final(self).cols, final(self).rows) == dims_after_spec(
                old(self).cols,
                old(self).rows,
                *event,
            ),
            r == step_action_spec(*event),
    {
        match event {
            SessionEvent::KeyChar { c } => {
                if *c == 113 {
                    SessionAction::AbortQuit
                } else {
                    SessionAction::Redraw
                }
            }
            SessionEvent::KeyOther => SessionAction::Redraw,
            SessionEvent::MouseMoved { col, row } => SessionAction::MarkCursor {
                col: *col + 1,
                row: *row + 1,
            },
            SessionEvent::OtherMouse => SessionAction::Redraw,
            SessionEvent::Resized { cols, rows } => {
                self.cols = *cols;
                self.rows = *rows;
                if !terminal_large_enough(*cols, *rows) {
                    SessionAction::AbortTooSmall
                } else {
                    SessionAction::Redraw
                }
            }
            SessionEvent::RawModeLost => SessionAction::StopOpponentGone,
            SessionEvent::Other => SessionAction::Redraw,
        }
    }
}

/// What the in-session listener does with one payload: report whether the
/// peer abandoned the game. Any other well-formed message is ignored;
/// malformed bytes fail as the room dispatcher fails.
pub fn session_payload_ends(bytes: &[u8]) -> (r: Result<bool, CodecError>)
    ensures
        match r {
            Ok(true) => decode_spec(bytes@) == Some(BodyView::GameAborted),
            Ok(false) => decode_spec(bytes@) is Some && decode_spec(bytes@) != Some(
                BodyView::GameAborted,
            ),
            Err(e) => decode_spec(bytes@) is None && e == CodecError::MalformedMessage,
        },
{
    match MinimalMessage::from_bytes(bytes) {
        Ok(MessageBody::GameAborted) => Ok(true),
        Ok(_) => Ok(false),
        Err(e) => Err(e),
    }
}

} // verus!
