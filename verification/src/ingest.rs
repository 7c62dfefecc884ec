//! The ingestion side: what one connection does with each thing it reads.
//!
//! A handler reads one line at a time and hands each to [`handle_read`]. It
//! goes on for as long as the outcome does not end the session. Nothing is
//! ever sent back on the connection.

use crate::frame::action_of;
use crate::frame::classify;
use crate::frame::trimmed;
use crate::frame::Action;
use crate::frame::FrameAction;
use crate::store::LockFailure;
use crate::store::SharedStateStore;
use crate::store::Slot;
use vstd::prelude::*;

verus! {

/// A read from the connection failed.
#[derive(Debug, Clone, Copy, PartialEq, Eq)]
pub struct ReadFailure;

/// What became of one read from a connection.
#[derive(Debug, Clone, Copy, PartialEq, Eq, Structural)]
pub enum Outcome {
    /// The line was blank, or the stream was at its end: the session ends.
    Closed,
    /// The read failed: the session ends, and the read is not tried again.
    ReadFailed,
    /// The line was a heartbeat: the store was not touched.
    Discarded,
    /// The trimmed line was written to the current state.
    Stored,
    /// The lock of the current state could not be taken: this update is
    /// lost, and the session goes on.
    Dropped,
}

impl Outcome {
    /// The outcomes after which the handler reads no further.
    pub open spec fn is_final(self) -> bool {
        self == Outcome::Closed || self == Outcome::ReadFailed
    }

    /// Tells whether the handler stops reading after this outcome.
    pub fn ends_session(&self) -> (b: bool)
        ensures
            b == self.is_final(),
    {
        match self {
            Outcome::Closed => true,
            Outcome::ReadFailed => true,
            Outcome::Discarded => false,
            Outcome::Stored => false,
            Outcome::Dropped => false,
        }
    }
}

/// The outcomes that the line `line` can have: one that the line alone
/// fixes, or, for a line to store, one of the two between which the lock
/// decides.
pub open spec fn allowed_for_line(line: Seq<char>, outcome: Outcome) -> bool {
    match action_of(line) {
        Action::Close => outcome == Outcome::Closed,
        Action::Discard => outcome == Outcome::Discarded,
        Action::Store(_) => outcome == Outcome::Stored || outcome == Outcome::Dropped,
    }
}

/// The outcome of a line to store, given what the write to the store
/// returned.
pub fn outcome_of_write(written: Result<(), LockFailure>) -> (outcome: Outcome)
    ensures
        written is Ok ==> outcome == Outcome::Stored,
        written is Err ==> outcome == Outcome::Dropped,
{
    match written {
        Ok(_) => Outcome::Stored,
        Err(_) => Outcome::Dropped,
    }
}

/// Handles one line, which may still end in its newline. A blank line ends
/// the session, a heartbeat is dropped without a look at the store, and any
/// other line is trimmed at its end and written to the current state. After
/// `Stored`, the trimmed line is what stood behind the lock of the state slot
/// when this call released it.
pub fn handle_line(store: &SharedStateStore, line: &str) -> (outcome: Outcome)
    ensures
        allowed_for_line(line@, outcome),
        outcome == Outcome::Stored ==> store.stood_behind_lock(
            Slot::CurrentState,
            trimmed(line@),
        ),
{
    match classify(line) {
        FrameAction::Close => Outcome::Closed,
        FrameAction::Discard => Outcome::Discarded,
        FrameAction::Store(text) => outcome_of_write(store.set(Slot::CurrentState, text)),
    }
}

/// Handles the result of one read from a connection: the line that was read,
/// empty at the end of the stream, or the failure of the read. A line is
/// handled as [`handle_line`] handles it; a failed read ends the session and
/// leaves the store alone.
pub fn handle_read(store: &SharedStateStore, read: Result<&str, ReadFailure>) -> (outcome: Outcome)
    ensures
        match read {
            Ok(line) => {
                &&& allowed_for_line(line@, outcome)
                &&& outcome == Outcome::Stored ==> store.stood_behind_lock(
                    Slot::CurrentState,
                    trimmed(line@),
                )
            },
            Err(_) => outcome == Outcome::ReadFailed,
        },
{
    match read {
        Ok(line) => handle_line(store, line),
        Err(_) => Outcome::ReadFailed,
    }
}

} // verus!
