//! The query side: the three operations that clients call, and the replies
//! they get.

use crate::store::LockFailure;
use crate::store::SharedStateStore;
use crate::store::Slot;
use vstd::prelude::*;

verus! {

/// The status of a reply.
#[derive(Debug, Clone, Copy, PartialEq, Eq, Structural)]
pub enum Status {
    /// The operation was carried out.
    Success,
    /// The store could not be reached.
    ServerError,
}

impl Status {
    /// The number that stands for a status in HTTP.
    pub open spec fn spec_code(self) -> u16 {
        match self {
            Status::Success => 200,
            Status::ServerError => 500,
        }
    }

    /// The number that stands for this status in HTTP.
    pub fn code(&self) -> (n: u16)
        ensures
            n == self.spec_code(),
    {
        match self {
            Status::Success => 200,
            Status::ServerError => 500,
        }
    }
}

/// A reply as a value of the model.
pub struct ReplyView {
    pub status: Status,
    pub body: Seq<char>,
}

/// The reply to an operation that was carried out.
pub open spec fn success(body: Seq<char>) -> ReplyView {
    ReplyView { status: Status::Success, body }
}

/// The reply to an operation that could not reach the store.
pub open spec fn failure() -> ReplyView {
    ReplyView { status: Status::ServerError, body: "Error"@ }
}

/// The reply to a write, given what the store returned.
pub open spec fn write_reply(outcome: Result<(), LockFailure>) -> ReplyView {
    match outcome {
        Ok(_) => success(Seq::empty()),
        Err(_) => failure(),
    }
}

/// What a client is sent back: a status and a body of raw text.
#[derive(Debug, Clone, PartialEq, Eq)]
pub struct Reply {
    pub status: Status,
    pub body: String,
}

impl View for Reply {
    type V = ReplyView;

    open spec fn view(&self) -> ReplyView {
        ReplyView { status: self.status, body: self.body@ }
    }
}

/// The reply to a read: the text as it is, or a server error.
pub fn reply_to_read(outcome: Result<String, LockFailure>) -> (reply: Reply)
    ensures
        reply@ == match outcome {
            Ok(text) => success(text@),
            Err(_) => failure(),
        },
{
    match outcome {
        Ok(text) => Reply { status: Status::Success, body: text },
        Err(_) => Reply { status: Status::ServerError, body: "Error".to_owned() },
    }
}

/// The reply to a write: an empty body, or a server error.
pub fn reply_to_write(outcome: Result<(), LockFailure>) -> (reply: Reply)
    ensures
        reply@ == write_reply(outcome),
{
    match outcome {
        Ok(_) => Reply { status: Status::Success, body: String::new() },
        Err(_) => Reply { status: Status::ServerError, body: "Error".to_owned() },
    }
}

/// Reads the current state. The reply is a success or the server error,
/// as the lock of the state slot decides. The body of a success is the text
/// that stood behind that lock while this call held it, as it is.
pub fn get_state(store: &SharedStateStore) -> (reply: Reply)
    ensures
        reply.status == Status::Success || reply@ == failure(),
        reply.status == Status::Success ==> store.stood_behind_lock(
            Slot::CurrentState,
            reply.body@,
        ),
{
    reply_to_read(store.get(Slot::CurrentState))
}

/// Reads the current scores. The reply is a success or the server error,
/// as the lock of the scores slot decides. The body of a success is the text
/// that stood behind that lock while this call held it, as it is.
pub fn get_scores(store: &SharedStateStore) -> (reply: Reply)
    ensures
        reply.status == Status::Success || reply@ == failure(),
        reply.status == Status::Success ==> store.stood_behind_lock(
            Slot::CurrentScores,
            reply.body@,
        ),
{
    reply_to_read(store.get(Slot::CurrentScores))
}

/// Replaces the current scores by `body`, whatever it holds. The reply is
/// the empty success or the server error, as the lock of the scores slot
/// decides. After a success, `body` is what stood behind that lock when this
/// call released it.
pub fn update_scores(store: &SharedStateStore, body: String) -> (reply: Reply)
    ensures
        reply@ == success(Seq::empty()) || reply@ == failure(),
        reply.status == Status::Success ==> store.stood_behind_lock(Slot::CurrentScores, body@),
{
    reply_to_write(store.set(Slot::CurrentScores, body))
}

} // verus!
