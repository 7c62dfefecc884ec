//! Histories: a model of what the two slots hold after any sequence of
//! requests.
//!
//! This file holds no executable code. It is tied to the code in three
//! places:
//!
//! - a line is stored, dropped or taken as the end of the session as
//!   [`action_of`] says, which is the contract of `frame::classify` and of
//!   `ingest::handle_line`;
//! - the text that a write leaves in its slot, and the reply to a read of a
//!   slot that holds a given text, are the ones that the contracts of
//!   `ingest::handle_line`, `query::update_scores`, `query::get_state` and
//!   `query::get_scores` name: [`law_steps_are_what_the_contracts_name`];
//! - a store is made with the contents [`fresh`]:
//!   `SharedStateStore::initial_contents`.
//!
//! What the model adds is the order. The contracts of the code speak of one
//! operation and of the text behind one lock while it is held. That a lock
//! lets one caller in at a time, so that the operations on a slot take effect
//! one after the other, and that a slot keeps its text between two holders,
//! is the promise of the lock and is proved nowhere in this crate. Under that
//! promise a history is the order in which the requests took their locks; a
//! request that met a failed lock changed nothing and is left out. The laws
//! of this file hold of every history, and so of every way in which
//! concurrent callers can interleave.

use crate::frame::action_of;
use crate::frame::is_blank;
use crate::frame::is_heartbeat_text;
use crate::frame::is_whitespace_char;
use crate::frame::lemma_heartbeat_text_is_clean;
use crate::frame::lemma_trimmed_cuts_blank_tail;
use crate::frame::lemma_trimmed_empty_iff_blank;
use crate::frame::trimmed;
use crate::frame::Action;
use crate::ingest::allowed_for_line;
use crate::ingest::Outcome;
use crate::query::success;
use crate::query::ReplyView;
use vstd::prelude::*;

verus! {

/// What the two slots hold at one moment.
pub struct Contents {
    pub state: Seq<char>,
    pub scores: Seq<char>,
}

/// One request as it reaches the store.
pub enum Request {
    /// A line that an ingestion connection read, its newline included.
    Line(Seq<char>),
    /// A read of the current state.
    ReadState,
    /// A read of the current scores.
    ReadScores,
    /// A write of the current scores, with the body of the request.
    WriteScores(Seq<char>),
}

/// The contents of a store that was just made.
pub open spec fn fresh() -> Contents {
    Contents { state: Seq::empty(), scores: Seq::empty() }
}

/// The contents after one request. A line to store replaces the state, a
/// write of the scores replaces the scores, and nothing else changes
/// anything.
pub open spec fn after(before: Contents, request: Request) -> Contents {
    match request {
        Request::Line(line) => match action_of(line) {
            Action::Store(text) => Contents { state: text, scores: before.scores },
            _ => before,
        },
        Request::WriteScores(body) => Contents { state: before.state, scores: body },
        _ => before,
    }
}

/// What the sender of a request is sent back, given the contents that the
/// request met. A line is never answered.
pub open spec fn reply_to(met: Contents, request: Request) -> Option<ReplyView> {
    match request {
        Request::Line(_) => None,
        Request::ReadState => Some(success(met.state)),
        Request::ReadScores => Some(success(met.scores)),
        Request::WriteScores(_) => Some(success(Seq::empty())),
    }
}

/// The contents after a whole history, taken from its first request to its
/// last.
pub open spec fn after_all(before: Contents, history: Seq<Request>) -> Contents
    decreases history.len(),
{
    if history.len() == 0 {
        before
    } else {
        after(after_all(before, history.drop_last()), history.last())
    }
}

/// Whether a request is a line whose text is stored.
pub open spec fn stores_state(request: Request) -> bool {
    request matches Request::Line(line) && action_of(line) is Store
}

/// Each step of the model is the one the code states of itself: a stored
/// line leaves its trimmed text in the state slot and nothing else changes, a
/// write of the scores leaves its body in the scores slot and nothing else
/// changes, and a read is answered with the text of its slot and changes
/// nothing.
pub proof fn law_steps_are_what_the_contracts_name(before: Contents, line: Seq<char>, body: Seq<char>)
    ensures
        stores_state(Request::Line(line)) ==> after(before, Request::Line(line)) == (Contents {
            state: trimmed(line),
            scores: before.scores,
        }),
        !stores_state(Request::Line(line)) ==> after(before, Request::Line(line)) == before,
        after(before, Request::WriteScores(body)) == (Contents {
            state: before.state,
            scores: body,
        }),
        reply_to(before, Request::WriteScores(body)) == Some(success(Seq::empty())),
        reply_to(before, Request::ReadState) == Some(success(before.state)),
        reply_to(before, Request::ReadScores) == Some(success(before.scores)),
        after(before, Request::ReadState) == before,
        after(before, Request::ReadScores) == before,
{
}

/// A text that is not empty, does not end in whitespace and is no heartbeat
/// is read back exactly as it was sent, whatever newline or other
/// whitespace closed its line, and whatever the store held before.
pub proof fn law_sent_text_is_read_back(before: Contents, text: Seq<char>, tail: Seq<char>)
    requires
        text.len() > 0,
        !is_whitespace_char(text.last()),
        !is_heartbeat_text(text),
        is_blank(tail),
    ensures
        action_of(text + tail) == Action::Store(text),
        after(before, Request::Line(text + tail)).state == text,
        reply_to(after(before, Request::Line(text + tail)), Request::ReadState) == Some(
            success(text),
        ),
        forall|outcome: Outcome| #[trigger]
            allowed_for_line(text + tail, outcome) ==> !outcome.is_final(),
{
    lemma_trimmed_cuts_blank_tail(text, tail);
}

/// A heartbeat, in any letter case and with any whitespace after it, changes
/// nothing in the store and keeps the session open.
pub proof fn law_heartbeat_changes_nothing(before: Contents, text: Seq<char>, tail: Seq<char>)
    requires
        is_heartbeat_text(text),
        is_blank(tail),
    ensures
        action_of(text + tail) == Action::Discard,
        after(before, Request::Line(text + tail)) == before,
        forall|outcome: Outcome| #[trigger]
            allowed_for_line(text + tail, outcome) ==> outcome == Outcome::Discarded,
{
    lemma_heartbeat_text_is_clean(text);
    lemma_trimmed_cuts_blank_tail(text, tail);
}

/// A line that holds nothing, or nothing but whitespace, ends the session
/// and changes nothing in the store.
pub proof fn law_blank_line_ends_session(before: Contents, line: Seq<char>)
    requires
        is_blank(line),
    ensures
        action_of(line) == Action::Close,
        after(before, Request::Line(line)) == before,
        forall|outcome: Outcome| #[trigger]
            allowed_for_line(line, outcome) ==> outcome == Outcome::Closed && outcome.is_final(),
{
    lemma_trimmed_empty_iff_blank(line);
}

/// A read changes nothing, and a line never changes the scores, nor a write
/// of the scores the state.
pub proof fn law_slots_are_independent(before: Contents, request: Request)
    ensures
        request is ReadState || request is ReadScores ==> after(before, request) == before,
        request is Line ==> after(before, request).scores == before.scores,
        request is WriteScores ==> after(before, request).state == before.state,
{
}

/// The scores that were written are the scores that are read next.
pub proof fn law_written_scores_are_read_back(before: Contents, body: Seq<char>)
    ensures
        reply_to(before, Request::WriteScores(body)) == Some(success(Seq::empty())),
        reply_to(after(before, Request::WriteScores(body)), Request::ReadScores) == Some(
            success(body),
        ),
{
}

/// The last write wins: after any history, the scores are the body of the
/// write of the scores that came last, whatever reads, lines and earlier
/// writes stand around it.
pub proof fn law_last_scores_write_wins(
    before: Contents,
    history: Seq<Request>,
    last: int,
    body: Seq<char>,
)
    requires
        0 <= last < history.len(),
        history[last] == Request::WriteScores(body),
        forall|j: int| last < j < history.len() ==> !(#[trigger] history[j] is WriteScores),
    ensures
        after_all(before, history).scores == body,
        reply_to(after_all(before, history), Request::ReadScores) == Some(success(body)),
    decreases history.len(),
{
    if last < history.len() - 1 {
        let earlier = history.drop_last();
        assert(earlier[last] == history[last]);
        assert forall|j: int| last < j < earlier.len() implies !(#[trigger] earlier[j]
            is WriteScores) by {
            assert(earlier[j] == history[j]);
        }
        law_last_scores_write_wins(before, earlier, last, body);
        assert(!(history[history.len() - 1] is WriteScores));
    }
}

/// The last write wins: after any history, the state is the trimmed text of
/// the stored line that came last, from whichever connection it came.
pub proof fn law_last_stored_line_wins(
    before: Contents,
    history: Seq<Request>,
    last: int,
    line: Seq<char>,
)
    requires
        0 <= last < history.len(),
        history[last] == Request::Line(line),
        stores_state(history[last]),
        forall|j: int| last < j < history.len() ==> !stores_state(#[trigger] history[j]),
    ensures
        after_all(before, history).state == trimmed(line),
        reply_to(after_all(before, history), Request::ReadState) == Some(success(trimmed(line))),
    decreases history.len(),
{
    if last < history.len() - 1 {
        let earlier = history.drop_last();
        assert(earlier[last] == history[last]);
        assert forall|j: int| last < j < earlier.len() implies !stores_state(
            #[trigger] earlier[j],
        ) by {
            assert(earlier[j] == history[j]);
        }
        law_last_stored_line_wins(before, earlier, last, line);
        assert(!stores_state(history[history.len() - 1]));
    }
}

/// A history without a stored line leaves the state as it was, and one
/// without a write of the scores leaves the scores as they were.
pub proof fn law_untouched_slot_keeps_its_text(before: Contents, history: Seq<Request>)
    ensures
        (forall|j: int| 0 <= j < history.len() ==> !stores_state(#[trigger] history[j]))
            ==> after_all(before, history).state == before.state,
        (forall|j: int| 0 <= j < history.len() ==> !(#[trigger] history[j] is WriteScores))
            ==> after_all(before, history).scores == before.scores,
    decreases history.len(),
{
    if history.len() > 0 {
        let earlier = history.drop_last();
        law_untouched_slot_keeps_its_text(before, earlier);
        if forall|j: int| 0 <= j < history.len() ==> !stores_state(#[trigger] history[j]) {
            assert forall|j: int| 0 <= j < earlier.len() implies !stores_state(
                #[trigger] earlier[j],
            ) by {
                assert(earlier[j] == history[j]);
            }
            assert(!stores_state(history[history.len() - 1]));
        }
        if forall|j: int| 0 <= j < history.len() ==> !(#[trigger] history[j] is WriteScores) {
            assert forall|j: int| 0 <= j < earlier.len() implies !(#[trigger] earlier[j]
                is WriteScores) by {
                assert(earlier[j] == history[j]);
            }
            assert(!(history[history.len() - 1] is WriteScores));
        }
    }
}

/// No read sees a mixture of two writes: after any history, each slot holds
/// the text it held before, or the whole text of one write in the history.
pub proof fn law_slot_holds_one_whole_write(before: Contents, history: Seq<Request>)
    ensures
        after_all(before, history).state == before.state || exists|i: int|
            0 <= i < history.len() && #[trigger] history[i] is Line && after_all(
                before,
                history,
            ).state == trimmed(history[i]->Line_0),
        after_all(before, history).scores == before.scores || exists|i: int|
            0 <= i < history.len() && #[trigger] history[i] == Request::WriteScores(
                after_all(before, history).scores,
            ),
    decreases history.len(),
{
    if history.len() > 0 {
        let earlier = history.drop_last();
        let end = history.len() - 1;
        let mid = after_all(before, earlier);
        let now = after_all(before, history);
        law_slot_holds_one_whole_write(before, earlier);
        if stores_state(history[end]) {
            assert(history[end] is Line && now.state == trimmed(history[end]->Line_0));
        } else if mid.state != before.state {
            let i = choose|i: int|
                0 <= i < earlier.len() && #[trigger] earlier[i] is Line && mid.state == trimmed(
                    earlier[i]->Line_0,
                );
            assert(history[i] == earlier[i]);
            assert(history[i] is Line && now.state == trimmed(history[i]->Line_0));
        }
        if history[end] is WriteScores {
            assert(history[end] == Request::WriteScores(now.scores));
        } else if mid.scores != before.scores {
            let i = choose|i: int|
                0 <= i < earlier.len() && #[trigger] earlier[i] == Request::WriteScores(
                    mid.scores,
                );
            assert(history[i] == earlier[i]);
            assert(history[i] == Request::WriteScores(now.scores));
        }
    }
}

/// Before any write, both slots are read as the empty text, with success.
pub proof fn law_fresh_store_reads_empty()
    ensures
        reply_to(fresh(), Request::ReadState) == Some(success(Seq::empty())),
        reply_to(fresh(), Request::ReadScores) == Some(success(Seq::empty())),
{
}

} // verus!
