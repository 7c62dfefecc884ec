//! The text rules of the line protocol: what counts as whitespace, what is
//! left of a line once its end is trimmed, which frames are heartbeats, and
//! what a connection does with each line it receives.

use vstd::prelude::*;
use vstd::std_specs::iter::IteratorSpec;

verus! {

/// The heartbeat payload. A sender repeats it to keep its connection alive;
/// it is recognised in any letter case and never stored.
pub const SENTINEL: &'static str = "{\"type\":\"dummy\"}";

/// The characters of the heartbeat payload.
pub open spec fn sentinel() -> Seq<char> {
    "{\"type\":\"dummy\"}"@
}

/// The code points with the Unicode property `White_Space`.
pub open spec fn is_whitespace_char(c: char) -> bool {
    let n = c as u32;
    ||| 0x09 <= n <= 0x0D
    ||| n == 0x20
    ||| n == 0x85
    ||| n == 0xA0
    ||| n == 0x1680
    ||| 0x2000 <= n <= 0x200A
    ||| n == 0x2028
    ||| n == 0x2029
    ||| n == 0x202F
    ||| n == 0x205F
    ||| n == 0x3000
}

/// A text that holds nothing but whitespace; the empty text is blank.
pub open spec fn is_blank(s: Seq<char>) -> bool {
    forall|i: int| 0 <= i < s.len() ==> is_whitespace_char(#[trigger] s[i])
}

/// What is left of `s` once the whitespace at its end is removed: the
/// longest prefix of `s` that does not end in whitespace.
pub open spec fn trimmed(s: Seq<char>) -> Seq<char>
    decreases s.len(),
{
    if s.len() > 0 && is_whitespace_char(s.last()) {
        trimmed(s.drop_last())
    } else {
        s
    }
}

/// The code of `c`, with each ASCII capital mapped to its small letter.
pub open spec fn ascii_folded(c: char) -> u32 {
    if 'A' <= c <= 'Z' {
        (c as u32 + 32) as u32
    } else {
        c as u32
    }
}

/// Equality of two texts up to the case of their ASCII letters.
pub open spec fn same_ignoring_ascii_case(a: Seq<char>, b: Seq<char>) -> bool {
    &&& a.len() == b.len()
    &&& forall|i: int| 0 <= i < a.len() ==> ascii_folded(#[trigger] a[i]) == ascii_folded(b[i])
}

/// Whether a trimmed frame is the heartbeat payload, in any letter case.
pub open spec fn is_heartbeat_text(candidate: Seq<char>) -> bool {
    same_ignoring_ascii_case(candidate, sentinel())
}

/// What a connection does with one line, as a value of the model.
pub enum Action {
    /// The line is blank: the session ends.
    Close,
    /// The line is a heartbeat: nothing is stored.
    Discard,
    /// The trimmed line becomes the current state.
    Store(Seq<char>),
}

/// What a connection does with the line `line`.
pub open spec fn action_of(line: Seq<char>) -> Action {
    let candidate = trimmed(line);
    if candidate.len() == 0 {
        Action::Close
    } else if is_heartbeat_text(candidate) {
        Action::Discard
    } else {
        Action::Store(candidate)
    }
}

/// What a connection does with one line.
#[derive(Debug, Clone, PartialEq, Eq)]
pub enum FrameAction {
    /// The line is blank: the session ends.
    Close,
    /// The line is a heartbeat: nothing is stored.
    Discard,
    /// The text becomes the current state.
    Store(String),
}

impl View for FrameAction {
    type V = Action;

    open spec fn view(&self) -> Action {
        match self {
            FrameAction::Close => Action::Close,
            FrameAction::Discard => Action::Discard,
            FrameAction::Store(text) => Action::Store(text@),
        }
    }
}

/// The trimmed text is a prefix of the text, does not end in whitespace, and
/// all that was cut off is whitespace.
pub proof fn lemma_trimmed_is_longest_clean_prefix(s: Seq<char>)
    ensures
        trimmed(s).len() <= s.len(),
        trimmed(s) == s.take(trimmed(s).len() as int),
        trimmed(s).len() > 0 ==> !is_whitespace_char(trimmed(s).last()),
        forall|i: int| trimmed(s).len() <= i < s.len() ==> is_whitespace_char(#[trigger] s[i]),
    decreases s.len(),
{
    if s.len() > 0 && is_whitespace_char(s.last()) {
        let shorter = s.drop_last();
        lemma_trimmed_is_longest_clean_prefix(shorter);
        let kept = trimmed(shorter).len() as int;
        assert(shorter.take(kept) =~= s.take(kept));
        assert forall|i: int| trimmed(s).len() <= i < s.len() implies is_whitespace_char(
            #[trigger] s[i],
        ) by {
            if i < shorter.len() {
                assert(shorter[i] == s[i]);
            }
        }
    } else {
        assert(s.take(s.len() as int) =~= s);
    }
}

/// A text is trimmed to nothing exactly when it is blank.
pub proof fn lemma_trimmed_empty_iff_blank(s: Seq<char>)
    ensures
        trimmed(s).len() == 0 <==> is_blank(s),
    decreases s.len(),
{
    if s.len() > 0 && is_whitespace_char(s.last()) {
        let shorter = s.drop_last();
        lemma_trimmed_empty_iff_blank(shorter);
        if is_blank(shorter) {
            assert forall|i: int| 0 <= i < s.len() implies is_whitespace_char(#[trigger] s[i]) by {
                if i < shorter.len() {
                    assert(shorter[i] == s[i]);
                }
            }
        }
        if is_blank(s) {
            assert forall|i: int| 0 <= i < shorter.len() implies is_whitespace_char(
                #[trigger] shorter[i],
            ) by {
                assert(shorter[i] == s[i]);
            }
        }
    } else if s.len() > 0 {
        assert(!is_whitespace_char(s[s.len() - 1]));
    }
}

/// Trimming cuts a blank tail off a text that does not itself end in
/// whitespace, and nothing more.
pub proof fn lemma_trimmed_cuts_blank_tail(text: Seq<char>, tail: Seq<char>)
    requires
        text.len() > 0 ==> !is_whitespace_char(text.last()),
        is_blank(tail),
    ensures
        trimmed(text + tail) == text,
    decreases tail.len(),
{
    let line = text + tail;
    if tail.len() == 0 {
        assert(line =~= text);
    } else {
        assert(line.last() == tail[tail.len() - 1]);
        assert(line.drop_last() =~= text + tail.drop_last());
        lemma_trimmed_cuts_blank_tail(text, tail.drop_last());
    }
}

/// A text that equals the heartbeat payload up to letter case is not empty
/// and does not end in whitespace.
pub proof fn lemma_heartbeat_text_is_clean(candidate: Seq<char>)
    requires
        is_heartbeat_text(candidate),
    ensures
        candidate.len() > 0,
        !is_whitespace_char(candidate.last()),
{
    reveal_strlit("{\"type\":\"dummy\"}");
    let last = candidate.len() - 1;
    assert(ascii_folded(candidate[last]) == ascii_folded(sentinel()[last]));
}

/// Tells whether `c` is whitespace.
pub fn is_whitespace(c: char) -> (b: bool)
    ensures
        b == is_whitespace_char(c),
{
    let n: u32 = c as u32;
    (0x09 <= n && n <= 0x0D) || n == 0x20 || n == 0x85 || n == 0xA0 || n == 0x1680 || (0x2000 <= n
        && n <= 0x200A) || n == 0x2028 || n == 0x2029 || n == 0x202F || n == 0x205F || n == 0x3000
}

/// Removes the whitespace at the end of `s`: the result is the prefix of `s`
/// that does not end in whitespace and leaves only whitespace behind.
pub fn trim_end(s: &str) -> (r: &str)
    ensures
        r@ == trimmed(s@),
        r@.len() <= s@.len(),
        r@ == s@.take(r@.len() as int),
        r@.len() > 0 ==> !is_whitespace_char(r@.last()),
        forall|i: int| r@.len() <= i < s@.len() ==> is_whitespace_char(#[trigger] s@[i]),
{
    let total: usize = s.unicode_len();
    let mut seen: usize = 0;
    let mut keep: usize = 0;
    let chars = s.chars();
    for c in it: chars
        invariant
            it.seq() == s@,
            seen == it.index(),
            keep <= seen <= total,
            total == s@.len(),
            trimmed(s@.take(seen as int)) == s@.take(keep as int),
    {
        proof {
            let longer = s@.take(seen + 1);
            assert(longer.last() == c);
            assert(longer.drop_last() =~= s@.take(seen as int));
        }
        seen = seen + 1;
        if !is_whitespace(c) {
            keep = seen;
        }
    }
    proof {
        assert(s@.take(seen as int) =~= s@);
        lemma_trimmed_is_longest_clean_prefix(s@);
    }
    s.substring_char(0, keep)
}

/// The code of `c`, with each ASCII capital mapped to its small letter.
pub fn ascii_fold(c: char) -> (n: u32)
    ensures
        n == ascii_folded(c),
{
    let code: u32 = c as u32;
    if 65 <= code && code <= 90 {
        code + 32
    } else {
        code
    }
}

/// Compares two texts, ignoring the case of their ASCII letters.
pub fn eq_ignore_ascii_case(a: &str, b: &str) -> (same: bool)
    ensures
        same == same_ignoring_ascii_case(a@, b@),
{
    let mut rest = b.chars();
    let chars = a.chars();
    for c in it: chars
        invariant
            it.seq() == a@,
            rest.remaining() == b@.skip(it.index()),
            it.index() <= b@.len(),
            forall|i: int|
                0 <= i < it.index() ==> ascii_folded(#[trigger] a@[i]) == ascii_folded(b@[i]),
    {
        match rest.next() {
            None => {
                return false;
            },
            Some(d) => {
                if ascii_fold(c) != ascii_fold(d) {
                    return false;
                }
            },
        }
    }
    rest.next().is_none()
}

/// Tells whether a trimmed frame is the heartbeat payload, in any letter case.
pub fn is_heartbeat(candidate: &str) -> (b: bool)
    ensures
        b == is_heartbeat_text(candidate@),
{
    eq_ignore_ascii_case(candidate, SENTINEL)
}

/// Decides what a connection does with the line `line`, which may still end
/// in its newline.
pub fn classify(line: &str) -> (action: FrameAction)
    ensures
        action@ == action_of(line@),
{
    let candidate = trim_end(line);
    if candidate.is_empty() {
        FrameAction::Close
    } else if is_heartbeat(candidate) {
        FrameAction::Discard
    } else {
        FrameAction::Store(candidate.to_owned())
    }
}

} // verus!
