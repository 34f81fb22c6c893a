//! Texts within texts.

use vstd::prelude::*;

verus! {

/// Whether `part` occurs in `text`.
pub open spec fn mentions(text: Seq<char>, part: Seq<char>) -> bool {
    exists|at: int|
        0 <= at <= at + part.len() <= text.len() && #[trigger] text.subrange(at, at + part.len())
            == part
}

/// A text mentions itself.
pub proof fn mentions_itself(text: Seq<char>)
    ensures
        mentions(text, text),
{
    let at: int = 0;
    assert(text.subrange(at, at + text.len()) =~= text);
}

/// What a text mentions, a longer text that it is a part of mentions too.
pub proof fn mentioned_within(
    before: Seq<char>,
    text: Seq<char>,
    after: Seq<char>,
    part: Seq<char>,
)
    requires
        mentions(text, part),
    ensures
        mentions(before + text + after, part),
{
    let at = choose|at: int|
        0 <= at <= at + part.len() <= text.len() && #[trigger] text.subrange(at, at + part.len())
            == part;
    let whole = before + text + after;
    let there = before.len() + at;
    assert(whole.subrange(there, there + part.len()) =~= text.subrange(at, at + part.len()));
}

} // verus!
