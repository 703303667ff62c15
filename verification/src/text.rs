//! Texts as sequences of characters.

use vstd::prelude::*;

verus! {

/// `part` stands somewhere in `text`, unbroken.
pub open spec fn contains_text(text: Seq<char>, part: Seq<char>) -> bool {
    exists|start: int|
        0 <= start && start + part.len() <= text.len() && #[trigger] text.subrange(
            start,
            start + part.len(),
        ) == part
}

/// A text that is put together from two holds the second of them.
pub proof fn lemma_joined_contains_tail(head: Seq<char>, tail: Seq<char>)
    ensures
        contains_text(head + tail, tail),
{
    let joined = head + tail;
    let start = head.len() as int;
    assert(joined.subrange(start, start + tail.len()) =~= tail);
}

} // verus!
