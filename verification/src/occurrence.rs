//! Where a pattern stands in a text, and when joining two texts brings no
//! new occurrence of it.

use vstd::prelude::*;

verus! {

/// Whether `pattern` stands in `text` at position `at`.
pub open spec fn occurs_at(text: Seq<char>, pattern: Seq<char>, at: int) -> bool {
    &&& 0 <= at
    &&& at + pattern.len() <= text.len()
    &&& forall|j: int| 0 <= j < pattern.len() ==> text[at + j] == #[trigger] pattern[j]
}

/// Whether `pattern` stands somewhere in `text`.
pub open spec fn contains(text: Seq<char>, pattern: Seq<char>) -> bool {
    exists|at: int| occurs_at(text, pattern, at)
}

/// Whether `c` differs from every character of `pattern` but the first: no
/// occurrence of `pattern` that has begun goes on with `c`.
pub open spec fn stops(c: char, pattern: Seq<char>) -> bool {
    forall|j: int| 1 <= j < pattern.len() ==> #[trigger] pattern[j] != c
}

/// Whether `text` itself shows that `pattern` does not stand at `at`: one of
/// its characters there differs from the pattern's.
pub open spec fn mismatch_at(text: Seq<char>, pattern: Seq<char>, at: int) -> bool {
    exists|j: int|
        0 <= j < pattern.len() && at + j < text.len() && text[at + j] != #[trigger] pattern[j]
}

/// Whether no occurrence of `pattern` can begin in `text`, whatever follows it.
pub open spec fn closed_to(text: Seq<char>, pattern: Seq<char>) -> bool {
    forall|at: int| 0 <= at < text.len() ==> #[trigger] mismatch_at(text, pattern, at)
}

/// A text without the first character of a pattern is closed to the pattern.
pub proof fn without_first_char_closed(text: Seq<char>, pattern: Seq<char>)
    requires
        pattern.len() > 0,
        forall|i: int| 0 <= i < text.len() ==> #[trigger] text[i] != pattern[0],
    ensures
        closed_to(text, pattern),
{
    assert forall|at: int| 0 <= at < text.len() implies #[trigger] mismatch_at(
        text,
        pattern,
        at,
    ) by {
        assert(text[at + 0] != pattern[0]);
    }
}

/// A text that is closed to a pattern does not hold it.
pub proof fn closed_is_free(text: Seq<char>, pattern: Seq<char>)
    requires
        closed_to(text, pattern),
        pattern.len() > 0,
    ensures
        !contains(text, pattern),
{
    assert forall|at: int| !occurs_at(text, pattern, at) by {
        if occurs_at(text, pattern, at) {
            assert(mismatch_at(text, pattern, at));
        }
    }
}

/// Joining a text that is closed to the pattern with one that does not hold
/// it gives a text that does not hold it.
pub proof fn closed_then_free(head: Seq<char>, tail: Seq<char>, pattern: Seq<char>)
    requires
        closed_to(head, pattern),
        !contains(tail, pattern),
    ensures
        !contains(head + tail, pattern),
{
    let joined = head + tail;
    assert forall|at: int| !occurs_at(joined, pattern, at) by {
        if occurs_at(joined, pattern, at) {
            if at < head.len() {
                assert(mismatch_at(head, pattern, at));
                assert(false);
            } else {
                assert forall|j: int| 0 <= j < pattern.len() implies tail[at - head.len() + j]
                    == #[trigger] pattern[j] by {}
                assert(occurs_at(tail, pattern, at - head.len()));
                assert(false);
            }
        }
    }
}

/// Joining two texts that do not hold the pattern gives one that does not
/// hold it either, where the second is empty or begins with a character that
/// stops the pattern.
pub proof fn free_then_stopped(head: Seq<char>, tail: Seq<char>, pattern: Seq<char>)
    requires
        !contains(head, pattern),
        !contains(tail, pattern),
        tail.len() > 0 ==> stops(tail[0], pattern),
    ensures
        !contains(head + tail, pattern),
{
    let joined = head + tail;
    assert forall|at: int| !occurs_at(joined, pattern, at) by {
        if occurs_at(joined, pattern, at) {
            if at >= head.len() {
                assert forall|j: int| 0 <= j < pattern.len() implies tail[at - head.len() + j]
                    == #[trigger] pattern[j] by {}
                assert(occurs_at(tail, pattern, at - head.len()));
                assert(false);
            } else if at + pattern.len() <= head.len() {
                assert forall|j: int| 0 <= j < pattern.len() implies head[at + j]
                    == #[trigger] pattern[j] by {}
                assert(occurs_at(head, pattern, at));
                assert(false);
            } else {
                let j = head.len() - at;
                assert(pattern[j] != tail[0]);
                assert(false);
            }
        }
    }
}

/// What stands in a text stands in it when another text follows.
pub proof fn stays_before(text: Seq<char>, after: Seq<char>, pattern: Seq<char>)
    requires
        contains(text, pattern),
    ensures
        contains(text + after, pattern),
{
    let at = choose|at: int| occurs_at(text, pattern, at);
    assert forall|j: int| 0 <= j < pattern.len() implies (text + after)[at + j]
        == #[trigger] pattern[j] by {}
    assert(occurs_at(text + after, pattern, at));
}

/// What stands in a text stands in it when another text goes before.
pub proof fn stays_after(before: Seq<char>, text: Seq<char>, pattern: Seq<char>)
    requires
        contains(text, pattern),
    ensures
        contains(before + text, pattern),
{
    let at = choose|at: int| occurs_at(text, pattern, at);
    assert forall|j: int| 0 <= j < pattern.len() implies (before + text)[before.len() + at + j]
        == #[trigger] pattern[j] by {}
    assert(occurs_at(before + text, pattern, before.len() + at));
}

} // verus!
