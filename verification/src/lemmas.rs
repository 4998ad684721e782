//! What holds of the builder's operations, stated over its view.

use crate::builder::without_range;
use vstd::prelude::*;

verus! {

/// The content after each of `parts` has been appended in turn to `start`.
pub open spec fn appended_all(start: Seq<char>, parts: Seq<Seq<char>>) -> Seq<char>
    decreases parts.len(),
{
    if parts.len() == 0 {
        start
    } else {
        appended_all(start, parts.drop_last()) + parts.last()
    }
}

/// The lengths of `parts`, added up.
pub open spec fn total_len(parts: Seq<Seq<char>>) -> nat
    decreases parts.len(),
{
    if parts.len() == 0 {
        0
    } else {
        total_len(parts.drop_last()) + parts.last().len()
    }
}

/// A run of appends leaves what was there, followed by the appended texts
/// joined in the order of the calls.
pub proof fn lemma_appends_concatenate(start: Seq<char>, parts: Seq<Seq<char>>)
    ensures
        appended_all(start, parts) == start + parts.flatten(),
    decreases parts.len(),
{
    if parts.len() > 0 {
        let front = parts.drop_last();
        lemma_appends_concatenate(start, front);
        front.lemma_flatten_push(parts.last());
        assert(front.push(parts.last()) =~= parts);
    }
}

/// A run of appends makes the content longer by the lengths of the appended
/// texts, added up.
pub proof fn lemma_appends_add_lengths(start: Seq<char>, parts: Seq<Seq<char>>)
    ensures
        appended_all(start, parts).len() == start.len() + total_len(parts),
    decreases parts.len(),
{
    if parts.len() > 0 {
        lemma_appends_add_lengths(start, parts.drop_last());
    }
}

/// Deleting `start..end` shortens the content by `end - start`, keeps what
/// stood before `start` in place, and moves what stood from `end` on down to
/// `start`, in the same order.
pub proof fn lemma_delete_removes_range(s: Seq<char>, start: int, end: int)
    requires
        0 <= start < end <= s.len(),
    ensures
        without_range(s, start, end).len() == s.len() - (end - start),
        forall|i: int| 0 <= i < start ==> without_range(s, start, end)[i] == s[i],
        forall|i: int|
            start <= i < s.len() - (end - start) ==> without_range(s, start, end)[i] == s[i + (end
                - start)],
{
}

/// Putting the deleted scalar values back where they stood restores the
/// content.
pub proof fn lemma_reinsert_restores(s: Seq<char>, start: int, end: int)
    requires
        0 <= start < end <= s.len(),
    ensures
        ({
            let rest = without_range(s, start, end);
            rest.subrange(0, start) + s.subrange(start, end) + rest.subrange(
                start,
                rest.len() as int,
            ) == s
        }),
{
}

/// Deleting the tail from `start` on and appending that tail again restores
/// the content.
pub proof fn lemma_delete_tail_then_append(s: Seq<char>, start: int)
    requires
        0 <= start < s.len(),
    ensures
        without_range(s, start, s.len() as int) + s.subrange(start, s.len() as int) == s,
{
}

/// Deleting the one position `index` is removing the element at `index`.
pub proof fn lemma_delete_one_is_remove(s: Seq<char>, index: int)
    requires
        0 <= index < s.len(),
    ensures
        without_range(s, index, index + 1) == s.remove(index),
{
}

} // verus!
