//! Byte-string search: what it means for a needle to occur in a haystack,
//! and the searches that the sniffer relies on.

use vstd::prelude::*;

verus! {

/// `needle` occurs in `hay` at offset `i`.
pub open spec fn occurs_at(hay: Seq<u8>, needle: Seq<u8>, i: int) -> bool {
    &&& 0 <= i
    &&& i + needle.len() <= hay.len()
    &&& hay.subrange(i, i + needle.len()) == needle
}

/// `needle` occurs in `hay` at offset `i` and at no smaller offset.
pub open spec fn is_first_occurrence(hay: Seq<u8>, needle: Seq<u8>, i: int) -> bool {
    &&& occurs_at(hay, needle, i)
    &&& forall|j: int| 0 <= j < i ==> !occurs_at(hay, needle, j)
}

/// `needle` occurs somewhere in `hay`.
pub open spec fn occurs(hay: Seq<u8>, needle: Seq<u8>) -> bool {
    exists|i: int| occurs_at(hay, needle, i)
}

/// The offset of the first occurrence of `needle` in `hay`, if there is one.
pub open spec fn spec_find(hay: Seq<u8>, needle: Seq<u8>) -> Option<int> {
    if exists|i: int| is_first_occurrence(hay, needle, i) {
        Some(choose|i: int| is_first_occurrence(hay, needle, i))
    } else {
        None
    }
}

/// `end` is where a value that begins at `start` stops: at the first `stop`
/// byte at or after `start`, or at the end of `hay` where there is none.
pub open spec fn is_run_end(hay: Seq<u8>, stop: u8, start: int, end: int) -> bool {
    &&& start <= end <= hay.len()
    &&& forall|k: int| start <= k < end ==> hay[k] != stop
    &&& end < hay.len() ==> hay[end] == stop
}

/// The end of the run of bytes other than `stop` that begins at `start`.
pub open spec fn spec_run_end(hay: Seq<u8>, stop: u8, start: int) -> int {
    choose|end: int| is_run_end(hay, stop, start, end)
}

/// A first occurrence is the one that `spec_find` names.
pub proof fn lemma_first_occurrence_is_found(hay: Seq<u8>, needle: Seq<u8>, i: int)
    requires
        is_first_occurrence(hay, needle, i),
    ensures
        spec_find(hay, needle) == Some(i),
{
    let c = choose|c: int| is_first_occurrence(hay, needle, c);
    assert(is_first_occurrence(hay, needle, c));
    if c < i {
        assert(!occurs_at(hay, needle, c));
    }
    if i < c {
        assert(!occurs_at(hay, needle, i));
    }
}

/// Where the needle occurs nowhere, `spec_find` names nothing.
pub proof fn lemma_absent_is_not_found(hay: Seq<u8>, needle: Seq<u8>)
    requires
        !occurs(hay, needle),
    ensures
        spec_find(hay, needle) is None,
{
    assert forall|i: int| !is_first_occurrence(hay, needle, i) by {
        if is_first_occurrence(hay, needle, i) {
            assert(occurs_at(hay, needle, i));
        }
    }
}

/// A run has one end only.
pub proof fn lemma_run_end_is_unique(hay: Seq<u8>, stop: u8, start: int, end: int)
    requires
        is_run_end(hay, stop, start, end),
    ensures
        spec_run_end(hay, stop, start) == end,
{
    let c = spec_run_end(hay, stop, start);
    assert(is_run_end(hay, stop, start, c));
    if c < end {
        assert(hay[c] != stop);
    }
    if end < c {
        assert(hay[end] != stop);
    }
}

/// Every run has an end: scanning on from `from`, with no `stop` byte
/// between `start` and `from`.
pub proof fn lemma_run_end_exists(hay: Seq<u8>, stop: u8, start: int, from: int)
    requires
        0 <= start <= from <= hay.len(),
        forall|k: int| start <= k < from ==> hay[k] != stop,
    ensures
        exists|end: int| is_run_end(hay, stop, start, end),
    decreases hay.len() - from,
{
    if from == hay.len() || hay[from] == stop {
        assert(is_run_end(hay, stop, start, from));
    } else {
        lemma_run_end_exists(hay, stop, start, from + 1);
    }
}

/// Calls `memchr::memmem::find`, which returns the index of the first
/// occurrence of the needle in the haystack, and `None` where the needle
/// does not occur. An empty needle occurs at index 0.
#[verifier::external_body]
pub(crate) fn find_bytes(haystack: &[u8], needle: &[u8]) -> (r: Option<usize>)
    ensures
        match r {
            Some(i) => is_first_occurrence(haystack@, needle@, i as int),
            None => !occurs(haystack@, needle@),
        },
{
    memchr::memmem::find(haystack, needle)
}

/// Calls `memchr::memchr`, which returns the index of the first byte of the
/// haystack that equals the needle, and `None` where no byte does.
#[verifier::external_body]
pub(crate) fn find_byte(needle: u8, haystack: &[u8]) -> (r: Option<usize>)
    ensures
        match r {
            Some(i) => {
                &&& i < haystack@.len()
                &&& haystack@[i as int] == needle
                &&& forall|j: int| 0 <= j < i ==> haystack@[j] != needle
            },
            None => forall|j: int| 0 <= j < haystack@.len() ==> haystack@[j] != needle,
        },
{
    memchr::memchr(needle, haystack)
}

} // verus!
