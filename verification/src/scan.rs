//! Finding one run of bytes inside another.

use vstd::prelude::*;

verus! {

/// Whether `needle` stands in `hay` at position `at`.
pub open spec fn occurs_at(hay: Seq<u8>, needle: Seq<u8>, at: int) -> bool {
    0 <= at && at + needle.len() <= hay.len() && hay.subrange(at, at + needle.len()) == needle
}

/// The first position at or after `from` at which `needle` stands in `hay`.
pub open spec fn find_from(hay: Seq<u8>, needle: Seq<u8>, from: int) -> Option<int>
    decreases hay.len() + 1 - from,
{
    if from < 0 || from + needle.len() > hay.len() {
        None
    } else if occurs_at(hay, needle, from) {
        Some(from)
    } else {
        find_from(hay, needle, from + 1)
    }
}

/// A position as a number of the mathematical kind.
pub open spec fn position_view(found: Option<usize>) -> Option<int> {
    match found {
        Some(at) => Some(at as int),
        None => None,
    }
}

/// What `find_from` finds is the least position from `from` on at which the needle
/// stands; it finds nothing only where the needle stands at no such position.
pub proof fn lemma_find_from(hay: Seq<u8>, needle: Seq<u8>, from: int)
    requires
        0 <= from,
    ensures
        match find_from(hay, needle, from) {
            Some(at) => from <= at && occurs_at(hay, needle, at) && forall|i: int|
                from <= i < at ==> !occurs_at(hay, needle, i),
            None => forall|i: int| from <= i ==> !occurs_at(hay, needle, i),
        },
    decreases hay.len() + 1 - from,
{
    if from + needle.len() <= hay.len() && !occurs_at(hay, needle, from) {
        lemma_find_from(hay, needle, from + 1);
    }
}

/// The least position from `from` on at which the needle stands is what `find_from`
/// finds.
pub proof fn lemma_find_from_is(hay: Seq<u8>, needle: Seq<u8>, from: int, at: int)
    requires
        0 <= from <= at,
        occurs_at(hay, needle, at),
        forall|i: int| from <= i < at ==> !occurs_at(hay, needle, i),
    ensures
        find_from(hay, needle, from) == Some(at),
    decreases at - from,
{
    if from < at {
        lemma_find_from_is(hay, needle, from + 1, at);
    }
}

/// Whether `needle` stands in `hay` at position `at`.
pub fn stands_at(hay: &[u8], needle: &[u8], at: usize) -> (stands: bool)
    ensures
        stands == occurs_at(hay@, needle@, at as int),
{
    if needle.len() > hay.len() || at > hay.len() - needle.len() {
        return false;
    }
    let mut i: usize = 0;
    while i < needle.len()
        invariant
            i <= needle.len(),
            at + needle.len() <= hay.len(),
            forall|j: int| 0 <= j < i ==> hay@[at + j] == needle@[j],
        decreases needle.len() - i,
    {
        if hay[at + i] != needle[i] {
            assert(hay@.subrange(at as int, at + needle.len())[i as int] != needle@[i as int]);
            return false;
        }
        i = i + 1;
    }
    assert(hay@.subrange(at as int, at + needle.len()) =~= needle@);
    true
}

/// The first position at or after `from` at which `needle` stands in `hay`.
pub fn find(hay: &[u8], needle: &[u8], from: usize) -> (found: Option<usize>)
    ensures
        position_view(found) == find_from(hay@, needle@, from as int),
        found matches Some(at) ==> from <= at && at + needle.len() <= hay.len(),
{
    if needle.len() > hay.len() || from > hay.len() - needle.len() {
        return None;
    }
    let last = hay.len() - needle.len();
    let mut at = from;
    while at < last
        invariant
            from <= at <= last,
            last + needle.len() == hay.len(),
            find_from(hay@, needle@, from as int) == find_from(hay@, needle@, at as int),
        decreases last - at,
    {
        if stands_at(hay, needle, at) {
            return Some(at);
        }
        at = at + 1;
    }
    if stands_at(hay, needle, at) {
        Some(at)
    } else {
        assert(find_from(hay@, needle@, at + 1) == None::<int>);
        None
    }
}

} // verus!
