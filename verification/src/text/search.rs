//! Looking for one text in another.
use vstd::prelude::*;
use vstd::slice::slice_subrange;

use crate::text::chars::{same_chars, to_chars};

verus! {

/// The text begins with the prefix.
pub open spec fn starts_with(text: Seq<char>, prefix: Seq<char>) -> bool {
    prefix.len() <= text.len() && text.take(prefix.len() as int) == prefix
}

/// The text ends with the suffix.
pub open spec fn ends_with(text: Seq<char>, suffix: Seq<char>) -> bool {
    suffix.len() <= text.len() && text.skip(text.len() - suffix.len()) == suffix
}

/// The needle stands in the text at the given place.
pub open spec fn occurs_at(text: Seq<char>, needle: Seq<char>, at: int) -> bool {
    0 <= at && at + needle.len() <= text.len() && text.subrange(at, at + needle.len()) == needle
}

/// The needle stands at the given place and at none before it.
pub open spec fn first_at(text: Seq<char>, needle: Seq<char>, at: int) -> bool {
    occurs_at(text, needle, at) && forall|j: int| 0 <= j < at ==> !occurs_at(text, needle, j)
}

/// The first place at which the needle stands in the text.
pub open spec fn find(text: Seq<char>, needle: Seq<char>) -> Option<int> {
    if exists|at: int| first_at(text, needle, at) {
        Some(choose|at: int| first_at(text, needle, at))
    } else {
        None
    }
}

/// The first place is the only one with nothing before it.
pub proof fn lemma_find_some(text: Seq<char>, needle: Seq<char>, at: int)
    requires
        first_at(text, needle, at),
    ensures
        find(text, needle) == Some(at),
{
    let found = choose|at: int| first_at(text, needle, at);
    assert(first_at(text, needle, found));
    if found < at {
        assert(!occurs_at(text, needle, found));
    }
    if at < found {
        assert(!occurs_at(text, needle, at));
    }
}

/// Without an occurrence there is no first one.
pub proof fn lemma_find_none(text: Seq<char>, needle: Seq<char>)
    requires
        forall|j: int| 0 <= j <= text.len() - needle.len() ==> !occurs_at(text, needle, j),
    ensures
        find(text, needle) is None,
{
    if exists|at: int| first_at(text, needle, at) {
        let at = choose|at: int| first_at(text, needle, at);
        assert(occurs_at(text, needle, at));
    }
}

/// What a found place is.
pub proof fn lemma_find(text: Seq<char>, needle: Seq<char>)
    ensures
        find(text, needle) matches Some(at) ==> first_at(text, needle, at) && 0 <= at <= text.len()
            - needle.len(),
{
}

/// Whether the slice begins with the prefix.
pub fn slice_starts_with(chars: &[char], prefix: &[char]) -> (out: bool)
    ensures
        out == starts_with(chars@, prefix@),
{
    if prefix.len() > chars.len() {
        return false;
    }
    assert(chars@.take(prefix@.len() as int) =~= chars@.subrange(0, prefix@.len() as int));
    same_chars(slice_subrange(chars, 0, prefix.len()), prefix)
}

/// Whether the slice ends with the suffix.
pub fn slice_ends_with(chars: &[char], suffix: &[char]) -> (out: bool)
    ensures
        out == ends_with(chars@, suffix@),
{
    if suffix.len() > chars.len() {
        return false;
    }
    let start: usize = chars.len() - suffix.len();
    assert(chars@.skip(start as int) =~= chars@.subrange(start as int, chars@.len() as int));
    same_chars(slice_subrange(chars, start, chars.len()), suffix)
}

/// Whether the slice ends with the suffix.
pub fn slice_ends_with_str(chars: &[char], suffix: &str) -> (out: bool)
    ensures
        out == ends_with(chars@, suffix@),
{
    let suffix_chars = to_chars(suffix);
    slice_ends_with(chars, suffix_chars.as_slice())
}

/// The first place at which the needle stands in the slice.
pub fn slice_find(chars: &[char], needle: &[char]) -> (out: Option<usize>)
    ensures
        match out {
            Some(at) => find(chars@, needle@) == Some(at as int) && at + needle@.len()
                <= chars@.len(),
            None => find(chars@, needle@) is None,
        },
{
    let mut at: usize = 0;
    while at <= chars.len() && needle.len() <= chars.len() - at
        invariant
            at <= chars@.len() + 1,
            forall|j: int| 0 <= j < at ==> !occurs_at(chars@, needle@, j),
        decreases chars@.len() + 1 - at,
    {
        if same_chars(slice_subrange(chars, at, at + needle.len()), needle) {
            proof {
                assert(first_at(chars@, needle@, at as int));
                lemma_find_some(chars@, needle@, at as int);
            }
            return Some(at);
        }
        assert(!occurs_at(chars@, needle@, at as int));
        if at == chars.len() {
            proof {
                lemma_find_none(chars@, needle@);
            }
            return None;
        }
        at += 1;
    }
    proof {
        lemma_find_none(chars@, needle@);
    }
    None
}

/// The first place at which the needle stands in the slice.
pub fn slice_find_str(chars: &[char], needle: &str) -> (out: Option<usize>)
    ensures
        match out {
            Some(at) => find(chars@, needle@) == Some(at as int) && at + needle@.len()
                <= chars@.len(),
            None => find(chars@, needle@) is None,
        },
{
    let needle_chars = to_chars(needle);
    slice_find(chars, needle_chars.as_slice())
}

/// The first place at which one character stands in the slice.
pub fn slice_find_char(chars: &[char], c: char) -> (out: Option<usize>)
    ensures
        match out {
            Some(at) => find(chars@, seq![c]) == Some(at as int) && at < chars@.len(),
            None => find(chars@, seq![c]) is None,
        },
{
    let mut needle: Vec<char> = Vec::new();
    needle.push(c);
    assert(needle@ =~= seq![c]);
    slice_find(chars, needle.as_slice())
}

/// The first place of a character is the first index that holds it.
pub proof fn lemma_find_char(text: Seq<char>, c: char)
    ensures
        match find(text, seq![c]) {
            Some(at) => 0 <= at < text.len() && text[at] == c && forall|j: int|
                0 <= j < at ==> #[trigger] text[j] != c,
            None => forall|j: int| 0 <= j < text.len() ==> #[trigger] text[j] != c,
        },
{
    let needle = seq![c];
    assert forall|j: int| 0 <= j < text.len() implies (#[trigger] text[j] == c) == occurs_at(
        text,
        needle,
        j,
    ) by {
        if text[j] == c {
            assert(text.subrange(j, j + 1) =~= needle);
        } else {
            assert(text.subrange(j, j + 1)[0] == text[j]);
        }
    }
    match find(text, needle) {
        Some(at) => {
            assert(first_at(text, needle, at));
            assert(text[at] == c);
            assert forall|j: int| 0 <= j < at implies #[trigger] text[j] != c by {
                assert(!occurs_at(text, needle, j));
            }
        },
        None => {
            assert forall|j: int| 0 <= j < text.len() implies #[trigger] text[j] != c by {
                if text[j] == c {
                    lemma_least(text, c, j);
                }
            }
        },
    }
}

/// What occurs has a first place.
pub proof fn lemma_occurrence_is_found(text: Seq<char>, needle: Seq<char>, j: int)
    requires
        occurs_at(text, needle, j),
    ensures
        find(text, needle) is Some,
    decreases j,
{
    if exists|k: int| 0 <= k < j && occurs_at(text, needle, k) {
        let k = choose|k: int| 0 <= k < j && occurs_at(text, needle, k);
        lemma_occurrence_is_found(text, needle, k);
    } else {
        assert(first_at(text, needle, j));
    }
}

/// A character that occurs has a first place.
proof fn lemma_least(text: Seq<char>, c: char, j: int)
    requires
        0 <= j < text.len(),
        text[j] == c,
    ensures
        find(text, seq![c]) is Some,
    decreases j,
{
    let needle = seq![c];
    assert(text.subrange(j, j + 1) =~= needle);
    assert(occurs_at(text, needle, j));
    if exists|k: int| 0 <= k < j && occurs_at(text, needle, k) {
        let k = choose|k: int| 0 <= k < j && occurs_at(text, needle, k);
        assert(text.subrange(k, k + 1)[0] == text[k]);
        lemma_least(text, c, k);
    } else {
        assert(first_at(text, needle, j));
    }
}

} // verus!
