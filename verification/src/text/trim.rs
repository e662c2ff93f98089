//! Taking characters off the ends of a text.
use vstd::prelude::*;
use vstd::slice::slice_subrange;

use crate::text::chars::{is_white_space, to_chars, to_text};

verus! {

/// The characters that a trim takes away.
#[derive(Clone, Copy)]
pub enum Trimmed {
    /// White space.
    WhiteSpace,
    /// One character.
    Only(char),
}

impl Trimmed {
    pub open spec fn has(self, c: char) -> bool {
        match self {
            Trimmed::WhiteSpace => crate::text::chars::white_space(c),
            Trimmed::Only(only) => c == only,
        }
    }

    fn covers(self, c: char) -> (out: bool)
        ensures
            out == self.has(c),
    {
        match self {
            Trimmed::WhiteSpace => is_white_space(c),
            Trimmed::Only(only) => c == only,
        }
    }
}

/// The text from its first character that stays.
pub open spec fn trim_front(text: Seq<char>, off: Trimmed) -> Seq<char>
    decreases text.len(),
{
    if text.len() > 0 && off.has(text.first()) {
        trim_front(text.drop_first(), off)
    } else {
        text
    }
}

/// The text up to its last character that stays.
pub open spec fn trim_back(text: Seq<char>, off: Trimmed) -> Seq<char>
    decreases text.len(),
{
    if text.len() > 0 && off.has(text.last()) {
        trim_back(text.drop_last(), off)
    } else {
        text
    }
}

/// The text between its first and its last character that stay.
pub open spec fn trim_both(text: Seq<char>, off: Trimmed) -> Seq<char> {
    trim_back(trim_front(text, off), off)
}

/// The text without the white space at its ends.
pub open spec fn trim(text: Seq<char>) -> Seq<char> {
    trim_both(text, Trimmed::WhiteSpace)
}

/// The text without the white space before it.
pub open spec fn trim_start(text: Seq<char>) -> Seq<char> {
    trim_front(text, Trimmed::WhiteSpace)
}

/// Neither end of the text can be trimmed.
pub open spec fn tight(text: Seq<char>, off: Trimmed) -> bool {
    text.len() > 0 ==> !off.has(text.first()) && !off.has(text.last())
}

pub proof fn lemma_trim_front(text: Seq<char>, off: Trimmed)
    ensures
        trim_front(text, off).len() <= text.len(),
        trim_front(text, off) == text.skip(text.len() - trim_front(text, off).len()),
        trim_front(text, off).len() > 0 ==> !off.has(trim_front(text, off).first()),
        forall|i: int|
            0 <= i < text.len() - trim_front(text, off).len() ==> off.has(#[trigger] text[i]),
    decreases text.len(),
{
    if text.len() > 0 && off.has(text.first()) {
        let rest = text.drop_first();
        lemma_trim_front(rest, off);
        let kept = trim_front(rest, off);
        assert(text.skip(text.len() - kept.len()) =~= rest.skip(rest.len() - kept.len()));
        assert forall|i: int| 0 <= i < text.len() - kept.len() implies off.has(
            #[trigger] text[i],
        ) by {
            if i > 0 {
                assert(rest[i - 1] == text[i]);
            }
        }
    } else {
        assert(text.skip(0) =~= text);
    }
}

pub proof fn lemma_trim_back(text: Seq<char>, off: Trimmed)
    ensures
        trim_back(text, off).len() <= text.len(),
        trim_back(text, off) == text.take(trim_back(text, off).len() as int),
        trim_back(text, off).len() > 0 ==> !off.has(trim_back(text, off).last()),
        forall|i: int|
            trim_back(text, off).len() <= i < text.len() ==> off.has(#[trigger] text[i]),
    decreases text.len(),
{
    if text.len() > 0 && off.has(text.last()) {
        let rest = text.drop_last();
        lemma_trim_back(rest, off);
        let kept = trim_back(rest, off);
        assert(text.take(kept.len() as int) =~= rest.take(kept.len() as int));
        assert forall|i: int| kept.len() <= i < text.len() implies off.has(#[trigger] text[i]) by {
            if i < rest.len() {
                assert(rest[i] == text[i]);
            }
        }
    } else {
        assert(text.take(text.len() as int) =~= text);
    }
}

/// A trimmed text has nothing left to trim.
pub proof fn lemma_trim_tight(text: Seq<char>, off: Trimmed)
    ensures
        tight(trim_both(text, off), off),
        trim_both(text, off).len() <= text.len(),
{
    let front = trim_front(text, off);
    lemma_trim_front(text, off);
    lemma_trim_back(front, off);
    let both = trim_back(front, off);
    if both.len() > 0 {
        assert(both.first() == front.first());
    }
}

/// Trimming keeps a text that is already tight.
pub proof fn lemma_trim_keeps_tight(text: Seq<char>, off: Trimmed)
    requires
        tight(text, off),
    ensures
        trim_front(text, off) == text,
        trim_back(text, off) == text,
        trim_both(text, off) == text,
{
}

/// Characters that are trimmed away may stand before and behind a tight text.
pub proof fn lemma_trim_padded(before: Seq<char>, text: Seq<char>, behind: Seq<char>, off: Trimmed)
    requires
        tight(text, off),
        text.len() > 0,
        forall|i: int| 0 <= i < before.len() ==> off.has(#[trigger] before[i]),
        forall|i: int| 0 <= i < behind.len() ==> off.has(#[trigger] behind[i]),
    ensures
        trim_both(before + text + behind, off) == text,
    decreases before.len() + behind.len(),
{
    let all = before + text + behind;
    if before.len() > 0 {
        assert(all.first() == before[0]);
        let less = before.drop_first();
        assert(all.drop_first() =~= less + text + behind);
        assert forall|i: int| 0 <= i < less.len() implies off.has(#[trigger] less[i]) by {
            assert(less[i] == before[i + 1]);
        }
        lemma_trim_padded(less, text, behind, off);
    } else {
        assert(all =~= text + behind);
        assert(all.first() == text.first());
        assert(trim_front(all, off) == all);
        if behind.len() > 0 {
            assert(all.last() == behind.last());
            let less = behind.drop_last();
            assert(all.drop_last() =~= text + less);
            assert(before + text + less =~= text + less);
            lemma_trim_padded(before, text, less, off);
            assert((text + less).first() == text.first());
            assert(trim_front(text + less, off) == text + less);
        } else {
            assert(all =~= text);
        }
    }
}

/// The slice from its first character that stays.
pub fn trim_slice_front(chars: &[char], off: Trimmed) -> (out: &[char])
    ensures
        out@ == trim_front(chars@, off),
{
    let mut i: usize = 0;
    assert(chars@.skip(0) =~= chars@);
    while i < chars.len() && off.covers(chars[i])
        invariant
            i <= chars@.len(),
            trim_front(chars@, off) == trim_front(chars@.skip(i as int), off),
        decreases chars@.len() - i,
    {
        assert(chars@.skip(i as int).drop_first() =~= chars@.skip(i + 1));
        assert(chars@.skip(i as int).first() == chars@[i as int]);
        i += 1;
    }
    assert(i < chars@.len() ==> chars@.skip(i as int).first() == chars@[i as int]);
    assert(chars@.skip(i as int) =~= chars@.subrange(i as int, chars@.len() as int));
    slice_subrange(chars, i, chars.len())
}

/// The slice up to its last character that stays.
pub fn trim_slice_back(chars: &[char], off: Trimmed) -> (out: &[char])
    ensures
        out@ == trim_back(chars@, off),
{
    let mut end: usize = chars.len();
    assert(chars@.take(end as int) =~= chars@);
    while end > 0 && off.covers(chars[end - 1])
        invariant
            end <= chars@.len(),
            trim_back(chars@, off) == trim_back(chars@.take(end as int), off),
        decreases end,
    {
        assert(chars@.take(end as int).drop_last() =~= chars@.take(end - 1));
        assert(chars@.take(end as int).last() == chars@[end - 1]);
        end -= 1;
    }
    assert(end > 0 ==> chars@.take(end as int).last() == chars@[end - 1]);
    assert(chars@.take(end as int) =~= chars@.subrange(0, end as int));
    slice_subrange(chars, 0, end)
}

/// The slice between its first and its last character that stay.
pub fn trim_slice_both(chars: &[char], off: Trimmed) -> (out: &[char])
    ensures
        out@ == trim_both(chars@, off),
{
    trim_slice_back(trim_slice_front(chars, off), off)
}

/// The slice without the white space at its ends.
pub fn trim_slice(chars: &[char]) -> (out: &[char])
    ensures
        out@ == trim(chars@),
{
    trim_slice_both(chars, Trimmed::WhiteSpace)
}

/// The text without the white space at its ends.
pub fn trim_text(text: &str) -> (out: String)
    ensures
        out@ == trim(text@),
{
    let chars = to_chars(text);
    to_text(trim_slice(chars.as_slice()))
}

/// Whether a text holds white space alone, or nothing.
pub fn is_blank(text: &str) -> (out: bool)
    ensures
        out == (trim(text@).len() == 0),
{
    let chars = to_chars(text);
    trim_slice(chars.as_slice()).len() == 0
}

} // verus!
