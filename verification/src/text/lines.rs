//! Texts in pieces: lines, words, and pieces put together again.
use vstd::prelude::*;
use vstd::slice::slice_subrange;

use crate::text::chars::{is_white_space, texts, to_chars, to_text, white_space};
use crate::text::search::{find, lemma_find_char, slice_find_char};
use crate::text::trim::{lemma_trim_front, trim_slice_front, trim_start, Trimmed};

verus! {

/// A line without the carriage return that ends it.
pub open spec fn without_return(line: Seq<char>) -> Seq<char> {
    if line.len() > 0 && line.last() == '\r' {
        line.drop_last()
    } else {
        line
    }
}

/// The lines of a text. A line feed ends a line, a carriage return just before
/// it belongs to the line's end, and the end of the last line may be absent.
pub open spec fn lines(text: Seq<char>) -> Seq<Seq<char>>
    decreases text.len(),
{
    if text.len() == 0 {
        seq![]
    } else {
        match find(text, seq!['\n']) {
            Some(at) if 0 <= at < text.len() => seq![without_return(text.take(at))] + lines(
                text.skip(at + 1),
            ),
            _ => seq![text],
        }
    }
}

/// The length of the run of other characters before the first white space.
pub open spec fn word_len(text: Seq<char>) -> nat
    decreases text.len(),
{
    if text.len() == 0 || white_space(text.first()) {
        0
    } else {
        1 + word_len(text.drop_first())
    }
}

/// The words of a text: its runs of characters between white space.
pub open spec fn words(text: Seq<char>) -> Seq<Seq<char>>
    decreases text.len(),
    via words_decreases
{
    let rest = trim_start(text);
    if rest.len() == 0 {
        seq![]
    } else {
        seq![rest.take(word_len(rest) as int)] + words(rest.skip(word_len(rest) as int))
    }
}

#[via_fn]
proof fn words_decreases(text: Seq<char>) {
    let rest = trim_start(text);
    lemma_trim_front(text, Trimmed::WhiteSpace);
    lemma_word_len(rest);
}

pub proof fn lemma_word_len(text: Seq<char>)
    ensures
        word_len(text) <= text.len(),
        forall|i: int| 0 <= i < word_len(text) ==> !white_space(#[trigger] text[i]),
        word_len(text) < text.len() ==> white_space(text[word_len(text) as int]),
        text.len() > 0 && !white_space(text.first()) ==> word_len(text) > 0,
    decreases text.len(),
{
    if text.len() > 0 && !white_space(text.first()) {
        let rest = text.drop_first();
        lemma_word_len(rest);
        assert forall|i: int| 0 <= i < word_len(text) implies !white_space(#[trigger] text[i]) by {
            if i > 0 {
                assert(rest[i - 1] == text[i]);
            }
        }
        if word_len(text) < text.len() {
            assert(rest[word_len(rest) as int] == text[word_len(text) as int]);
        }
    }
}

/// The pieces with a separator between each two.
pub open spec fn join(pieces: Seq<Seq<char>>, separator: Seq<char>) -> Seq<char>
    decreases pieces.len(),
{
    if pieces.len() == 0 {
        seq![]
    } else if pieces.len() == 1 {
        pieces[0]
    } else {
        join(pieces.drop_last(), separator) + separator + pieces.last()
    }
}

/// Joining leaves nothing out: one piece is joined to itself, and two runs of pieces
/// to what each of them is joined to, with the separator between.
pub proof fn law_joining_adds_up(
    front: Seq<Seq<char>>,
    back: Seq<Seq<char>>,
    separator: Seq<char>,
)
    ensures
        front.len() == 0 ==> join(front, separator) == Seq::<char>::empty(),
        front.len() == 1 ==> join(front, separator) == front[0],
        front.len() > 0 && back.len() > 0 ==> join(front + back, separator) == join(
            front,
            separator,
        ) + separator + join(back, separator),
    decreases back.len(),
{
    let all = front + back;
    if front.len() > 0 && back.len() == 1 {
        assert(all.drop_last() =~= front);
    } else if front.len() > 0 && back.len() > 1 {
        law_joining_adds_up(front, back.drop_last(), separator);
        assert(all.drop_last() =~= front + back.drop_last());
        assert(all.last() == back.last());
        assert(join(all, separator) =~= join(front, separator) + separator + join(back, separator));
    }
}

/// A piece in front of others is joined to them by the separator.
pub proof fn lemma_join_front(first: Seq<char>, rest: Seq<Seq<char>>, separator: Seq<char>)
    requires
        rest.len() > 0,
    ensures
        join(seq![first] + rest, separator) == first + separator + join(rest, separator),
    decreases rest.len(),
{
    let all = seq![first] + rest;
    if rest.len() == 1 {
        assert(all.drop_last() =~= seq![first]);
        assert(join(all.drop_last(), separator) == first);
    } else {
        assert(all.drop_last() =~= seq![first] + rest.drop_last());
        lemma_join_front(first, rest.drop_last(), separator);
    }
    assert(join(all, separator) =~= first + separator + join(rest, separator));
}

/// The text can be told from its neighbours by line ends.
pub open spec fn whole_line(line: Seq<char>) -> bool {
    &&& !line.contains('\n')
    &&& without_return(line) == line
}

/// Lines that are joined by line feeds are found again.
pub proof fn lemma_lines_of_joined(list: Seq<Seq<char>>)
    requires
        list.len() > 0,
        list.last().len() > 0,
        forall|i: int| 0 <= i < list.len() ==> whole_line(#[trigger] list[i]),
    ensures
        lines(join(list, "\n"@)) == list,
    decreases list.len(),
{
    reveal_strlit("\n");
    let first = list[0];
    assert(whole_line(first));
    if list.len() == 1 {
        lemma_find_char(first, '\n');
        if let Some(at) = find(first, seq!['\n']) {
            assert(first.contains(first[at]));
        }
        assert(list =~= seq![first]);
    } else {
        let rest = list.drop_first();
        assert(list =~= seq![first] + rest);
        assert forall|i: int| 0 <= i < rest.len() implies whole_line(#[trigger] rest[i]) by {
            assert(rest[i] == list[i + 1]);
        }
        lemma_join_front(first, rest, "\n"@);
        lemma_lines_of_joined(rest);
        let text = first + "\n"@ + join(rest, "\n"@);
        assert(text[first.len() as int] == '\n');
        lemma_find_char(text, '\n');
        match find(text, seq!['\n']) {
            Some(at) => {
                if at < first.len() {
                    assert(first[at] == text[at]);
                    assert(first.contains(first[at]));
                }
                assert(at == first.len());
                assert(text.take(at) =~= first);
                assert(text.skip(at + 1) =~= join(rest, "\n"@));
            },
            None => {},
        }
        assert(lines(text) =~= seq![first] + rest);
    }
}

/// The text with every occurrence of one character replaced.
pub open spec fn replace_char(text: Seq<char>, c: char, by: Seq<char>) -> Seq<char>
    decreases text.len(),
{
    if text.len() == 0 {
        seq![]
    } else {
        replace_char(text.drop_last(), c, by) + (if text.last() == c {
            by
        } else {
            seq![text.last()]
        })
    }
}

/// The lines of the slice.
pub fn slice_lines(chars: &[char]) -> (out: Vec<Vec<char>>)
    ensures
        out@.map_values(|line: Vec<char>| line@) == lines(chars@),
{
    let mut out: Vec<Vec<char>> = Vec::new();
    let mut start: usize = 0;
    let ghost views = |line: Vec<char>| line@;
    assert(chars@.skip(0) =~= chars@);
    assert(out@.map_values(views) + lines(chars@) =~= lines(chars@));
    while start < chars.len()
        invariant
            start <= chars@.len(),
            views == (|line: Vec<char>| line@),
            out@.map_values(views) + lines(chars@.skip(start as int)) == lines(chars@),
        decreases chars@.len() - start,
    {
        let rest = slice_subrange(chars, start, chars.len());
        let ghost before = out@.map_values(views);
        assert(rest@ =~= chars@.skip(start as int));
        match slice_find_char(rest, '\n') {
            Some(at) => {
                let mut end: usize = at;
                if at > 0 && rest[at - 1] == '\r' {
                    end = at - 1;
                }
                let line = slice_to_chars(slice_subrange(rest, 0, end));
                assert(line@ =~= without_return(rest@.take(at as int)));
                out.push(line);
                assert(out@.map_values(views) =~= before.push(line@));
                assert(rest@.skip(at + 1) =~= chars@.skip(start + at + 1));
                assert(out@.map_values(views) + lines(chars@.skip(start + at + 1)) =~= before
                    + lines(rest@));
                start = start + at + 1;
            },
            None => {
                let line = slice_to_chars(rest);
                out.push(line);
                assert(out@.map_values(views) =~= before.push(rest@));
                assert(chars@.skip(chars@.len() as int).len() == 0);
                assert(out@.map_values(views) + lines(chars@.skip(chars@.len() as int)) =~= before
                    + lines(rest@));
                start = chars.len();
            },
        }
    }
    assert(chars@.skip(start as int).len() == 0);
    assert(out@.map_values(views) + lines(chars@.skip(start as int)) =~= out@.map_values(views));
    out
}

/// A copy of the slice.
pub fn slice_to_chars(chars: &[char]) -> (out: Vec<char>)
    ensures
        out@ == chars@,
{
    let mut out: Vec<char> = Vec::new();
    let mut i: usize = 0;
    while i < chars.len()
        invariant
            i <= chars@.len(),
            out@ == chars@.take(i as int),
        decreases chars@.len() - i,
    {
        out.push(chars[i]);
        assert(chars@.take(i + 1) =~= chars@.take(i as int).push(chars@[i as int]));
        i += 1;
    }
    assert(chars@.take(i as int) =~= chars@);
    out
}

/// The length of the slice's first word.
pub fn slice_word_len(chars: &[char]) -> (out: usize)
    ensures
        out == word_len(chars@),
{
    let mut i: usize = 0;
    assert(chars@.skip(0) =~= chars@);
    while i < chars.len() && !is_white_space(chars[i])
        invariant
            i <= chars@.len(),
            word_len(chars@) == i + word_len(chars@.skip(i as int)),
        decreases chars@.len() - i,
    {
        assert(chars@.skip(i as int).drop_first() =~= chars@.skip(i + 1));
        assert(chars@.skip(i as int).first() == chars@[i as int]);
        i += 1;
    }
    assert(i < chars@.len() ==> chars@.skip(i as int).first() == chars@[i as int]);
    i
}

/// The words of the slice.
pub fn slice_words(chars: &[char]) -> (out: Vec<String>)
    ensures
        texts(out@) == words(chars@),
{
    let mut out: Vec<String> = Vec::new();
    let mut rest = trim_slice_front(chars, Trimmed::WhiteSpace);
    proof {
        lemma_words_trimmed(chars@);
    }
    assert(texts(out@) + words(rest@) =~= words(rest@));
    while rest.len() > 0
        invariant
            rest@ == trim_start(rest@),
            texts(out@) + words(rest@) == words(chars@),
        decreases rest@.len(),
    {
        let ghost before = texts(out@);
        let ghost whole = rest@;
        let n = slice_word_len(rest);
        proof {
            lemma_word_len(rest@);
            lemma_trim_front(rest@, Trimmed::WhiteSpace);
        }
        out.push(to_text(slice_subrange(rest, 0, n)));
        let tail = slice_subrange(rest, n, rest.len());
        rest = trim_slice_front(tail, Trimmed::WhiteSpace);
        proof {
            lemma_trim_front(tail@, Trimmed::WhiteSpace);
            lemma_words_trimmed(tail@);
            assert(tail@ =~= whole.skip(n as int));
            assert(whole.subrange(0, n as int) =~= whole.take(n as int));
            assert(texts(out@) =~= before.push(whole.take(n as int)));
            assert(texts(out@) + words(rest@) =~= before + words(whole));
            crate::text::trim::lemma_trim_front(tail@, Trimmed::WhiteSpace);
        }
    }
    assert(texts(out@) + words(rest@) =~= texts(out@));
    out
}

/// White space before a text does not change its words.
pub proof fn lemma_words_trimmed(text: Seq<char>)
    ensures
        words(trim_start(text)) == words(text),
        trim_start(trim_start(text)) == trim_start(text),
{
    lemma_trim_front(text, Trimmed::WhiteSpace);
    lemma_trim_front(trim_start(text), Trimmed::WhiteSpace);
}

/// Two texts, one behind the other.
pub fn join_two(first: &str, second: &str) -> (out: String)
    ensures
        out@ == first@ + second@,
{
    let mut out = first.to_owned();
    out.append(second);
    out
}

/// The texts with a separator between each two.
pub fn join_texts(pieces: &Vec<String>, separator: &str) -> (out: String)
    ensures
        out@ == join(texts(pieces@), separator@),
{
    let mut out = String::new();
    let mut i: usize = 0;
    while i < pieces.len()
        invariant
            i <= pieces@.len(),
            out@ == join(texts(pieces@).take(i as int), separator@),
        decreases pieces@.len() - i,
    {
        let ghost done = texts(pieces@).take(i as int);
        let ghost next = texts(pieces@).take(i + 1);
        assert(next.drop_last() =~= done);
        assert(next.last() == pieces@[i as int]@);
        if i > 0 {
            out.append(separator);
        }
        out.append(pieces[i].as_str());
        assert(out@ =~= join(next, separator@));
        i += 1;
    }
    assert(texts(pieces@).take(i as int) =~= texts(pieces@));
    out
}

/// The slice with every occurrence of one character replaced.
pub fn slice_replace_char(chars: &[char], c: char, by: &str) -> (out: Vec<char>)
    ensures
        out@ == replace_char(chars@, c, by@),
{
    let by_chars = to_chars(by);
    let mut out: Vec<char> = Vec::new();
    let mut i: usize = 0;
    while i < chars.len()
        invariant
            i <= chars@.len(),
            by_chars@ == by@,
            out@ == replace_char(chars@.take(i as int), c, by@),
        decreases chars@.len() - i,
    {
        let ghost next = chars@.take(i + 1);
        let ghost before = out@;
        assert(next.drop_last() =~= chars@.take(i as int));
        assert(next.last() == chars@[i as int]);
        if chars[i] == c {
            let mut k: usize = 0;
            while k < by_chars.len()
                invariant
                    k <= by_chars@.len(),
                    out@ == before + by_chars@.take(k as int),
                decreases by_chars@.len() - k,
            {
                out.push(by_chars[k]);
                assert(by_chars@.take(k + 1) =~= by_chars@.take(k as int).push(
                    by_chars@[k as int],
                ));
                k += 1;
            }
            assert(by_chars@.take(k as int) =~= by@);
        } else {
            out.push(chars[i]);
        }
        assert(out@ =~= replace_char(next, c, by@));
        i += 1;
    }
    assert(chars@.take(i as int) =~= chars@);
    out
}

/// No line of a text holds a line feed.
pub proof fn lemma_lines_unbroken(text: Seq<char>)
    ensures
        forall|i: int, j: int|
            0 <= i < lines(text).len() && 0 <= j < lines(text)[i].len() ==> #[trigger] lines(
                text,
            )[i][j] != '\n',
    decreases text.len(),
{
    if text.len() > 0 {
        lemma_find_char(text, '\n');
        match find(text, seq!['\n']) {
            Some(at) => {
                let head = without_return(text.take(at));
                let tail = text.skip(at + 1);
                lemma_lines_unbroken(tail);
                assert forall|i: int, j: int|
                    0 <= i < lines(text).len() && 0 <= j < lines(
                        text,
                    )[i].len() implies #[trigger] lines(text)[i][j] != '\n' by {
                    if i == 0 {
                        assert(lines(text)[0] == head);
                        assert(head[j] == text[j]);
                    } else {
                        assert(lines(text)[i] == lines(tail)[i - 1]);
                        assert(lines(tail)[i - 1][j] != '\n');
                    }
                }
            },
            None => {},
        }
    }
}

} // verus!
