//! What holds of every text that is trimmed, split, joined, or read as a number.
use vstd::prelude::*;

use crate::text::chars::{lower, opt_text, text_or, texts, white_space};
use crate::text::lines::{join, lemma_join_front, replace_char, word_len, words};
use crate::text::number::{
    decimal, decimal_text, digit_char, digit_value, is_digit, parse_number, read_digits,
    read_number, signed_decimal, NumberError,
};
use crate::text::order::precedes;
use crate::text::trim::{
    lemma_trim_back, lemma_trim_front, lemma_trim_keeps_tight, lemma_trim_tight, tight, trim_both,
    trim_front, trim_start, trim_text, Trimmed,
};

verus! {

/// Trimming takes away only what it is to take away: what stays is one piece of the text,
/// and all that stands before it and behind it is of the kind that is taken away, while the
/// first and the last character of what stays are not.
pub proof fn law_trimming_takes_nothing_else(text: Seq<char>, off: Trimmed)
    ensures
        tight(trim_both(text, off), off),
        exists|from: int| #[trigger]
            trimmed_at(text, off, from, from + trim_both(text, off).len()) && trim_both(text, off)
                == text.subrange(from, from + trim_both(text, off).len()),
{
    let front = trim_front(text, off);
    lemma_trim_front(text, off);
    lemma_trim_back(front, off);
    lemma_trim_tight(text, off);
    let kept = trim_both(text, off);
    let from = text.len() - front.len();
    let to = from + kept.len();
    assert(kept =~= text.subrange(from, to));
    assert forall|i: int| to <= i < text.len() implies off.has(#[trigger] text[i]) by {
        assert(text[i] == front[i - from]);
    }
    assert(trimmed_at(text, off, from, to));
}

/// All characters before the one place and from the other on are taken away.
pub open spec fn trimmed_at(text: Seq<char>, off: Trimmed, from: int, to: int) -> bool {
    &&& 0 <= from <= to <= text.len()
    &&& forall|i: int| 0 <= i < from ==> off.has(#[trigger] text[i])
    &&& forall|i: int| to <= i < text.len() ==> off.has(#[trigger] text[i])
}

/// A text without white space at its ends is trimmed to itself, whole.
pub proof fn law_a_tight_text_is_trimmed_to_itself(text: &str, out: String)
    requires
        call_ensures(trim_text, (text,), out),
        tight(text@, Trimmed::WhiteSpace),
    ensures
        out@ == text@,
{
    lemma_trim_keeps_tight(text@, Trimmed::WhiteSpace);
}

proof fn lemma_decimal_digits(n: nat)
    ensures
        decimal(n).len() > 0,
        is_digit(decimal(n).first()),
        decimal(n).first() != '+',
    decreases n,
{
    if n >= 10 {
        lemma_decimal_digits(n / 10);
        assert(decimal(n).first() == decimal(n / 10).first());
    }
}

proof fn lemma_digit(value: nat)
    requires
        value < 10,
    ensures
        is_digit(digit_char(value)),
        digit_value(digit_char(value)) == value,
{
}

proof fn lemma_read_decimal(n: nat, rest: Seq<char>, max: nat)
    ensures
        n <= max ==> read_digits(decimal(n) + rest, 0, max) == read_digits(rest, n, max),
        n > max ==> read_digits(decimal(n) + rest, 0, max) == Err::<nat, NumberError>(
            NumberError::TooLarge,
        ),
    decreases n,
{
    lemma_digit(n % 10);
    let digit = digit_char(n % 10);
    let all = decimal(n) + rest;
    if n < 10 {
        assert(all.first() == digit);
        assert(all.drop_first() =~= rest);
    } else {
        let more = seq![digit] + rest;
        assert(all =~= decimal(n / 10) + more);
        lemma_read_decimal(n / 10, more, max);
        assert(more.first() == digit);
        assert(more.drop_first() =~= rest);
    }
}

/// A number is read back from its decimal text, with a plus sign before it or without, if
/// it is at most what is allowed, and is refused as too large if it is more.
pub proof fn law_numbers_are_read_back(n: nat, max: nat)
    ensures
        n <= max ==> read_number(decimal(n), max) == Ok::<nat, NumberError>(n),
        n <= max ==> read_number(seq!['+'] + decimal(n), max) == Ok::<nat, NumberError>(n),
        n > max ==> read_number(decimal(n), max) == Err::<nat, NumberError>(
            NumberError::TooLarge,
        ),
{
    lemma_decimal_digits(n);
    lemma_read_decimal(n, Seq::<char>::empty(), max);
    assert(decimal(n) + Seq::<char>::empty() =~= decimal(n));
    assert((seq!['+'] + decimal(n)).drop_first() =~= decimal(n));
}

/// Different numbers have different decimal texts.
pub proof fn law_decimal_texts_tell_numbers_apart(left: nat, right: nat)
    requires
        decimal(left) == decimal(right),
    ensures
        left == right,
{
    let max = left + right;
    law_numbers_are_read_back(left, max);
    law_numbers_are_read_back(right, max);
}

/// What is read as a number is made of digits alone, but for a plus sign: a text with
/// anything else in it is refused.
pub proof fn law_only_digits_are_read(text: Seq<char>, value: nat, max: nat, at: int)
    requires
        0 <= at < text.len(),
        !is_digit(text[at]),
    ensures
        read_digits(text, value, max) is Err,
    decreases text.len(),
{
    if at > 0 && is_digit(text.first()) {
        law_only_digits_are_read(
            text.drop_first(),
            value * 10 + digit_value(text.first()),
            max,
            at - 1,
        );
    }
}

/// A word: some characters, none of them white space.
pub open spec fn is_word(text: Seq<char>) -> bool {
    text.len() > 0 && forall|i: int| 0 <= i < text.len() ==> !white_space(#[trigger] text[i])
}

proof fn lemma_word_len_of(word: Seq<char>, rest: Seq<char>)
    requires
        forall|i: int| 0 <= i < word.len() ==> !white_space(#[trigger] word[i]),
        rest.len() > 0 ==> white_space(rest.first()),
    ensures
        word_len(word + rest) == word.len(),
    decreases word.len(),
{
    let all = word + rest;
    if word.len() == 0 {
        assert(all =~= rest);
    } else {
        let less = word.drop_first();
        assert(all.drop_first() =~= less + rest);
        assert forall|i: int| 0 <= i < less.len() implies !white_space(#[trigger] less[i]) by {
            assert(less[i] == word[i + 1]);
        }
        assert(all.first() == word[0]);
        lemma_word_len_of(less, rest);
    }
}

/// Words that are joined by spaces are found again, all of them and in their order.
pub proof fn law_words_are_found_again(list: Seq<Seq<char>>)
    requires
        forall|i: int| 0 <= i < list.len() ==> is_word(#[trigger] list[i]),
    ensures
        words(join(list, " "@)) == list,
    decreases list.len(),
{
    reveal_strlit(" ");
    let all = join(list, " "@);
    if list.len() == 0 {
        assert(trim_start(all).len() == 0);
        assert(words(all) =~= list);
    } else {
        let first = list[0];
        let rest = list.drop_first();
        assert(is_word(first));
        assert(!white_space(first[0]));
        assert forall|i: int| 0 <= i < rest.len() implies is_word(#[trigger] rest[i]) by {
            assert(rest[i] == list[i + 1]);
        }
        law_words_are_found_again(rest);
        let behind = if rest.len() == 0 {
            Seq::<char>::empty()
        } else {
            " "@ + join(rest, " "@)
        };
        if rest.len() == 0 {
            assert(list =~= seq![first]);
            assert(first + behind =~= first);
        } else {
            assert(list =~= seq![first] + rest);
            lemma_join_front(first, rest, " "@);
            assert(first + " "@ + join(rest, " "@) =~= first + behind);
        }
        assert(all == first + behind);
        lemma_word_len_of(first, behind);
        assert(all.first() == first[0]);
        assert(trim_start(all) == all);
        assert(all.take(first.len() as int) =~= first);
        assert(all.skip(first.len() as int) =~= behind);
        if rest.len() > 0 {
            assert(behind.drop_first() =~= join(rest, " "@));
            assert(trim_start(behind) == trim_start(join(rest, " "@)));
            assert(words(behind) == words(join(rest, " "@)));
        } else {
            assert(trim_start(behind).len() == 0);
            assert(words(behind) =~= rest);
        }
        assert(words(all) =~= seq![first] + rest);
    }
}

/// A character is replaced wherever it stands and nothing else is: a text is replaced piece
/// by piece.
pub proof fn law_replacing_adds_up(front: Seq<char>, back: Seq<char>, c: char, by: Seq<char>)
    ensures
        replace_char(front + back, c, by) == replace_char(front, c, by) + replace_char(back, c, by),
        replace_char(seq![c], c, by) == by,
        !back.contains(c) ==> replace_char(back, c, by) == back,
    decreases back.len(),
{
    reveal_with_fuel(replace_char, 2);
    assert(seq![c].drop_last() =~= Seq::<char>::empty());
    assert(replace_char(Seq::<char>::empty(), c, by) =~= Seq::<char>::empty());
    assert(replace_char(seq![c], c, by) =~= by);
    if back.len() == 0 {
        assert(front + back =~= front);
        assert(replace_char(front, c, by) + replace_char(back, c, by) =~= replace_char(
            front,
            c,
            by,
        ));
        assert(replace_char(back, c, by) =~= back);
    } else {
        let less = back.drop_last();
        law_replacing_adds_up(front, less, c, by);
        assert((front + back).drop_last() =~= front + less);
        assert((front + back).last() == back.last());
        assert(replace_char(front + back, c, by) =~= replace_char(front, c, by) + replace_char(
            back,
            c,
            by,
        ));
        if !back.contains(c) {
            assert(back[back.len() - 1] != c);
            assert(!less.contains(c)) by {
                if less.contains(c) {
                    let i = choose|i: int| 0 <= i < less.len() && less[i] == c;
                    assert(back[i] == c);
                }
            }
            assert(replace_char(back, c, by) =~= back);
        }
    }
}

/// Of two texts the one comes first that has the smaller character where they first differ,
/// or that ends there.
pub proof fn law_the_first_difference_decides(
    common: Seq<char>,
    left: Seq<char>,
    right: Seq<char>,
)
    requires
        left.len() > 0 && right.len() > 0 ==> left.first() != right.first(),
    ensures
        precedes(common + left, common + right) == (right.len() > 0 && (left.len() == 0 || (
        left.first() as u32) < (right.first() as u32))),
    decreases common.len(),
{
    if common.len() == 0 {
        assert(common + left =~= left);
        assert(common + right =~= right);
    } else {
        let less = common.drop_first();
        law_the_first_difference_decides(less, left, right);
        assert((common + left).drop_first() =~= less + left);
        assert((common + right).drop_first() =~= less + right);
        assert((common + left).first() == common.first());
        assert((common + right).first() == common.first());
    }
}

/// A text in small letters has as many characters, and differs only where a capital letter
/// of ASCII stood, which is the small one then.
pub proof fn law_small_letters_change_nothing_else(text: Seq<char>, at: int)
    requires
        0 <= at < text.len(),
    ensures
        lower(text).len() == text.len(),
        0x41 <= text[at] as u32 <= 0x5a ==> lower(text)[at] as u32 == text[at] as u32 + 0x20,
        !(0x41 <= text[at] as u32 <= 0x5a) ==> lower(text)[at] == text[at],
{
}

/// A text that may be absent is itself if it is there, and what stands for it if not.
pub proof fn law_what_is_there_is_taken(text: String, list: Seq<String>, at: int, other: Seq<char>)
    requires
        0 <= at < list.len(),
    ensures
        opt_text(Some(text)) == Some(text@),
        opt_text(None) is None,
        text_or(Some(text@), other) == text@,
        text_or(None, other) == other,
        texts(list).len() == list.len(),
        texts(list)[at] == list[at]@,
{
}

/// A negative number is a minus sign and the decimal text of what it is without it; any
/// other is its decimal text.
pub proof fn law_negative_numbers_have_a_sign(n: nat)
    requires
        n > 0,
    ensures
        signed_decimal(-(n as int)) == seq!['-'] + decimal(n),
        signed_decimal(n as int) == decimal(n),
        signed_decimal(0) == decimal(0),
{
}

/// The decimal text of a number is read back as that number.
pub proof fn law_written_numbers_are_read_back(
    n: u64,
    max: u64,
    text: String,
    same: &str,
    out: Result<u64, NumberError>,
)
    requires
        call_ensures(decimal_text, (n,), text),
        same@ == text@,
        call_ensures(parse_number, (same, max), out),
    ensures
        n <= max ==> out == Ok::<u64, NumberError>(n),
        n > max ==> out == Err::<u64, NumberError>(NumberError::TooLarge),
{
    law_numbers_are_read_back(n as nat, max as nat);
}

} // verus!
