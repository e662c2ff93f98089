//! Characters, and the way between a text and its characters.
use vstd::prelude::*;

verus! {

/// `String::push` appends the given character to the end of the text and
/// changes nothing else of it.
pub assume_specification[ String::push ](text: &mut String, ch: char)
    ensures
        final(text)@ == old(text)@.push(ch),
;

/// The characters with the Unicode property `White_Space`.
pub open spec fn white_space(c: char) -> bool {
    let code = c as u32;
    ||| 0x9 <= code <= 0xd
    ||| code == 0x20
    ||| code == 0x85
    ||| code == 0xa0
    ||| code == 0x1680
    ||| 0x2000 <= code <= 0x200a
    ||| 0x2028 <= code <= 0x2029
    ||| code == 0x202f
    ||| code == 0x205f
    ||| code == 0x3000
}

/// The control characters, which are the Unicode general category `Cc`.
pub open spec fn control(c: char) -> bool {
    let code = c as u32;
    code <= 0x1f || 0x7f <= code <= 0x9f
}

/// The ASCII letters and digits.
pub open spec fn ascii_alphanumeric(c: char) -> bool {
    let code = c as u32;
    ||| 0x30 <= code <= 0x39
    ||| 0x41 <= code <= 0x5a
    ||| 0x61 <= code <= 0x7a
}

/// An ASCII capital becomes its small letter; every other character stays.
pub open spec fn lower_char(c: char) -> char {
    if 0x41 <= c as u32 <= 0x5a {
        (c as u32 + 0x20) as char
    } else {
        c
    }
}

/// The text with its ASCII capitals as small letters.
pub open spec fn lower(text: Seq<char>) -> Seq<char> {
    text.map_values(|c: char| lower_char(c))
}

/// What can be handed over as a text.
pub trait IntoText: Sized {
    /// The characters of the text.
    spec fn content(self) -> Seq<char>;

    fn into_text(self) -> (out: String)
        ensures
            out@ == self.content(),
    ;
}

impl IntoText for String {
    open spec fn content(self) -> Seq<char> {
        self@
    }

    fn into_text(self) -> (out: String) {
        self
    }
}

impl<'a> IntoText for &'a str {
    open spec fn content(self) -> Seq<char> {
        self@
    }

    fn into_text(self) -> (out: String) {
        self.to_owned()
    }
}

/// The views of a list of texts.
pub open spec fn texts(list: Seq<String>) -> Seq<Seq<char>> {
    list.map_values(|text: String| text@)
}

/// The view of a text that may be absent.
pub open spec fn opt_text(text: Option<String>) -> Option<Seq<char>> {
    match text {
        Some(text) => Some(text@),
        None => None,
    }
}

/// A text that may be absent, with a stand-in.
pub open spec fn text_or(text: Option<Seq<char>>, otherwise: Seq<char>) -> Seq<char> {
    match text {
        Some(text) => text,
        None => otherwise,
    }
}

pub fn is_white_space(c: char) -> (out: bool)
    ensures
        out == white_space(c),
{
    let code: u32 = c as u32;
    (0x9 <= code && code <= 0xd) || code == 0x20 || code == 0x85 || code == 0xa0 || code == 0x1680
        || (0x2000 <= code && code <= 0x200a) || code == 0x2028 || code == 0x2029 || code == 0x202f
        || code == 0x205f || code == 0x3000
}

pub fn is_control(c: char) -> (out: bool)
    ensures
        out == control(c),
{
    let code: u32 = c as u32;
    code <= 0x1f || (0x7f <= code && code <= 0x9f)
}

pub fn is_ascii_alphanumeric(c: char) -> (out: bool)
    ensures
        out == ascii_alphanumeric(c),
{
    let code: u32 = c as u32;
    (0x30 <= code && code <= 0x39) || (0x41 <= code && code <= 0x5a) || (0x61 <= code && code
        <= 0x7a)
}

pub fn to_lower_char(c: char) -> (out: char)
    ensures
        out == lower_char(c),
{
    let code: u32 = c as u32;
    if 0x41 <= code && code <= 0x5a {
        let small: u8 = (code + 0x20) as u8;
        small as char
    } else {
        c
    }
}

/// The characters of a text, in order.
pub fn to_chars(text: &str) -> (out: Vec<char>)
    ensures
        out@ == text@,
{
    let mut out: Vec<char> = Vec::new();
    for c in it: text.chars()
        invariant
            it.seq() == text@,
            out@ == text@.take(it.index() as int),
    {
        out.push(c);
    }
    out
}

/// The text made of the given characters.
pub fn to_text(chars: &[char]) -> (out: String)
    ensures
        out@ == chars@,
{
    let mut out = String::new();
    let mut i: usize = 0;
    while i < chars.len()
        invariant
            i <= chars@.len(),
            out@ == chars@.take(i as int),
        decreases chars@.len() - i,
    {
        out.push(chars[i]);
        assert(chars@.take(i + 1) =~= chars@.take(i as int).push(chars@[i as int]));
        i += 1;
    }
    out
}

/// The characters with the ASCII capitals as small letters.
pub fn to_lower_chars(chars: &[char]) -> (out: Vec<char>)
    ensures
        out@ == lower(chars@),
{
    let mut out: Vec<char> = Vec::new();
    let mut i: usize = 0;
    while i < chars.len()
        invariant
            i <= chars@.len(),
            out@ == lower(chars@.take(i as int)),
        decreases chars@.len() - i,
    {
        out.push(to_lower_char(chars[i]));
        assert(lower(chars@.take(i + 1)) =~= lower(chars@.take(i as int)).push(
            lower_char(chars@[i as int]),
        ));
        i += 1;
    }
    assert(chars@.take(i as int) =~= chars@);
    out
}

/// Whether two runs of characters are the same.
pub fn same_chars(left: &[char], right: &[char]) -> (out: bool)
    ensures
        out == (left@ == right@),
{
    if left.len() != right.len() {
        return false;
    }
    let mut i: usize = 0;
    while i < left.len()
        invariant
            i <= left@.len(),
            left@.len() == right@.len(),
            left@.take(i as int) == right@.take(i as int),
        decreases left@.len() - i,
    {
        if left[i] != right[i] {
            assert(left@[i as int] != right@[i as int]);
            return false;
        }
        assert(left@.take(i + 1) =~= left@.take(i as int).push(left@[i as int]));
        assert(right@.take(i + 1) =~= right@.take(i as int).push(right@[i as int]));
        i += 1;
    }
    assert(left@.take(i as int) =~= left@);
    assert(right@.take(i as int) =~= right@);
    true
}

/// Whether two texts are the same.
pub fn same_text(left: &str, right: &str) -> (out: bool)
    ensures
        out == (left@ == right@),
{
    let left_chars = to_chars(left);
    let right_chars = to_chars(right);
    same_chars(left_chars.as_slice(), right_chars.as_slice())
}

/// Whether two texts that may be absent are the same.
pub fn same_opt_text(left: &Option<String>, right: &Option<String>) -> (out: bool)
    ensures
        out == (opt_text(*left) == opt_text(*right)),
{
    match (left, right) {
        (Some(left), Some(right)) => same_text(left.as_str(), right.as_str()),
        (None, None) => true,
        _ => false,
    }
}

/// A copy of a text that may be absent.
pub fn copy_opt_text(text: &Option<String>) -> (out: Option<String>)
    ensures
        out == *text,
{
    match text {
        Some(text) => Some(text.clone()),
        None => None,
    }
}

/// A copy of a list of texts.
pub fn copy_texts(list: &Vec<String>) -> (out: Vec<String>)
    ensures
        texts(out@) == texts(list@),
{
    let mut out: Vec<String> = Vec::new();
    let mut i: usize = 0;
    while i < list.len()
        invariant
            i <= list@.len(),
            texts(out@) == texts(list@.take(i as int)),
        decreases list@.len() - i,
    {
        out.push(list[i].clone());
        assert(texts(list@.take(i + 1)) =~= texts(list@.take(i as int)).push(list@[i as int]@));
        assert(texts(out@) =~= texts(list@.take(i + 1)));
        i += 1;
    }
    assert(list@.take(i as int) =~= list@);
    out
}

/// A text that may be absent, with a stand-in.
pub fn str_or<'a>(text: &'a Option<String>, otherwise: &'a str) -> (out: &'a str)
    ensures
        out@ == text_or(opt_text(*text), otherwise@),
{
    match text {
        Some(text) => text.as_str(),
        None => otherwise,
    }
}

} // verus!
