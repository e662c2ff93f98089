//! What holds of the names of all markdown documents.
use vstd::prelude::*;

use crate::error::{BridgeError, BridgeErrorView};
use crate::markdown::{
    arrived_name, is_markdown_file_name, is_markdown_file_type, is_markdown_mime,
    markdown_file_name, markdown_type, markdown_transport_file_name, normalize_markdown_file_name, plain_ending, reply_file_name,
    resolved_name, safe, safe_char, safe_file_name, sanitize_file_name, travel_ending, travel_name,
    validate_markdown_bytes,
};
use crate::text::chars::lower;
use crate::text::number::decimal;
use crate::text::search::ends_with;
use crate::text::trim::{
    lemma_trim_back, lemma_trim_front, lemma_trim_keeps_tight, lemma_trim_tight, tight, trim,
    trim_both, trim_front, Trimmed,
};

verus! {

/// Every character of the text may stand in a file name.
pub open spec fn all_safe(text: Seq<char>) -> bool {
    forall|i: int| 0 <= i < text.len() ==> safe_char(#[trigger] text[i])
}

proof fn lemma_lower_concat(front: Seq<char>, back: Seq<char>)
    ensures
        lower(front + back) == lower(front) + lower(back),
{
    assert(lower(front + back) =~= lower(front) + lower(back));
}

proof fn lemma_lower_literals()
    ensures
        lower(".txt"@) == ".txt"@,
        lower(".md.txt"@) == ".md.txt"@,
        lower(".md"@) == ".md"@,
{
    reveal_strlit(".txt");
    reveal_strlit(".md.txt");
    reveal_strlit(".md");
    assert(lower(".txt"@) =~= ".txt"@);
    assert(lower(".md.txt"@) =~= ".md.txt"@);
    assert(lower(".md"@) =~= ".md"@);
}

/// A text whose front ends with a suffix ends, with its back, with both.
proof fn lemma_ends_with_more(front: Seq<char>, suffix: Seq<char>, back: Seq<char>)
    requires
        ends_with(front, suffix),
    ensures
        ends_with(front + back, suffix + back),
{
    let whole = front + back;
    let end = suffix + back;
    assert(whole.skip(whole.len() - end.len()) =~= front.skip(front.len() - suffix.len()) + back);
}

/// No file travels under the ending of a markdown file.
pub proof fn law_names_travel_as_text_files(name: Seq<char>)
    ensures
        ends_with(lower(travel_name(name)), ".txt"@),
{
    reveal_strlit(".txt");
    reveal_strlit(".md.txt");
    reveal_strlit(".markdown.txt");
    lemma_lower_literals();
    let small = lower(name);
    if travel_ending(name) {
        if ends_with(small, ".md.txt"@) {
            assert(small.skip(small.len() - 4) =~= small.skip(small.len() - 7).skip(3));
        } else {
            assert(small.skip(small.len() - 4) =~= small.skip(small.len() - 13).skip(9));
        }
        assert(small.skip(small.len() - 4) =~= ".txt"@);
    } else if plain_ending(name) {
        lemma_lower_concat(name, ".txt"@);
        let whole = small + ".txt"@;
        assert(whole.skip(whole.len() - 4) =~= ".txt"@);
    } else if !ends_with(small, ".txt"@) {
        lemma_lower_concat(name, ".md.txt"@);
        let whole = small + ".md.txt"@;
        assert(whole.skip(whole.len() - 4) =~= ".md.txt"@.skip(3));
        assert(".md.txt"@.skip(3) =~= ".txt"@);
    }
}

proof fn lemma_plain_travels(name: Seq<char>)
    requires
        plain_ending(name),
    ensures
        travel_name(name) == name + ".txt"@,
        travel_ending(name + ".txt"@),
{
    reveal_strlit(".txt");
    reveal_strlit(".md");
    reveal_strlit(".markdown");
    reveal_strlit(".md.txt");
    reveal_strlit(".markdown.txt");
    let small = lower(name);
    let last = small.len() - 1;
    if ends_with(small, ".md"@) {
        assert(small[last] == small.skip(small.len() - 3)[2]);
    } else {
        assert(small[last] == small.skip(small.len() - 9)[8]);
    }
    if ends_with(small, ".md.txt"@) {
        assert(small[last] == small.skip(small.len() - 7)[6]);
    }
    if ends_with(small, ".markdown.txt"@) {
        assert(small[last] == small.skip(small.len() - 13)[12]);
    }
    lemma_lower_literals();
    lemma_lower_concat(name, ".txt"@);
    if ends_with(small, ".md"@) {
        lemma_ends_with_more(small, ".md"@, ".txt"@);
        assert(".md"@ + ".txt"@ =~= ".md.txt"@);
    } else {
        lemma_ends_with_more(small, ".markdown"@, ".txt"@);
        assert(".markdown"@ + ".txt"@ =~= ".markdown.txt"@);
    }
}

/// A markdown file that travels arrives under the name that it left under.
pub proof fn law_markdown_names_survive_the_way(name: Seq<char>)
    requires
        plain_ending(name),
    ensures
        arrived_name(travel_name(name)) == name,
{
    reveal_strlit(".txt");
    lemma_plain_travels(name);
    assert((name + ".txt"@).take(name.len() as int) =~= name);
}

proof fn lemma_safe_identity(text: Seq<char>)
    requires
        all_safe(text),
    ensures
        safe(text) == text,
{
    assert(safe(text) =~= text);
}

proof fn lemma_safe_is_safe(text: Seq<char>)
    ensures
        all_safe(safe(text)),
        safe(text).len() == text.len(),
{
}

proof fn lemma_trimmed_safe(text: Seq<char>, off: Trimmed)
    requires
        all_safe(text),
    ensures
        all_safe(trim_both(text, off)),
{
    let front = trim_front(text, off);
    lemma_trim_front(text, off);
    lemma_trim_back(front, off);
    let both = trim_both(text, off);
    assert forall|i: int| 0 <= i < both.len() implies safe_char(#[trigger] both[i]) by {
        assert(both[i] == front[i]);
        assert(front[i] == text[text.len() - front.len() + i]);
    }
}

/// A name under which a file is kept is not empty, holds nothing but letters,
/// digits, dots, dashes and underscores, so no separator of paths, and is its own
/// safe name.
pub proof fn law_kept_names_are_safe(value: Seq<char>)
    ensures
        safe_file_name(value).len() > 0,
        all_safe(safe_file_name(value)),
        !safe_file_name(value).contains('/'),
        safe_file_name(safe_file_name(value)) == safe_file_name(value),
{
    let off = Trimmed::Only('_');
    let name = safe_file_name(value);
    lemma_safe_is_safe(value);
    lemma_trimmed_safe(safe(value), off);
    lemma_trim_tight(safe(value), off);
    reveal_strlit("document.md");
    assert("document.md"@.len() == 11);
    assert(all_safe("document.md"@));
    assert(tight(name, off));
    lemma_safe_identity(name);
    lemma_trim_keeps_tight(name, off);
    if name.contains('/') {
        let i = choose|i: int| 0 <= i < name.len() && name[i] == '/';
        assert(safe_char(name[i]));
    }
}

/// A file that an agent sends has a name that holds only letters, digits, dots,
/// dashes and underscores, and ends as a markdown file does.
pub proof fn law_reply_names_are_markdown(value: Seq<char>)
    ensures
        all_safe(reply_file_name(value)),
        plain_ending(reply_file_name(value)),
        ends_with(reply_file_name(value), ".md"@) || ends_with(
            reply_file_name(value),
            ".markdown"@,
        ),
{
    let clean = safe(trim(value));
    lemma_safe_is_safe(trim(value));
    reveal_strlit("reply.md");
    reveal_strlit(".md");
    reveal_strlit(".markdown");
    assert(all_safe("reply.md"@));
    let candidate = if clean.len() == 0 {
        "reply.md"@
    } else {
        clean
    };
    let name = reply_file_name(value);
    if name != candidate {
        assert(name.skip(name.len() - 3) =~= ".md"@);
    }
    assert(all_safe(name));
    if ends_with(name, ".md"@) {
        lemma_lower_ends_with(name, ".md"@);
        assert(lower(".md"@) =~= ".md"@);
    } else {
        lemma_lower_ends_with(name, ".markdown"@);
        assert(lower(".markdown"@) =~= ".markdown"@);
    }
}

proof fn lemma_lower_ends_with(text: Seq<char>, suffix: Seq<char>)
    requires
        ends_with(text, suffix),
    ensures
        ends_with(lower(text), lower(suffix)),
{
    assert(lower(text).skip(text.len() - suffix.len()) =~= lower(
        text.skip(text.len() - suffix.len()),
    ));
}

/// A markdown file with a safe name that neither begins nor ends with an
/// underscore comes in again, whatever type is given, under the name that it was
/// sent under.
pub proof fn law_a_sent_document_comes_back_under_its_name(
    name: Seq<char>,
    message_id: Seq<char>,
    file_type: Option<Seq<char>>,
)
    requires
        all_safe(name),
        plain_ending(name),
        tight(name, Trimmed::Only('_')),
    ensures
        resolved_name(message_id, Some(travel_name(name)), file_type)
            == Ok::<Seq<char>, BridgeErrorView>(name),
{
    let sent = travel_name(name);
    reveal_strlit(".txt");
    reveal_strlit(".md");
    reveal_strlit(".markdown");
    lemma_plain_travels(name);
    law_markdown_names_survive_the_way(name);
    assert(name.len() > 0);
    assert(all_safe(sent)) by {
        assert(all_safe(".txt"@));
    }
    assert(safe_char(sent.first()) && safe_char(sent.last()));
    assert(sent.first() == name.first());
    lemma_trim_keeps_tight(sent, Trimmed::WhiteSpace);
    assert(trim(sent) == sent);
    assert(markdown_file_name(sent));
    lemma_safe_identity(sent);
    lemma_trim_keeps_tight(sent, Trimmed::Only('_'));
    assert(safe_file_name(sent) == sent);
}

/// The character may stand in a file name: a letter or digit of ASCII, a dot, an underscore
/// or a dash.
pub open spec fn fit_for_names(c: char) -> bool {
    let code = c as u32;
    ||| 0x30 <= code <= 0x39
    ||| 0x41 <= code <= 0x5a
    ||| 0x61 <= code <= 0x7a
    ||| c == '.'
    ||| c == '_'
    ||| c == '-'
}

/// The text, with an underscore in the place of each character that may not stand in a file
/// name; no character is left out.
pub open spec fn made_fit(text: Seq<char>) -> Seq<char> {
    Seq::new(
        text.len(),
        |i: int|
            if fit_for_names(text[i]) {
                text[i]
            } else {
                '_'
            },
    )
}

proof fn lemma_made_fit(text: Seq<char>)
    ensures
        safe(text) == made_fit(text),
{
    assert(safe(text) =~= made_fit(text));
}

/// A file is kept under its own name, whole, with an underscore for each character that may
/// not stand in a name, but for underscores at the ends; a name of which nothing is left is
/// replaced. A name that needs no change stays.
pub proof fn law_a_kept_name_has_every_character(value: &str, out: String)
    requires
        call_ensures(sanitize_file_name, (value,), out),
    ensures
        ({
            let kept = trim_both(made_fit(value@), Trimmed::Only('_'));
            out@ == (if kept.len() == 0 {
                "document.md"@
            } else {
                kept
            })
        }),
        value@.len() > 0 && tight(value@, Trimmed::Only('_')) && (forall|i: int|
            0 <= i < value@.len() ==> fit_for_names(#[trigger] value@[i])) ==> out@ == value@,
{
    lemma_made_fit(value@);
    if forall|i: int| 0 <= i < value@.len() ==> fit_for_names(#[trigger] value@[i]) {
        assert(made_fit(value@) =~= value@);
        if tight(value@, Trimmed::Only('_')) {
            lemma_trim_keeps_tight(value@, Trimmed::Only('_'));
        }
    }
}

/// A file that an agent sends has the name that it gives, whole but for white space at the
/// ends, with an underscore for each character that may not stand in a name, and with the
/// ending of a markdown file behind it where it has none.
pub proof fn law_a_sent_name_has_every_character(value: Seq<char>)
    ensures
        ({
            let given = made_fit(trim(value));
            let name = if given.len() == 0 {
                "reply.md"@
            } else {
                given
            };
            &&& ends_with(name, ".md"@) || ends_with(name, ".markdown"@) ==> reply_file_name(value)
                == name
            &&& !ends_with(name, ".md"@) && !ends_with(name, ".markdown"@) ==> reply_file_name(
                value,
            ) == name + ".md"@
        }),
{
    lemma_made_fit(trim(value));
}

/// A markdown file whose name needs no change comes in under its own name, whatever type is
/// given. One without a name is named after its message. One that is no markdown is refused
/// by its whole name.
pub proof fn law_a_file_comes_in_under_its_name(
    message_id: Seq<char>,
    name: Seq<char>,
    file_type: Option<Seq<char>>,
)
    ensures
        all_safe(name) && plain_ending(name) && tight(name, Trimmed::Only('_')) ==> resolved_name(
            message_id,
            Some(name),
            file_type,
        ) == Ok::<Seq<char>, BridgeErrorView>(name),
        file_type is None ==> resolved_name(message_id, None, file_type) == Ok::<
            Seq<char>,
            BridgeErrorView,
        >(safe_file_name(message_id) + ".md"@),
        !markdown_file_name(name) && file_type is None ==> resolved_name(
            message_id,
            Some(name),
            file_type,
        ) == Err::<Seq<char>, BridgeErrorView>(
            BridgeErrorView::InputRejected(
                "当前只支持 .md / .markdown 文件，收到 `"@ + name + "`。"@,
            ),
        ),
{
    if all_safe(name) && plain_ending(name) && tight(name, Trimmed::Only('_')) {
        reveal_strlit(".md");
        reveal_strlit(".markdown");
        reveal_strlit(".md.txt");
        reveal_strlit(".markdown.txt");
        assert(name.len() > 0);
        assert(safe_char(name.first()) && safe_char(name.last()));
        lemma_trim_keeps_tight(name, Trimmed::WhiteSpace);
        assert(trim(name) == name);
        assert(markdown_file_name(name));
        lemma_safe_identity(name);
        lemma_trim_keeps_tight(name, Trimmed::Only('_'));
        let small = lower(name);
        let n = small.len() as int;
        if ends_with(small, ".md"@) {
            assert(small.skip(n - 3)[2] == small[n - 1]);
            assert(small[n - 1] == 'd');
        } else {
            assert(small.skip(n - 9)[8] == small[n - 1]);
            assert(small[n - 1] == 'n');
        }
        if ends_with(small, ".md.txt"@) {
            assert(small.skip(n - 7)[6] == small[n - 1]);
        }
        if ends_with(small, ".markdown.txt"@) {
            assert(small.skip(n - 13)[12] == small[n - 1]);
        }
    }
    if file_type is None {
        assert(trim(Seq::<char>::empty()).len() == 0) by {
            lemma_trim_tight(Seq::<char>::empty(), Trimmed::WhiteSpace);
        }
        reveal_strlit("md");
        reveal_strlit("markdown");
        reveal_strlit("text/markdown");
        reveal_strlit("text/x-markdown");
        assert(lower(trim(Seq::<char>::empty())).len() == 0);
        assert("md"@.len() == 2 && "markdown"@.len() == 8);
        assert("text/markdown"@.len() == 13 && "text/x-markdown"@.len() == 15);
        assert(!markdown_type(file_type));
    }
}

/// Bytes are refused if there are more than allowed, and else if one of them is zero, each
/// time with the whole name; all others are let through, whatever they are.
pub proof fn law_only_large_files_and_zero_bytes_are_refused(
    file_name: &str,
    bytes: &[u8],
    max: usize,
    out: Result<(), BridgeError>,
)
    requires
        call_ensures(validate_markdown_bytes, (file_name, bytes, max), out),
    ensures
        bytes@.len() <= max && (forall|i: int| 0 <= i < bytes@.len() ==> #[trigger] bytes@[i] != 0)
            ==> out is Ok,
        bytes@.len() > max ==> (out matches Err(error) && error@
            == BridgeErrorView::InputRejected(
            "markdown 文档 `"@ + file_name@ + "` 过大，已超过 "@ + decimal(max as nat / 1024)
                + " KB 限制。"@,
        )),
        bytes@.len() <= max && (exists|i: int| 0 <= i < bytes@.len() && #[trigger] bytes@[i] == 0)
            ==> (out matches Err(error) && error@ == BridgeErrorView::InputRejected(
            "markdown 文档 `"@ + file_name@ + "` 看起来不是纯文本文件。"@,
        )),
{
    if exists|i: int| 0 <= i < bytes@.len() && #[trigger] bytes@[i] == 0 {
        let i = choose|i: int| 0 <= i < bytes@.len() && #[trigger] bytes@[i] == 0;
        assert(bytes@.contains(0u8));
    }
}

/// A file is taken for markdown by the end of its name, in any case and with white space
/// around it or without, whatever stands before the end.
pub proof fn law_the_end_of_a_name_tells_markdown(value: &str, out: bool)
    requires
        call_ensures(is_markdown_file_name, (value,), out),
    ensures
        out <==> {
            let name = lower(trim(value@));
            ||| ends_with(name, ".md"@)
            ||| ends_with(name, ".markdown"@)
            ||| ends_with(name, ".md.txt"@)
            ||| ends_with(name, ".markdown.txt"@)
        },
{
}

/// Markdown has two media types, in any case and with white space around them or without.
pub proof fn law_two_media_types_are_markdown(value: &str, out: bool)
    requires
        call_ensures(is_markdown_mime, (value,), out),
    ensures
        out <==> lower(trim(value@)) == "text/markdown"@ || lower(trim(value@))
            == "text/x-markdown"@,
{
}

/// A type tells markdown by one of four names, in any case and with white space around it or
/// without.
pub proof fn law_four_types_are_markdown(value: String, out: bool, none: bool)
    requires
        call_ensures(is_markdown_file_type, (&Some(value),), out),
        call_ensures(is_markdown_file_type, (&None::<String>,), none),
    ensures
        out <==> {
            let name = lower(trim(value@));
            ||| name == "md"@
            ||| name == "markdown"@
            ||| name == "text/markdown"@
            ||| name == "text/x-markdown"@
        },
        !none,
{
    lemma_trim_tight(Seq::<char>::empty(), Trimmed::WhiteSpace);
    reveal_strlit("md");
    reveal_strlit("markdown");
    reveal_strlit("text/markdown");
    reveal_strlit("text/x-markdown");
    assert(lower(trim(Seq::<char>::empty())).len() == 0);
    assert("md"@.len() == 2 && "markdown"@.len() == 8);
    assert("text/markdown"@.len() == 13 && "text/x-markdown"@.len() == 15);
}

/// A name that does not end as markdown files do on their way stays as it is on arrival, and
/// one that does loses the four characters that made it a text file.
pub proof fn law_only_the_travel_ending_is_taken_off(value: &str, out: String)
    requires
        call_ensures(normalize_markdown_file_name, (value,), out),
    ensures
        ({
            let small = lower(value@);
            if ends_with(small, ".md.txt"@) || ends_with(small, ".markdown.txt"@) {
                out@ == value@.take(value@.len() - 4)
            } else {
                out@ == value@
            }
        }),
{
}

/// On its way a markdown file has the ending of a text file behind its own; one that has an
/// ending for the way already, or that of a text file, keeps its name, and any other gets
/// both.
pub proof fn law_a_name_gets_what_it_lacks_for_the_way(value: &str, out: String)
    requires
        call_ensures(markdown_transport_file_name, (value,), out),
    ensures
        ({
            let small = lower(value@);
            let text = ends_with(small, ".txt"@);
            let plain = ends_with(small, ".md"@) || ends_with(small, ".markdown"@);
            &&& text ==> out@ == value@
            &&& plain ==> out@ == value@ + ".txt"@
            &&& !text && !plain ==> out@ == value@ + ".md.txt"@
        }),
{
    reveal_strlit(".txt");
    reveal_strlit(".md");
    reveal_strlit(".markdown");
    reveal_strlit(".md.txt");
    reveal_strlit(".markdown.txt");
    let small = lower(value@);
    let n = small.len() as int;
    if ends_with(small, ".md"@) {
        assert(small.skip(n - 3)[2] == small[n - 1]);
    }
    if ends_with(small, ".markdown"@) {
        assert(small.skip(n - 9)[8] == small[n - 1]);
    }
    if ends_with(small, ".txt"@) {
        assert(small.skip(n - 4)[3] == small[n - 1]);
    }
    if ends_with(small, ".md.txt"@) {
        assert(small.skip(n - 4) =~= small.skip(n - 7).skip(3));
        assert(small.skip(n - 4) =~= ".txt"@);
    }
    if ends_with(small, ".markdown.txt"@) {
        assert(small.skip(n - 4) =~= small.skip(n - 13).skip(9));
        assert(small.skip(n - 4) =~= ".txt"@);
    }
}

/// A file that is markdown by its type alone gets the ending of markdown behind its name. One
/// that has no name and another type is refused.
pub proof fn law_the_type_of_a_file_can_tell_markdown(
    message_id: Seq<char>,
    name: Seq<char>,
    file_type: Option<Seq<char>>,
)
    ensures
        markdown_type(file_type) && !markdown_file_name(name) && !markdown_file_name(
            safe_file_name(name),
        ) ==> resolved_name(message_id, Some(name), file_type) == Ok::<Seq<char>, BridgeErrorView>(
            safe_file_name(name) + ".md"@,
        ),
        markdown_type(file_type) ==> resolved_name(message_id, None, file_type) == Ok::<
            Seq<char>,
            BridgeErrorView,
        >(safe_file_name(message_id) + ".md"@),
        !markdown_type(file_type) && !markdown_file_name(name) ==> resolved_name(
            message_id,
            Some(name),
            file_type,
        ) == Err::<Seq<char>, BridgeErrorView>(
            BridgeErrorView::InputRejected(
                "当前只支持 .md / .markdown 文件，收到 `"@ + name + "`。"@,
            ),
        ),
        !markdown_type(file_type) && file_type is Some ==> resolved_name(
            message_id,
            None,
            file_type,
        ) == Err::<Seq<char>, BridgeErrorView>(
            BridgeErrorView::InputRejected("当前只支持 markdown 文件输入。"@),
        ),
{
}

} // verus!
