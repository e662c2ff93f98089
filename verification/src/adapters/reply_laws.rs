//! What holds of every output of an agent.
use vstd::prelude::*;
use vstd::utf8::encode_utf8;

use crate::adapters::reply::{
    agent_reply, closing, document, lemma_scan, opening, pieces, scan, tag_file_name, text_piece,
    Found, Scan,
};
use crate::domain::{BinarySourceView, MessageBlockView};
use crate::markdown::{plain_ending, reply_file_name};
use crate::markdown_laws::law_reply_names_are_markdown;
use crate::text::search::{
    find, first_at, lemma_find_char, lemma_find_some, lemma_occurrence_is_found, occurs_at,
};
use crate::text::trim::{lemma_trim_padded, lemma_trim_tight, tight, Trimmed};

verus! {

/// A document with the given name and content, as an agent writes it.
pub open spec fn tagged(name: Seq<char>, content: Seq<char>) -> Seq<char> {
    "<feishu2acp-document file_name=\""@ + name + "\">\n"@ + content
        + "\n</feishu2acp-document>"@
}

/// The opening tag begins with its only angle bracket.
proof fn lemma_opening_char(k: int)
    requires
        0 < k < 20,
    ensures
        opening()[k] != '<',
{
    reveal_strlit("<feishu2acp-document");
}

/// The closing tag has one angle bracket that opens, at its beginning, and no
/// line feed.
proof fn lemma_closing_char(k: int)
    requires
        0 <= k < 22,
    ensures
        closing()[k] != '\n',
        k > 0 ==> closing()[k] != '<',
{
    reveal_strlit("</feishu2acp-document>");
}

/// Before the name of a document no bracket closes, and the only equals sign is
/// that of the attribute.
proof fn lemma_head_char(k: int)
    requires
        0 <= k < 32,
    ensures
        "<feishu2acp-document file_name=\""@[k] != '>',
        k < 30 ==> "<feishu2acp-document file_name=\""@[k] != '=',
{
    reveal_strlit("<feishu2acp-document file_name=\"");
}

/// A needle whose first character does not recur in it is found at the end of a
/// text that does not hold it.
proof fn lemma_found_behind(before: Seq<char>, needle: Seq<char>, rest: Seq<char>)
    requires
        needle.len() > 0,
        find(before, needle) is None,
        forall|k: int| 0 < k < needle.len() ==> #[trigger] needle[k] != needle[0],
    ensures
        find(before + needle + rest, needle) == Some(before.len() as int),
{
    let text = before + needle + rest;
    let at = before.len() as int;
    assert(text.subrange(at, at + needle.len()) =~= needle);
    assert forall|j: int| 0 <= j < at implies !occurs_at(text, needle, j) by {
        if occurs_at(text, needle, j) {
            let part = text.subrange(j, j + needle.len());
            if j + needle.len() <= at {
                assert(before.subrange(j, j + needle.len()) =~= part);
                lemma_occurrence_is_found(before, needle, j);
            } else {
                assert(part[at - j] == text[at]);
                assert(needle[at - j] == needle[0]);
            }
        }
    }
    lemma_find_some(text, needle, at);
}

/// A character is found where it first stands.
proof fn lemma_found_char(text: Seq<char>, c: char, at: int)
    requires
        0 <= at < text.len(),
        text[at] == c,
        forall|j: int| 0 <= j < at ==> #[trigger] text[j] != c,
    ensures
        find(text, seq![c]) == Some(at),
{
    lemma_find_char(text, c);
}

/// The opening tag gives the name that stands in it.
proof fn lemma_tag_gives_name(name: Seq<char>)
    requires
        !name.contains('"'),
    ensures
        tag_file_name("<feishu2acp-document file_name=\""@ + name + "\">"@) == Some(
            reply_file_name(name),
        ),
{
    let head = "<feishu2acp-document file_name=\""@;
    let attribute = "file_name=\""@;
    let tag = head + name + "\">"@;
    reveal_strlit("<feishu2acp-document file_name=\"");
    reveal_strlit("file_name=\"");
    reveal_strlit("\">");
    assert(tag.subrange(21, 32) =~= attribute);
    assert forall|j: int| 0 <= j < 21 implies !occurs_at(tag, attribute, j) by {
        if occurs_at(tag, attribute, j) {
            let part = tag.subrange(j, j + 11);
            assert(part[9] == tag[j + 9]);
            lemma_head_char(j + 9);
            assert(tag[j + 9] == head[j + 9]);
        }
    }
    lemma_find_some(tag, attribute, 21);
    let value = tag.skip(32);
    assert(value =~= name + "\">"@);
    assert forall|j: int| 0 <= j < name.len() implies #[trigger] value[j] != '"' by {
        assert(value[j] == name[j]);
        assert(name.contains(name[j]));
    }
    lemma_found_char(value, '"', name.len() as int);
    assert(value.take(name.len() as int) =~= name);
}

/// A document between its tags is found, whatever stands before and behind it.
proof fn lemma_scan_tagged(
    before: Seq<char>,
    name: Seq<char>,
    content: Seq<char>,
    behind: Seq<char>,
)
    requires
        find(before, opening()) is None,
        !name.contains('"'),
        !name.contains('>'),
        find(content, closing()) is None,
    ensures
        scan(before + tagged(name, content) + behind) == Scan::Document(
            Found {
                start: before.len() as int,
                name: reply_file_name(name),
                inner: "\n"@ + content + "\n"@,
                rest: behind,
            },
        ),
{
    reveal_strlit("<feishu2acp-document");
    reveal_strlit("</feishu2acp-document>");
    reveal_strlit("<feishu2acp-document file_name=\"");
    reveal_strlit("\">\n");
    reveal_strlit("\">");
    reveal_strlit("\n");
    reveal_strlit("\n</feishu2acp-document>");
    let head = "<feishu2acp-document file_name=\""@;
    let text = before + tagged(name, content) + behind;
    let opened = tagged(name, content) + behind;
    assert(text.skip(before.len() as int) =~= opened);
    assert forall|k: int| 0 < k < opening().len() implies #[trigger] opening()[k]
        != opening()[0] by {
        lemma_opening_char(k);
    }
    assert(opened.take(20) =~= opening());
    assert(text =~= before + opening() + opened.skip(20));
    lemma_found_behind(before, opening(), opened.skip(20));

    let end: int = 33 + name.len() as int;
    assert(opened[end] == '>');
    assert forall|j: int| 0 <= j < end implies #[trigger] opened[j] != '>' by {
        if j < 32 {
            lemma_head_char(j);
            assert(opened[j] == head[j]);
        } else if j < 32 + name.len() {
            assert(opened[j] == name[j - 32]);
            assert(name.contains(name[j - 32]));
        } else {
            assert(opened[j] == '"');
        }
    }
    lemma_found_char(opened, '>', end);
    assert(opened.take(end + 1) =~= head + name + "\">"@);
    lemma_tag_gives_name(name);

    let body = opened.skip(end + 1);
    let inner = "\n"@ + content + "\n"@;
    assert(body =~= inner + closing() + behind);
    assert(find(inner, closing()) is None) by {
        if find(inner, closing()) is Some {
            let at = find(inner, closing())->Some_0;
            assert(first_at(inner, closing(), at));
            let part = inner.subrange(at, at + 22);
            if at == 0 {
                assert(part[0] == inner[0]);
                lemma_closing_char(0);
            } else if at + 22 <= 1 + content.len() {
                assert(content.subrange(at - 1, at - 1 + 22) =~= part);
                lemma_occurrence_is_found(content, closing(), at - 1);
            } else {
                let k = 1 + content.len() - at;
                assert(part[k] == inner[1 + content.len() as int]);
                lemma_closing_char(k);
            }
        }
    }
    assert forall|k: int| 0 < k < closing().len() implies #[trigger] closing()[k]
        != closing()[0] by {
        lemma_closing_char(k);
    }
    lemma_found_behind(inner, closing(), behind);
    assert(body.take(inner.len() as int) =~= inner);
    assert(body.skip(inner.len() as int + 22) =~= behind);
}

/// A document that an agent writes between its tags is part of the reply, with
/// its content as it is and the name made safe; what stands before and behind it
/// is read as it would be alone. The name may hold neither a quotation mark nor a
/// closing bracket, the content no closing tag and no line feed at its ends.
pub proof fn law_a_tagged_document_is_read(
    before: Seq<char>,
    name: Seq<char>,
    content: Seq<char>,
    behind: Seq<char>,
)
    requires
        find(before, opening()) is None,
        !name.contains('"'),
        !name.contains('>'),
        find(content, closing()) is None,
        content.len() > 0,
        tight(content, Trimmed::Only('\n')),
    ensures
        pieces(before + tagged(name, content) + behind) == (match pieces(behind) {
            Some(rest) => Some(
                text_piece(before) + seq![document(reply_file_name(name), content)] + rest,
            ),
            None => None,
        }),
{
    let text = before + tagged(name, content) + behind;
    lemma_scan_tagged(before, name, content, behind);
    reveal_strlit("\n");
    let inner = "\n"@ + content + "\n"@;
    lemma_trim_padded("\n"@, content, "\n"@, Trimmed::Only('\n'));
    assert(text.take(before.len() as int) =~= before);
}

/// An output without an opening tag is one text, or nothing if it is blank.
pub proof fn law_plain_output_is_one_text(raw: Seq<char>)
    requires
        find(raw, opening()) is None,
    ensures
        agent_reply(raw) == text_piece(raw),
{
}

/// A block that a reply of an agent may hold: a text that is not blank and has no
/// white space at its ends, or a markdown document that is not empty and whose
/// bytes are its text.
pub open spec fn sound_block(block: MessageBlockView) -> bool {
    match block {
        MessageBlockView::Text { text } => text.len() > 0 && tight(text, Trimmed::WhiteSpace),
        MessageBlockView::Image { .. } => false,
        MessageBlockView::Document { mime_type, file_name, source, extracted_text } => {
            &&& mime_type == "text/markdown"@
            &&& plain_ending(file_name)
            &&& extracted_text matches Some(text) && text.len() > 0 && source
                == BinarySourceView::Bytes(encode_utf8(text))
        },
    }
}

/// Every block of the list may stand in a reply.
pub open spec fn sound_blocks(blocks: Seq<MessageBlockView>) -> bool {
    forall|i: int| 0 <= i < blocks.len() ==> sound_block(#[trigger] blocks[i])
}

proof fn lemma_text_piece_sound(fragment: Seq<char>)
    ensures
        sound_blocks(text_piece(fragment)),
{
    lemma_trim_tight(fragment, Trimmed::WhiteSpace);
}

proof fn lemma_pieces_sound(text: Seq<char>)
    ensures
        pieces(text) matches Some(blocks) ==> sound_blocks(blocks),
    decreases text.len(),
{
    lemma_scan(text);
    lemma_text_piece_sound(text);
    if let Scan::Document(found) = scan(text) {
        lemma_text_piece_sound(text.take(found.start));
        lemma_found_name(text);
        lemma_pieces_sound(found.rest);
    }
}

/// The name of a document that is found is a markdown name.
proof fn lemma_found_name(text: Seq<char>)
    ensures
        scan(text) matches Scan::Document(found) ==> plain_ending(found.name),
{
    if let Some(start) = find(text, opening()) {
        let opened = text.skip(start);
        if let Some(end) = find(opened, seq!['>']) {
            let tag = opened.take(end + 1);
            if let Some(at) = find(tag, "file_name=\""@) {
                let value = tag.skip(at + "file_name=\""@.len());
                if let Some(quote) = find(value, seq!['"']) {
                    law_reply_names_are_markdown(value.take(quote));
                }
            }
        }
    }
}

/// Whatever an agent prints, its reply holds only texts that are not blank and
/// markdown documents that are not empty.
pub proof fn law_replies_hold_sound_blocks(raw: Seq<char>)
    ensures
        sound_blocks(agent_reply(raw)),
{
    lemma_pieces_sound(raw);
    lemma_text_piece_sound(raw);
}

} // verus!
