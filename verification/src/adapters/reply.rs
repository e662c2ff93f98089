//! What an agent printed, as a reply: texts, and documents between tags.
use vstd::prelude::*;
use vstd::slice::slice_subrange;
use vstd::string::StrSliceExecFns;
use vstd::utf8::encode_utf8;

use crate::domain::{
    block_views, text_reply, AgentReply, BinarySource, BinarySourceView, MessageBlock,
    MessageBlockView,
};
use crate::markdown::{reply_file_name, sanitize_reply_file_name};
use crate::text::chars::{to_chars, to_text};
use crate::text::search::{
    find, lemma_find, slice_find, slice_find_char, slice_find_str,
};
use crate::text::trim::{trim, trim_both, trim_slice, trim_slice_both, Trimmed};

verus! {

/// What the tag that opens a document begins with.
pub open spec fn opening() -> Seq<char> {
    "<feishu2acp-document"@
}

/// The tag that closes a document.
pub open spec fn closing() -> Seq<char> {
    "</feishu2acp-document>"@
}

/// A stretch of text, trimmed; none if nothing is left of it.
pub open spec fn text_piece(fragment: Seq<char>) -> Seq<MessageBlockView> {
    if trim(fragment).len() == 0 {
        seq![]
    } else {
        text_reply(trim(fragment))
    }
}

/// A markdown document with the given name and content.
pub open spec fn document(name: Seq<char>, content: Seq<char>) -> MessageBlockView {
    MessageBlockView::Document {
        mime_type: "text/markdown"@,
        file_name: name,
        source: BinarySourceView::Bytes(encode_utf8(content)),
        extracted_text: Some(content),
    }
}

/// A document, without the line ends before and behind its content; none if
/// nothing is left of it.
pub open spec fn document_piece(name: Seq<char>, inner: Seq<char>) -> Seq<MessageBlockView> {
    let content = trim_both(inner, Trimmed::Only('\n'));
    if content.len() == 0 {
        seq![]
    } else {
        seq![document(name, content)]
    }
}

/// The file name that an opening tag gives.
pub open spec fn tag_file_name(tag: Seq<char>) -> Option<Seq<char>> {
    match find(tag, "file_name=\""@) {
        Some(at) => {
            let value = tag.skip(at + "file_name=\""@.len());
            match find(value, seq!['"']) {
                Some(end) => Some(reply_file_name(value.take(end))),
                None => None,
            }
        },
        None => None,
    }
}

/// A document that stands in a text: where its opening tag begins, the name that
/// it gives, and where the content and the rest of the text begin.
pub struct Found {
    pub start: int,
    pub name: Seq<char>,
    pub inner: Seq<char>,
    pub rest: Seq<char>,
}

/// What a text is up to its first document.
pub enum Scan {
    /// The text holds no opening tag.
    Nothing,
    /// The text holds an opening tag that is not a document's.
    Broken,
    Document(Found),
}

/// The first document of a text.
pub open spec fn scan(text: Seq<char>) -> Scan {
    match find(text, opening()) {
        None => Scan::Nothing,
        Some(start) => {
            let opened = text.skip(start);
            match find(opened, seq!['>']) {
                None => Scan::Broken,
                Some(end) => match tag_file_name(opened.take(end + 1)) {
                    None => Scan::Broken,
                    Some(name) => {
                        let body = opened.skip(end + 1);
                        match find(body, closing()) {
                            None => Scan::Broken,
                            Some(close) => Scan::Document(
                                Found {
                                    start,
                                    name,
                                    inner: body.take(close),
                                    rest: body.skip(close + closing().len()),
                                },
                            ),
                        }
                    },
                },
            }
        },
    }
}

/// The rest of a text behind its first document is shorter than the text.
pub proof fn lemma_scan(text: Seq<char>)
    ensures
        scan(text) matches Scan::Document(found) ==> 0 <= found.start <= text.len()
            && found.rest.len() < text.len(),
{
    lemma_find(text, opening());
    if let Some(start) = find(text, opening()) {
        let opened = text.skip(start);
        lemma_find(opened, seq!['>']);
        if let Some(end) = find(opened, seq!['>']) {
            lemma_find(opened.skip(end + 1), closing());
        }
    }
}

/// The pieces of a text, in their order, if every opening tag in it is a
/// document's.
pub open spec fn pieces(text: Seq<char>) -> Option<Seq<MessageBlockView>>
    decreases text.len(),
    via pieces_decreases
{
    match scan(text) {
        Scan::Nothing => Some(text_piece(text)),
        Scan::Broken => None,
        Scan::Document(found) => match pieces(found.rest) {
            Some(rest) => Some(
                text_piece(text.take(found.start)) + document_piece(found.name, found.inner) + rest,
            ),
            None => None,
        },
    }
}

#[via_fn]
proof fn pieces_decreases(text: Seq<char>) {
    lemma_scan(text);
}

/// The reply that an output is: its pieces, or where a tag is broken, the output
/// as one text.
pub open spec fn agent_reply(raw: Seq<char>) -> Seq<MessageBlockView> {
    match pieces(raw) {
        Some(blocks) => blocks,
        None => text_piece(raw),
    }
}

/// A document that stands in a slice.
struct FoundSlice<'a> {
    start: usize,
    name: String,
    inner: &'a [char],
    rest: &'a [char],
}

enum ScanSlice<'a> {
    Nothing,
    Broken,
    Document(FoundSlice<'a>),
}

spec fn scan_view(scan: ScanSlice) -> Scan {
    match scan {
        ScanSlice::Nothing => Scan::Nothing,
        ScanSlice::Broken => Scan::Broken,
        ScanSlice::Document(found) => Scan::Document(
            Found {
                start: found.start as int,
                name: found.name@,
                inner: found.inner@,
                rest: found.rest@,
            },
        ),
    }
}

/// The first document of a slice.
fn scan_slice(text: &[char]) -> (out: ScanSlice<'_>)
    ensures
        scan_view(out) == scan(text@),
{
    let start = match slice_find_str(text, "<feishu2acp-document") {
        Some(start) => start,
        None => {
            return ScanSlice::Nothing;
        },
    };
    let opened = slice_subrange(text, start, text.len());
    assert(opened@ =~= text@.skip(start as int));
    let end = match slice_find_char(opened, '>') {
        Some(end) => end,
        None => {
            return ScanSlice::Broken;
        },
    };
    let tag = slice_subrange(opened, 0, end + 1);
    assert(tag@ =~= opened@.take(end + 1));
    let name = match parse_document_file_name(tag) {
        Some(name) => name,
        None => {
            return ScanSlice::Broken;
        },
    };
    let body = slice_subrange(opened, end + 1, opened.len());
    assert(body@ =~= opened@.skip(end + 1));
    let closing_chars = to_chars("</feishu2acp-document>");
    let close = match slice_find(body, closing_chars.as_slice()) {
        Some(close) => close,
        None => {
            return ScanSlice::Broken;
        },
    };
    let inner = slice_subrange(body, 0, close);
    let rest = slice_subrange(body, close + closing_chars.len(), body.len());
    assert(inner@ =~= body@.take(close as int));
    assert(rest@ =~= body@.skip(close + closing().len()));
    ScanSlice::Document(FoundSlice { start, name, inner, rest })
}

/// The file name that an opening tag gives.
fn parse_document_file_name(start_tag: &[char]) -> (out: Option<String>)
    ensures
        match out {
            Some(name) => tag_file_name(start_tag@) == Some(name@),
            None => tag_file_name(start_tag@) is None,
        },
{
    let attribute = to_chars("file_name=\"");
    let at = match slice_find(start_tag, attribute.as_slice()) {
        Some(at) => at,
        None => {
            return None;
        },
    };
    let end_of_tag = start_tag.len();
    let value = slice_subrange(start_tag, at + attribute.len(), end_of_tag);
    assert(value@ =~= start_tag@.skip(at + "file_name=\""@.len()));
    let end = match slice_find_char(value, '"') {
        Some(end) => end,
        None => {
            return None;
        },
    };
    let name = slice_subrange(value, 0, end);
    assert(name@ =~= value@.take(end as int));
    Some(sanitize_reply_file_name(name))
}

/// The reply that an output is.
pub fn parse_agent_reply(raw: &str) -> (out: AgentReply)
    ensures
        out@ == agent_reply(raw@),
{
    let chars = to_chars(raw);
    let mut blocks: Vec<MessageBlock> = Vec::new();
    let mut remaining = chars.as_slice();
    assert(block_views(blocks@) =~= seq![]);
    assert(pieces(raw@) matches Some(all) ==> block_views(blocks@) + all =~= all);
    loop
        invariant
            chars@ == raw@,
            match pieces(remaining@) {
                Some(rest) => pieces(raw@) == Some(block_views(blocks@) + rest),
                None => pieces(raw@) is None,
            },
        decreases remaining@.len(),
    {
        let ghost before = block_views(blocks@);
        let ghost text = remaining@;
        proof {
            lemma_scan(text);
        }
        match scan_slice(remaining) {
            ScanSlice::Nothing => {
                push_text_reply_block(&mut blocks, remaining);
                return AgentReply { blocks };
            },
            ScanSlice::Broken => {
                return plain_text_reply(chars.as_slice());
            },
            ScanSlice::Document(found) => {
                let ghost name = found.name@;
                let head = slice_subrange(remaining, 0, found.start);
                assert(head@ =~= text.take(found.start as int));
                push_text_reply_block(&mut blocks, head);
                push_document_reply_block(&mut blocks, found.name, found.inner);
                remaining = found.rest;
                proof {
                    let front = text_piece(head@) + document_piece(name, found.inner@);
                    assert(block_views(blocks@) =~= before + front);
                    if let Some(rest) = pieces(remaining@) {
                        assert(before + (front + rest) =~= block_views(blocks@) + rest);
                    }
                }
            },
        }
    }
}

/// The output as one text.
fn plain_text_reply(raw: &[char]) -> (out: AgentReply)
    ensures
        out@ == text_piece(raw@),
{
    let mut blocks: Vec<MessageBlock> = Vec::new();
    push_text_reply_block(&mut blocks, raw);
    let out = AgentReply { blocks };
    assert(out@ =~= text_piece(raw@));
    out
}

/// Puts a stretch of text behind the blocks.
fn push_text_reply_block(blocks: &mut Vec<MessageBlock>, fragment: &[char])
    ensures
        block_views(final(blocks)@) == block_views(old(blocks)@) + text_piece(fragment@),
{
    let ghost before = block_views(blocks@);
    let trimmed = trim_slice(fragment);
    if trimmed.len() > 0 {
        let block = MessageBlock::Text { text: to_text(trimmed) };
        blocks.push(block);
        assert(block_views(blocks@) =~= before.push(block@));
    }
    assert(block_views(blocks@) =~= before + text_piece(fragment@));
}

/// Puts a document behind the blocks.
fn push_document_reply_block(blocks: &mut Vec<MessageBlock>, name: String, inner: &[char])
    ensures
        block_views(final(blocks)@) == block_views(old(blocks)@) + document_piece(name@, inner@),
{
    let ghost before = block_views(blocks@);
    let ghost file_name = name@;
    let content = trim_slice_both(inner, Trimmed::Only('\n'));
    if content.len() > 0 {
        let text = to_text(content);
        let bytes = text.as_str().as_bytes_vec();
        let block = MessageBlock::Document {
            mime_type: "text/markdown".to_owned(),
            file_name: name,
            source: BinarySource::Bytes(bytes),
            extracted_text: Some(text),
        };
        assert(block@ == document(file_name, content@));
        blocks.push(block);
        assert(block_views(blocks@) =~= before.push(block@));
    }
    assert(block_views(blocks@) =~= before + document_piece(file_name, inner@));
}

} // verus!
