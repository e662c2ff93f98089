//! The text that a run of blocks is to an agent.
use vstd::prelude::*;
use vstd::utf8::{decode_utf8, valid_utf8};

use crate::domain::{
    block_views, copy_bytes, BinarySource, BinarySourceView, MessageBlock, MessageBlockView,
};
use crate::error::{BridgeError, BridgeErrorView};
use crate::markdown::{is_markdown_mime, markdown_mime, text_outcome};
use crate::text::chars::{opt_text, texts, to_chars, to_text};
use crate::text::lines::{join, join_texts, join_two};
use crate::text::trim::{trim, trim_slice};
use crate::text::utf8::{text_from_utf8, utf8_fault};

verus! {

/// What reading a file came to: its bytes, or why it could not be read.
pub type FileRead = Result<Vec<u8>, String>;

pub type FileReadView = Result<Seq<u8>, Seq<char>>;

pub open spec fn file_read_view(read: FileRead) -> FileReadView {
    match read {
        Ok(bytes) => Ok(bytes@),
        Err(fault) => Err(fault@),
    }
}

pub open spec fn opt_file_read_view(read: Option<FileRead>) -> Option<FileReadView> {
    match read {
        Some(read) => Some(file_read_view(read)),
        None => None,
    }
}

/// The file that has to be read for a block: that of a markdown document whose
/// text is not at hand.
pub open spec fn needed_file(block: MessageBlockView) -> Option<Seq<char>> {
    match block {
        MessageBlockView::Document {
            mime_type,
            source: BinarySourceView::LocalPath(path),
            extracted_text: None,
            ..
        } => if markdown_mime(mime_type) {
            Some(path)
        } else {
            None
        },
        _ => None,
    }
}

/// The file that has to be read for a block.
pub fn file_to_read(block: &MessageBlock) -> (out: Option<String>)
    ensures
        opt_text(out) == needed_file(block@),
{
    match block {
        MessageBlock::Document { mime_type, file_name: _, source, extracted_text } => {
            match (source, extracted_text) {
                (BinarySource::LocalPath(path), None) => {
                    if is_markdown_mime(mime_type.as_str()) {
                        Some(path.clone())
                    } else {
                        None
                    }
                },
                _ => None,
            }
        },
        _ => None,
    }
}

/// The text of a document, or that it is none.
pub open spec fn decoded(bytes: Seq<u8>) -> Result<Seq<char>, BridgeErrorView> {
    if valid_utf8(bytes) {
        Ok(decode_utf8(bytes))
    } else {
        Err(undecodable(utf8_fault(bytes)))
    }
}

/// What is said of a document that is no text.
pub open spec fn undecodable(fault: Seq<char>) -> BridgeErrorView {
    BridgeErrorView::InputRejected("markdown 文档不是有效的 UTF-8 文本："@ + fault)
}

/// The text of a document, by what reading its bytes as a text came to.
pub fn document_text(read: Result<String, String>) -> (out: Result<String, BridgeError>)
    ensures
        text_outcome(out) == (match read {
            Ok(text) => Ok::<Seq<char>, BridgeErrorView>(text@),
            Err(fault) => Err::<Seq<char>, BridgeErrorView>(undecodable(fault@)),
        }),
{
    match read {
        Ok(text) => Ok(text),
        Err(fault) => Err(
            BridgeError::InputRejected(
                join_two("markdown 文档不是有效的 UTF-8 文本：", fault.as_str()),
            ),
        ),
    }
}

/// The text of a document, or that it is none.
pub fn decode_document(bytes: Vec<u8>) -> (out: Result<String, BridgeError>)
    ensures
        text_outcome(out) == decoded(bytes@),
{
    document_text(text_from_utf8(bytes))
}

/// The text of a document: the one at hand, else that of its bytes, which may be
/// in a file that was read.
pub open spec fn document_content(
    source: BinarySourceView,
    extracted_text: Option<Seq<char>>,
    read: Option<FileReadView>,
) -> Result<Seq<char>, BridgeErrorView> {
    match extracted_text {
        Some(text) => Ok(text),
        None => match source {
            BinarySourceView::Bytes(bytes) => decoded(bytes),
            BinarySourceView::LocalPath(path) => match read {
                Some(Ok(bytes)) => decoded(bytes),
                Some(Err(fault)) => Err(unreadable(path, fault)),
                None => Err(unreadable(path, seq![])),
            },
        },
    }
}

/// What is said of a document whose file cannot be read.
pub open spec fn unreadable(path: Seq<char>, fault: Seq<char>) -> BridgeErrorView {
    BridgeErrorView::Acpx("failed to read markdown document "@ + path + ": "@ + fault)
}

/// The text of a document.
pub fn read_document_text(
    source: &BinarySource,
    extracted_text: &Option<String>,
    read: Option<FileRead>,
) -> (out: Result<String, BridgeError>)
    requires
        extracted_text is None && source is LocalPath ==> read is Some,
    ensures
        text_outcome(out) == document_content(
            source@,
            opt_text(*extracted_text),
            opt_file_read_view(read),
        ),
{
    if let Some(text) = extracted_text {
        return Ok(text.clone());
    }
    match source {
        BinarySource::Bytes(bytes) => decode_document(copy_bytes(bytes)),
        BinarySource::LocalPath(path) => {
            let fault = match read {
                Some(Ok(bytes)) => {
                    return decode_document(bytes);
                },
                Some(Err(fault)) => fault,
                None => String::new(),
            };
            let mut message = "failed to read markdown document ".to_owned();
            message.append(path.as_str());
            message.append(": ");
            message.append(fault.as_str());
            Err(BridgeError::Acpx(message))
        },
    }
}

/// A document as it stands in a prompt.
pub open spec fn framed(file_name: Seq<char>, text: Seq<char>) -> Seq<char> {
    "附加 markdown 文档 `"@ + file_name + "`：\n<markdown-document file_name=\""@ + file_name
        + "\">\n"@ + text + "\n</markdown-document>"@
}

/// What a block adds to a prompt: a text that is not blank, or a markdown
/// document. Anything else is refused.
pub open spec fn section(block: MessageBlockView, read: Option<FileReadView>) -> Result<
    Option<Seq<char>>,
    BridgeErrorView,
> {
    match block {
        MessageBlockView::Text { text } => if trim(text).len() == 0 {
            Ok(None)
        } else {
            Ok(Some(trim(text)))
        },
        MessageBlockView::Document { mime_type, file_name, source, extracted_text } =>
            if markdown_mime(mime_type) {
                match document_content(source, extracted_text, read) {
                    Ok(text) => Ok(Some(framed(file_name, text))),
                    Err(error) => Err(error),
                }
            } else {
                Err(
                    BridgeErrorView::InputRejected(
                        "当前 ACPX CLI 适配器只支持 markdown 文档，暂不支持附件 `"@ + file_name
                            + "`。"@,
                    ),
                )
            },
        MessageBlockView::Image { .. } => Err(
            BridgeErrorView::InputRejected(
                "当前 ACPX CLI 适配器还不支持图片块，请先升级到支持结构化媒体的 ACPX/ACP 适配器。"@,
            ),
        ),
    }
}

/// What the first blocks add to a prompt, if none of them is refused; else why
/// the first of those that are is.
pub open spec fn sections(
    blocks: Seq<MessageBlockView>,
    reads: Seq<Option<FileReadView>>,
    count: nat,
) -> Result<Seq<Seq<char>>, BridgeErrorView>
    decreases count,
{
    if count == 0 {
        Ok(seq![])
    } else {
        match sections(blocks, reads, (count - 1) as nat) {
            Ok(list) => match section(blocks[count - 1], reads[count - 1]) {
                Ok(Some(text)) => Ok(list.push(text)),
                Ok(None) => Ok(list),
                Err(error) => Err(error),
            },
            Err(error) => Err(error),
        }
    }
}

/// The prompt that a run of blocks is.
pub open spec fn prompt_text(
    blocks: Seq<MessageBlockView>,
    reads: Seq<Option<FileReadView>>,
) -> Result<Seq<char>, BridgeErrorView> {
    match sections(blocks, reads, blocks.len()) {
        Ok(list) => if list.len() == 0 {
            Err(BridgeErrorView::InputRejected("消息内容为空。"@))
        } else {
            Ok(join(list, "\n\n"@))
        },
        Err(error) => Err(error),
    }
}

pub open spec fn read_views(reads: Seq<Option<FileRead>>) -> Seq<Option<FileReadView>> {
    reads.map_values(|read: Option<FileRead>| opt_file_read_view(read))
}

/// The files that have to be read have been.
pub open spec fn all_read(
    blocks: Seq<MessageBlockView>,
    reads: Seq<Option<FileReadView>>,
) -> bool {
    &&& reads.len() == blocks.len()
    &&& forall|i: int|
        0 <= i < blocks.len() && needed_file(#[trigger] blocks[i]) is Some ==> reads[i] is Some
}

/// What reading a section came to.
pub open spec fn section_outcome(result: Result<Option<String>, BridgeError>) -> Result<
    Option<Seq<char>>,
    BridgeErrorView,
> {
    match result {
        Ok(text) => Ok(opt_text(text)),
        Err(error) => Err(error@),
    }
}

fn render_block(block: &MessageBlock, read: Option<FileRead>) -> (out: Result<
    Option<String>,
    BridgeError,
>)
    requires
        needed_file(block@) is Some ==> read is Some,
    ensures
        section_outcome(out) == section(block@, opt_file_read_view(read)),
{
    match block {
        MessageBlock::Text { text } => {
            let chars = to_chars(text.as_str());
            let trimmed = trim_slice(chars.as_slice());
            if trimmed.len() == 0 {
                Ok(None)
            } else {
                Ok(Some(to_text(trimmed)))
            }
        },
        MessageBlock::Document { mime_type, file_name, source, extracted_text } => {
            if !is_markdown_mime(mime_type.as_str()) {
                let mut message =
                    "当前 ACPX CLI 适配器只支持 markdown 文档，暂不支持附件 `".to_owned();
                message.append(file_name.as_str());
                message.append("`。");
                return Err(BridgeError::InputRejected(message));
            }
            match read_document_text(source, extracted_text, read) {
                Ok(text) => {
                    let mut out = "附加 markdown 文档 `".to_owned();
                    out.append(file_name.as_str());
                    out.append("`：\n<markdown-document file_name=\"");
                    out.append(file_name.as_str());
                    out.append("\">\n");
                    out.append(text.as_str());
                    out.append("\n</markdown-document>");
                    Ok(Some(out))
                },
                Err(error) => Err(error),
            }
        },
        MessageBlock::Image { .. } => Err(
            BridgeError::InputRejected(
                "当前 ACPX CLI 适配器还不支持图片块，请先升级到支持结构化媒体的 ACPX/ACP 适配器。".to_owned(),
            ),
        ),
    }
}

/// The prompt that a run of blocks is. With each block goes what reading its file
/// came to, where it has one to read.
pub fn render_prompt_blocks(blocks: &[MessageBlock], reads: Vec<Option<FileRead>>) -> (out: Result<
    String,
    BridgeError,
>)
    requires
        all_read(block_views(blocks@), read_views(reads@)),
    ensures
        text_outcome(out) == prompt_text(block_views(blocks@), read_views(reads@)),
{
    let ghost all = block_views(blocks@);
    let ghost views = read_views(reads@);
    let mut list: Vec<String> = Vec::new();
    let mut i: usize = 0;
    assert(texts(list@) =~= seq![]);
    for read in it: reads.into_iter()
        invariant
            it.seq() == reads@,
            i == it.index(),
            all == block_views(blocks@),
            views == read_views(reads@),
            all_read(all, views),
            sections(all, views, i as nat) == Ok::<Seq<Seq<char>>, BridgeErrorView>(texts(list@)),
    {
        proof {
            assert(all[i as int] == blocks@[i as int]@);
            assert(views[i as int] == opt_file_read_view(read));
            lemma_refused_stays(all, views, i as nat + 1, all.len());
        }
        match render_block(&blocks[i], read) {
            Ok(Some(text)) => {
                let ghost before = texts(list@);
                list.push(text);
                assert(texts(list@) =~= before.push(text@));
            },
            Ok(None) => {},
            Err(error) => {
                return Err(error);
            },
        }
        i += 1;
    }
    if list.len() == 0 {
        return Err(BridgeError::InputRejected("消息内容为空。".to_owned()));
    }
    Ok(join_texts(&list, "\n\n"))
}

/// A block that is refused stays the reason, whatever follows it.
proof fn lemma_refused_stays(
    blocks: Seq<MessageBlockView>,
    reads: Seq<Option<FileReadView>>,
    count: nat,
    end: nat,
)
    requires
        count <= end,
    ensures
        sections(blocks, reads, count) is Err ==> sections(blocks, reads, end) == sections(
            blocks,
            reads,
            count,
        ),
    decreases end - count,
{
    if count < end {
        lemma_refused_stays(blocks, reads, count, (end - 1) as nat);
    }
}

} // verus!
