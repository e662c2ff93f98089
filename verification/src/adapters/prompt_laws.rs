//! What holds of every prompt that blocks are made into.
use vstd::prelude::*;
use vstd::utf8::{decode_utf8, valid_utf8};

use crate::adapters::prompt::{
    document_content, file_to_read, prompt_text, read_views, render_prompt_blocks, section,
    sections, FileRead, FileReadView,
};
use crate::domain::{
    block_views, BinarySource, BinarySourceView, MessageBlock, MessageBlockView,
};
use crate::error::{BridgeError, BridgeErrorView};
use crate::markdown::{markdown_mime, text_outcome};
use crate::text::chars::opt_text;
use crate::text::lines::law_joining_adds_up;
use crate::text::trim::trim;

verus! {

/// The prompt of one block is what the block adds to a prompt.
proof fn lemma_one_block(block: MessageBlockView, read: Option<FileReadView>)
    ensures
        prompt_text(seq![block], seq![read]) == (match section(block, read) {
            Ok(Some(text)) => Ok::<Seq<char>, BridgeErrorView>(text),
            Ok(None) => Err(BridgeErrorView::InputRejected("消息内容为空。"@)),
            Err(error) => Err(error),
        }),
{
    let blocks = seq![block];
    let reads = seq![read];
    assert(sections(blocks, reads, 0) == Ok::<Seq<Seq<char>>, BridgeErrorView>(seq![]));
    if let Ok(Some(text)) = section(block, read) {
        assert(sections(blocks, reads, 1) == Ok::<Seq<Seq<char>>, BridgeErrorView>(
            Seq::<Seq<char>>::empty().push(text),
        ));
    }
}

/// The whole text of a markdown document stands in the prompt: the prompt of that
/// document alone is a line that names it and an opening tag with its name, then the
/// text with all its characters, then the closing tag.
pub proof fn law_the_text_of_a_document_stands_whole(
    mime_type: Seq<char>,
    file_name: Seq<char>,
    source: BinarySourceView,
    extracted_text: Option<Seq<char>>,
    text: Seq<char>,
    read: Option<FileReadView>,
)
    requires
        markdown_mime(mime_type),
        document_content(source, extracted_text, read) == Ok::<Seq<char>, BridgeErrorView>(text),
    ensures
        ({
            let header = "附加 markdown 文档 `"@ + file_name
                + "`：\n<markdown-document file_name=\""@ + file_name + "\">\n"@;
            let footer = "\n</markdown-document>"@;
            prompt_text(
                seq![
                    MessageBlockView::Document { mime_type, file_name, source, extracted_text },
                ],
                seq![read],
            ) matches Ok(prompt) && prompt.len() == header.len() + text.len() + footer.len()
                && prompt.take(header.len() as int) == header && prompt.subrange(
                header.len() as int,
                (header.len() + text.len()) as int,
            ) == text && prompt.skip((header.len() + text.len()) as int) == footer
        }),
{
    let block = MessageBlockView::Document { mime_type, file_name, source, extracted_text };
    lemma_one_block(block, read);
    let header = "附加 markdown 文档 `"@ + file_name + "`：\n<markdown-document file_name=\""@
        + file_name + "\">\n"@;
    let footer = "\n</markdown-document>"@;
    let prompt = section(block, read)->Ok_0->Some_0;
    assert(prompt =~= header + text + footer);
    assert(prompt.take(header.len() as int) =~= header);
    assert(prompt.subrange(header.len() as int, (header.len() + text.len()) as int) =~= text);
    assert(prompt.skip((header.len() + text.len()) as int) =~= footer);
}

/// The text of a document is the one at hand, unchanged; where none is, all of its
/// bytes read as UTF-8, be they at hand or in its file. Bytes that are no UTF-8 are
/// refused, and so is a file that cannot be read, with the reason.
pub proof fn law_a_document_is_read_whole(
    source: BinarySourceView,
    extracted_text: Option<Seq<char>>,
    read: Option<FileReadView>,
    bytes: Seq<u8>,
    path: Seq<char>,
    fault: Seq<char>,
)
    ensures
        extracted_text matches Some(text) ==> document_content(source, extracted_text, read) == Ok::<
            Seq<char>,
            BridgeErrorView,
        >(text),
        extracted_text is None && valid_utf8(bytes) && (source == BinarySourceView::Bytes(bytes) || (
        source is LocalPath && read == Some(Ok::<Seq<u8>, Seq<char>>(bytes)))) ==> document_content(
            source,
            extracted_text,
            read,
        ) == Ok::<Seq<char>, BridgeErrorView>(decode_utf8(bytes)),
        extracted_text is None && !valid_utf8(bytes) && (source == BinarySourceView::Bytes(bytes)
            || (source is LocalPath && read == Some(Ok::<Seq<u8>, Seq<char>>(bytes))))
            ==> document_content(source, extracted_text, read) is Err,
        extracted_text is None && source == BinarySourceView::LocalPath(path) && read == Some(
            Err::<Seq<u8>, Seq<char>>(fault),
        ) ==> document_content(source, extracted_text, read) == Err::<Seq<char>, BridgeErrorView>(
            BridgeErrorView::Acpx("failed to read markdown document "@ + path + ": "@ + fault),
        ),
{
}

/// What the blocks of two runs add to a prompt.
proof fn lemma_sections_concat(
    front: Seq<MessageBlockView>,
    front_reads: Seq<Option<FileReadView>>,
    back: Seq<MessageBlockView>,
    back_reads: Seq<Option<FileReadView>>,
    count: nat,
)
    requires
        front_reads.len() == front.len(),
        back_reads.len() == back.len(),
        count <= back.len(),
    ensures
        sections(front + back, front_reads + back_reads, front.len() + count) == (match sections(
            front,
            front_reads,
            front.len(),
        ) {
            Ok(one) => match sections(back, back_reads, count) {
                Ok(two) => Ok::<Seq<Seq<char>>, BridgeErrorView>(one + two),
                Err(error) => Err(error),
            },
            Err(error) => Err(error),
        }),
    decreases count,
{
    if count == 0 {
        lemma_sections_prefix(front, front_reads, back, back_reads, front.len());
        if let Ok(one) = sections(front, front_reads, front.len()) {
            assert(one + Seq::<Seq<char>>::empty() =~= one);
        }
    } else {
        let less = (count - 1) as nat;
        lemma_sections_concat(front, front_reads, back, back_reads, less);
        let at = front.len() + count - 1;
        assert((front + back)[at as int] == back[count - 1]);
        assert((front_reads + back_reads)[at as int] == back_reads[count - 1]);
        if let Ok(one) = sections(front, front_reads, front.len()) {
            if let Ok(two) = sections(back, back_reads, less) {
                if let Ok(Some(text)) = section(back[count - 1], back_reads[count - 1]) {
                    assert((one + two).push(text) =~= one + two.push(text));
                }
            }
        }
    }
}

proof fn lemma_sections_prefix(
    front: Seq<MessageBlockView>,
    front_reads: Seq<Option<FileReadView>>,
    back: Seq<MessageBlockView>,
    back_reads: Seq<Option<FileReadView>>,
    count: nat,
)
    requires
        front_reads.len() == front.len(),
        count <= front.len(),
    ensures
        sections(front + back, front_reads + back_reads, count) == sections(
            front,
            front_reads,
            count,
        ),
    decreases count,
{
    if count > 0 {
        lemma_sections_prefix(front, front_reads, back, back_reads, (count - 1) as nat);
        assert((front + back)[count - 1] == front[count - 1]);
        assert((front_reads + back_reads)[count - 1] == front_reads[count - 1]);
    }
}

/// Every block has its place in the prompt: the prompt of two runs of blocks is that of
/// the first, an empty line, and that of the second.
pub proof fn law_prompts_add_up(
    front: Seq<MessageBlockView>,
    front_reads: Seq<Option<FileReadView>>,
    back: Seq<MessageBlockView>,
    back_reads: Seq<Option<FileReadView>>,
)
    requires
        front_reads.len() == front.len(),
        back_reads.len() == back.len(),
        prompt_text(front, front_reads) is Ok,
        prompt_text(back, back_reads) is Ok,
    ensures
        prompt_text(front + back, front_reads + back_reads) == Ok::<Seq<char>, BridgeErrorView>(
            prompt_text(front, front_reads)->Ok_0 + "\n\n"@ + prompt_text(
                back,
                back_reads,
            )->Ok_0,
        ),
{
    lemma_sections_concat(front, front_reads, back, back_reads, back.len());
    let one = sections(front, front_reads, front.len())->Ok_0;
    let two = sections(back, back_reads, back.len())->Ok_0;
    law_joining_adds_up(one, two, "\n\n"@);
}

/// A blank text adds nothing to a prompt, before or behind other blocks, and makes none
/// of its own.
pub proof fn law_blank_texts_add_nothing(
    blocks: Seq<MessageBlockView>,
    reads: Seq<Option<FileReadView>>,
    text: Seq<char>,
    read: Option<FileReadView>,
)
    requires
        reads.len() == blocks.len(),
        trim(text).len() == 0,
    ensures
        ({
            let blank = seq![MessageBlockView::Text { text }];
            &&& prompt_text(blocks + blank, reads + seq![read]) == prompt_text(blocks, reads)
            &&& prompt_text(blank + blocks, seq![read] + reads) == prompt_text(blocks, reads)
            &&& prompt_text(blank, seq![read]) == Err::<Seq<char>, BridgeErrorView>(
                BridgeErrorView::InputRejected("消息内容为空。"@),
            )
        }),
{
    let blank = seq![MessageBlockView::Text { text }];
    let one = seq![read];
    lemma_one_block(blank[0], read);
    assert(sections(blank, one, 0) == Ok::<Seq<Seq<char>>, BridgeErrorView>(seq![]));
    assert(sections(blank, one, 1) == Ok::<Seq<Seq<char>>, BridgeErrorView>(seq![]));
    lemma_sections_concat(blocks, reads, blank, one, 1);
    lemma_sections_concat(blank, one, blocks, reads, blocks.len());
    if let Ok(list) = sections(blocks, reads, blocks.len()) {
        assert(list + Seq::<Seq<char>>::empty() =~= list);
        assert(Seq::<Seq<char>>::empty() + list =~= list);
    }
}

/// A block that an agent cannot take is refused whatever stands behind it, and whatever
/// blocks that can be taken stand before it: an image, a document that is no markdown
/// with its name, a document that cannot be read with the reason.
pub proof fn law_what_cannot_be_taken_is_refused(
    front: Seq<MessageBlockView>,
    front_reads: Seq<Option<FileReadView>>,
    block: MessageBlockView,
    read: Option<FileReadView>,
    back: Seq<MessageBlockView>,
    back_reads: Seq<Option<FileReadView>>,
)
    requires
        front_reads.len() == front.len(),
        back_reads.len() == back.len(),
        prompt_text(front, front_reads) is Ok,
    ensures
        ({
            let whole = prompt_text(
                front + (seq![block] + back),
                front_reads + (seq![read] + back_reads),
            );
            match block {
                MessageBlockView::Image { .. } => whole == Err::<Seq<char>, BridgeErrorView>(
                    BridgeErrorView::InputRejected(
                        "当前 ACPX CLI 适配器还不支持图片块，请先升级到支持结构化媒体的 ACPX/ACP 适配器。"@,
                    ),
                ),
                MessageBlockView::Document { mime_type, file_name, source, extracted_text } => {
                    &&& !markdown_mime(mime_type) ==> whole == Err::<Seq<char>, BridgeErrorView>(
                        BridgeErrorView::InputRejected(
                            "当前 ACPX CLI 适配器只支持 markdown 文档，暂不支持附件 `"@ + file_name
                                + "`。"@,
                        ),
                    )
                    &&& markdown_mime(mime_type) ==> (document_content(
                        source,
                        extracted_text,
                        read,
                    ) matches Err(error) ==> whole == Err::<Seq<char>, BridgeErrorView>(error))
                },
                MessageBlockView::Text { .. } => true,
            }
        }),
{
    let one = seq![block];
    let one_read = seq![read];
    let rest = one + back;
    let rest_reads = one_read + back_reads;
    lemma_one_block(block, read);
    assert(sections(one, one_read, 0) == Ok::<Seq<Seq<char>>, BridgeErrorView>(seq![]));
    lemma_sections_concat(one, one_read, back, back_reads, back.len());
    lemma_sections_concat(front, front_reads, rest, rest_reads, rest.len());
}

/// A file has to be read just for a markdown document that lies in one and whose text is not
/// at hand, and it is the file that the document lies in.
pub proof fn law_only_documents_in_files_are_read(block: MessageBlock, out: Option<String>)
    requires
        call_ensures(file_to_read, (&block,), out),
    ensures
        match block {
            MessageBlock::Document {
                mime_type,
                file_name,
                source: BinarySource::LocalPath(path),
                extracted_text: None,
            } => opt_text(out) == (if markdown_mime(mime_type@) {
                Some(path@)
            } else {
                None
            }),
            _ => out is None,
        },
{
}

/// The prompt that is made of two runs of blocks is that of the first, an empty line, and
/// that of the second, however many blocks they have.
pub proof fn law_prompts_are_made_of_all_blocks(
    blocks: &[MessageBlock],
    reads: Vec<Option<FileRead>>,
    front: &[MessageBlock],
    front_reads: Vec<Option<FileRead>>,
    back: &[MessageBlock],
    back_reads: Vec<Option<FileRead>>,
    whole: Result<String, BridgeError>,
    one: String,
    two: String,
)
    requires
        front_reads@.len() == front@.len(),
        back_reads@.len() == back@.len(),
        blocks@ == front@ + back@,
        reads@ == front_reads@ + back_reads@,
        call_ensures(render_prompt_blocks, (blocks, reads), whole),
        call_ensures(
            render_prompt_blocks,
            (front, front_reads),
            Ok::<String, BridgeError>(one),
        ),
        call_ensures(render_prompt_blocks, (back, back_reads), Ok::<String, BridgeError>(two)),
    ensures
        whole matches Ok(prompt) && prompt@ == one@ + "\n\n"@ + two@,
        text_outcome(whole) == prompt_text(block_views(blocks@), read_views(reads@)),
{
    assert(block_views(blocks@) =~= block_views(front@) + block_views(back@));
    assert(read_views(reads@) =~= read_views(front_reads@) + read_views(back_reads@));
    law_prompts_add_up(
        block_views(front@),
        read_views(front_reads@),
        block_views(back@),
        read_views(back_reads@),
    );
}

/// The prompt that is made of a text is that text, and the one that is made of a markdown
/// document has all of its text between its tags.
pub proof fn law_one_block_makes_its_whole_prompt(
    blocks: &[MessageBlock],
    reads: Vec<Option<FileRead>>,
    out: Result<String, BridgeError>,
)
    requires
        blocks@.len() == 1,
        reads@.len() == 1,
        call_ensures(render_prompt_blocks, (blocks, reads), out),
    ensures
        blocks@[0] matches MessageBlock::Text { text } ==> (trim(text@).len() > 0 ==> (
        out matches Ok(prompt) && prompt@ == trim(text@))),
        blocks@[0] matches MessageBlock::Document {
            mime_type,
            file_name,
            source,
            extracted_text: Some(text),
        } ==> (markdown_mime(mime_type@) ==> (out matches Ok(prompt) && prompt@
            == "附加 markdown 文档 `"@ + file_name@ + "`：\n<markdown-document file_name=\""@
            + file_name@ + "\">\n"@ + text@ + "\n</markdown-document>"@)),
{
    let block = blocks@[0]@;
    let read = read_views(reads@)[0];
    assert(block_views(blocks@) =~= seq![block]);
    assert(read_views(reads@) =~= seq![read]);
    lemma_one_block(block, read);
}

} // verus!
