//! What is sent of a reply, and how blocks look in a log.
use vstd::prelude::*;

use crate::domain::{block_views, text_reply, MessageBlock, MessageBlockView};
use crate::support::{
    chunk_text, chunks, finalize_chunk_labels, labelled, preview, text_preview,
};
use crate::text::chars::{texts, to_chars, to_text};
use crate::text::lines::{join, join_texts, join_two};
use crate::text::trim::{trim, trim_slice};

verus! {

/// The texts as blocks.
pub open spec fn text_blocks(list: Seq<Seq<char>>) -> Seq<MessageBlockView> {
    list.map_values(|text: Seq<char>| MessageBlockView::Text { text })
}

/// What is sent of one block: a text in chunks, if there is anything in it, and
/// anything else as it is.
pub open spec fn expanded_block(block: MessageBlockView, max: nat) -> Seq<MessageBlockView> {
    match block {
        MessageBlockView::Text { text } => if trim(text).len() == 0 {
            seq![]
        } else {
            text_blocks(labelled(chunks(trim(text), max)))
        },
        _ => seq![block],
    }
}

/// What is sent of a run of blocks.
pub open spec fn expanded(blocks: Seq<MessageBlockView>, max: nat) -> Seq<MessageBlockView>
    decreases blocks.len(),
{
    if blocks.len() == 0 {
        seq![]
    } else {
        expanded(blocks.drop_last(), max) + expanded_block(blocks.last(), max)
    }
}

/// What is sent of a reply. Where there is nothing to send, the user is told so.
pub open spec fn sent_blocks(blocks: Seq<MessageBlockView>, max: nat) -> Seq<MessageBlockView> {
    let all = expanded(blocks, max);
    if all.len() == 0 {
        text_reply("Codex 已完成，但没有返回可显示的内容。"@)
    } else {
        all
    }
}

/// What is sent of a reply.
pub fn expand_reply_blocks(blocks: &[MessageBlock], reply_chunk_chars: usize) -> (out: Vec<
    MessageBlock,
>)
    ensures
        block_views(out@) == sent_blocks(block_views(blocks@), reply_chunk_chars as nat),
{
    let ghost max = reply_chunk_chars as nat;
    let ghost all = block_views(blocks@);
    let mut out: Vec<MessageBlock> = Vec::new();
    let mut i: usize = 0;
    assert(block_views(out@) =~= expanded(all.take(0), max));
    while i < blocks.len()
        invariant
            i <= blocks@.len(),
            max == reply_chunk_chars as nat,
            all == block_views(blocks@),
            block_views(out@) == expanded(all.take(i as int), max),
        decreases blocks@.len() - i,
    {
        proof {
            assert(all.take(i + 1).drop_last() =~= all.take(i as int));
            assert(all.take(i + 1).last() == blocks@[i as int]@);
        }
        push_expanded(&mut out, &blocks[i], reply_chunk_chars);
        i += 1;
    }
    assert(all.take(i as int) =~= all);
    if out.len() == 0 {
        let block = MessageBlock::text("Codex 已完成，但没有返回可显示的内容。");
        out.push(block);
        assert(block_views(out@) =~= seq![block@]);
    }
    out
}

/// Puts what is sent of one block behind the others.
fn push_expanded(out: &mut Vec<MessageBlock>, block: &MessageBlock, reply_chunk_chars: usize)
    ensures
        block_views(final(out)@) == block_views(old(out)@) + expanded_block(
            block@,
            reply_chunk_chars as nat,
        ),
{
    let ghost before = block_views(out@);
    match block {
        MessageBlock::Text { text } => {
            let chars = to_chars(text.as_str());
            let trimmed = trim_slice(chars.as_slice());
            if trimmed.len() > 0 {
                let whole = to_text(trimmed);
                let list = finalize_chunk_labels(chunk_text(whole.as_str(), reply_chunk_chars));
                let ghost all = text_blocks(texts(list@));
                let mut i: usize = 0;
                assert(before + all.take(0) =~= before);
                while i < list.len()
                    invariant
                        i <= list@.len(),
                        all == text_blocks(texts(list@)),
                        block_views(out@) == before + all.take(i as int),
                    decreases list@.len() - i,
                {
                    let ghost so_far = block_views(out@);
                    let piece = MessageBlock::text(list[i].clone());
                    out.push(piece);
                    assert(block_views(out@) =~= so_far.push(piece@));
                    assert(all.take(i + 1) =~= all.take(i as int).push(all[i as int]));
                    assert(piece@ == all[i as int]);
                    assert(block_views(out@) =~= before + all.take(i + 1));
                    i += 1;
                }
                assert(all.take(i as int) =~= all);
            } else {
                assert(before =~= before + seq![]);
            }
        },
        _ => {
            let copy = block.clone();
            out.push(copy);
            assert(block_views(out@) =~= before + seq![block@]);
        },
    }
}

/// A block in a word or a few.
pub open spec fn block_label(block: MessageBlockView) -> Seq<char> {
    match block {
        MessageBlockView::Text { text } => "text:"@ + preview(text, 48),
        MessageBlockView::Image { mime_type, .. } => "image:"@ + mime_type,
        MessageBlockView::Document { file_name, .. } => "document:"@ + file_name,
    }
}

/// A run of blocks on one line.
pub open spec fn blocks_line(blocks: Seq<MessageBlockView>, max: nat) -> Seq<char> {
    preview(join(blocks.map_values(|block: MessageBlockView| block_label(block)), " | "@), max)
}

/// A run of blocks on one line.
pub fn blocks_preview(blocks: &[MessageBlock], max_chars: usize) -> (out: String)
    ensures
        out@ == blocks_line(block_views(blocks@), max_chars as nat),
{
    let ghost each = |block: MessageBlockView| block_label(block);
    let ghost all = block_views(blocks@).map_values(each);
    let mut labels: Vec<String> = Vec::new();
    let mut i: usize = 0;
    assert(texts(labels@) =~= all.take(0));
    while i < blocks.len()
        invariant
            i <= blocks@.len(),
            each == (|block: MessageBlockView| block_label(block)),
            all == block_views(blocks@).map_values(each),
            texts(labels@) == all.take(i as int),
        decreases blocks@.len() - i,
    {
        let ghost before = texts(labels@);
        let label = match &blocks[i] {
            MessageBlock::Text { text } => join_two(
                "text:",
                text_preview(text.as_str(), 48).as_str(),
            ),
            MessageBlock::Image { mime_type, source: _, alt: _ } => join_two(
                "image:",
                mime_type.as_str(),
            ),
            MessageBlock::Document { mime_type: _, file_name, source: _, extracted_text: _ } =>
                join_two("document:", file_name.as_str()),
        };
        assert(label@ == all[i as int]);
        labels.push(label);
        assert(texts(labels@) =~= before.push(label@));
        assert(all.take(i + 1) =~= all.take(i as int).push(all[i as int]));
        i += 1;
    }
    assert(all.take(i as int) =~= all);
    text_preview(join_texts(&labels, " | ").as_str(), max_chars)
}

} // verus!
