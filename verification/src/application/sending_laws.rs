//! What is sent of every reply.
use vstd::prelude::*;

use crate::application::outgoing::{
    block_label, blocks_preview, expand_reply_blocks, expanded, expanded_block, sent_blocks,
    text_blocks,
};
use crate::chunk_laws::{
    law_chunks_keep_within_the_limit, law_chunks_lose_nothing, together, unbroken,
};
use crate::domain::{block_views, text_reply, MessageBlock, MessageBlockView};
use crate::support::{
    chunk_text, chunks, finalize_chunk_labels, labelled, preview, text_preview,
};
use crate::text::chars::texts;
use crate::text::lines::{join, lines};
use crate::text::number::decimal;
use crate::text::search::ends_with;
use crate::text::trim::trim;
use crate::text_laws::law_replacing_adds_up;

verus! {

/// The block has something to show: it is no text, or a text that is not blank.
pub open spec fn shows(block: MessageBlockView) -> bool {
    match block {
        MessageBlockView::Text { text } => trim(text).len() > 0,
        _ => true,
    }
}

/// One of the blocks has something to show.
pub open spec fn some_shows(blocks: Seq<MessageBlockView>) -> bool {
    exists|i: int| 0 <= i < blocks.len() && shows(#[trigger] blocks[i])
}

proof fn lemma_expanded_concat(
    front: Seq<MessageBlockView>,
    back: Seq<MessageBlockView>,
    max: nat,
)
    ensures
        expanded(front + back, max) == expanded(front, max) + expanded(back, max),
    decreases back.len(),
{
    if back.len() == 0 {
        assert(front + back =~= front);
        assert(expanded(front, max) + expanded(back, max) =~= expanded(front, max));
    } else {
        lemma_expanded_concat(front, back.drop_last(), max);
        assert((front + back).drop_last() =~= front + back.drop_last());
        assert((front + back).last() == back.last());
        assert(expanded(front + back, max) =~= expanded(front, max) + expanded(back, max));
    }
}

proof fn lemma_shown(block: MessageBlockView, max: nat)
    ensures
        shows(block) <==> expanded_block(block, max).len() > 0,
{
    if let MessageBlockView::Text { text } = block {
        if max > 0 {
            law_chunks_keep_within_the_limit(trim(text), max);
        }
    }
}

proof fn lemma_some_shown(blocks: Seq<MessageBlockView>, max: nat)
    ensures
        some_shows(blocks) <==> expanded(blocks, max).len() > 0,
    decreases blocks.len(),
{
    if blocks.len() > 0 {
        let rest = blocks.drop_last();
        lemma_some_shown(rest, max);
        lemma_shown(blocks.last(), max);
        if some_shows(rest) {
            let i = choose|i: int| 0 <= i < rest.len() && shows(#[trigger] rest[i]);
            assert(shows(blocks[i]));
        }
        if some_shows(blocks) {
            let i = choose|i: int| 0 <= i < blocks.len() && shows(#[trigger] blocks[i]);
            if i < rest.len() {
                assert(shows(rest[i]));
            }
        }
        if shows(blocks.last()) {
            assert(shows(blocks[blocks.len() - 1]));
        }
    }
}

/// Nothing of a reply is left out: what is sent of two runs of blocks is what is sent
/// of the first and then what is sent of the second, where both have something to
/// show. A run that has nothing to show adds nothing, and where neither run has
/// anything, the user is told so.
pub proof fn law_what_is_sent_adds_up(
    front: Seq<MessageBlockView>,
    back: Seq<MessageBlockView>,
    max: nat,
)
    ensures
        some_shows(front) && some_shows(back) ==> sent_blocks(front + back, max) == sent_blocks(
            front,
            max,
        ) + sent_blocks(back, max),
        some_shows(front) && !some_shows(back) ==> sent_blocks(front + back, max) == sent_blocks(
            front,
            max,
        ),
        !some_shows(front) && some_shows(back) ==> sent_blocks(front + back, max) == sent_blocks(
            back,
            max,
        ),
        !some_shows(front) && !some_shows(back) ==> sent_blocks(front + back, max) == seq![
            MessageBlockView::Text { text: "Codex 已完成，但没有返回可显示的内容。"@ },
        ],
{
    lemma_expanded_concat(front, back, max);
    lemma_some_shown(front, max);
    lemma_some_shown(back, max);
    let one = expanded(front, max);
    let two = expanded(back, max);
    assert(two.len() == 0 ==> one + two =~= one);
    assert(one.len() == 0 ==> one + two =~= two);
}

/// A text that is not blank is sent in as many blocks as it has chunks. Each of them is
/// a text that ends with its chunk; a single one is the chunk, and if there are more,
/// each has its place and their number in front.
pub proof fn law_a_text_is_sent_chunk_by_chunk(text: Seq<char>, max: nat)
    requires
        trim(text).len() > 0,
    ensures
        ({
            let list = chunks(trim(text), max);
            let sent = sent_blocks(seq![MessageBlockView::Text { text }], max);
            &&& sent.len() == list.len()
            &&& list.len() > 0
            &&& forall|i: int|
                0 <= i < list.len() ==> (#[trigger] sent[i]) is Text && ends_with(
                    sent[i]->Text_text,
                    list[i],
                ) && sent[i]->Text_text == (if list.len() == 1 {
                    list[i]
                } else {
                    "["@ + decimal((i + 1) as nat) + "/"@ + decimal(list.len()) + "]\n"@ + list[i]
                })
        }),
{
    let blocks = seq![MessageBlockView::Text { text }];
    let list = chunks(trim(text), max);
    if max > 0 {
        law_chunks_keep_within_the_limit(trim(text), max);
    }
    assert(blocks.drop_last() =~= Seq::<MessageBlockView>::empty());
    assert(expanded(blocks.drop_last(), max) =~= Seq::<MessageBlockView>::empty());
    assert(expanded(blocks, max) =~= text_blocks(labelled(list)));
    let sent = sent_blocks(blocks, max);
    assert forall|i: int| 0 <= i < list.len() implies (#[trigger] sent[i]) is Text && ends_with(
        sent[i]->Text_text,
        list[i],
    ) && sent[i]->Text_text == (if list.len() == 1 {
        list[i]
    } else {
        "["@ + decimal((i + 1) as nat) + "/"@ + decimal(list.len()) + "]\n"@ + list[i]
    }) by {
        let shown = sent[i]->Text_text;
        assert(shown == labelled(list)[i]);
        assert(shown.skip(shown.len() - list[i].len()) =~= list[i]);
    }
}

/// Without a limit a text that is not blank is sent as one block, without the white
/// space at its ends and with all that is between.
pub proof fn law_without_a_limit_a_text_is_sent_whole(text: Seq<char>)
    requires
        trim(text).len() > 0,
    ensures
        sent_blocks(seq![MessageBlockView::Text { text }], 0) == seq![
            MessageBlockView::Text { text: trim(text) },
        ],
{
    law_a_text_is_sent_chunk_by_chunk(text, 0);
    assert(sent_blocks(seq![MessageBlockView::Text { text }], 0) =~= seq![
        MessageBlockView::Text { text: trim(text) },
    ]);
}

/// A block that is no text is sent as it is, between what is sent of the blocks before
/// it and of those behind it.
pub proof fn law_other_blocks_keep_their_place(
    front: Seq<MessageBlockView>,
    block: MessageBlockView,
    back: Seq<MessageBlockView>,
    max: nat,
)
    requires
        !(block is Text),
        some_shows(front),
        some_shows(back),
    ensures
        sent_blocks(front + seq![block] + back, max) == sent_blocks(front, max) + seq![block]
            + sent_blocks(back, max),
{
    let one = seq![block];
    assert(shows(one[0]));
    assert(one.drop_last() =~= Seq::<MessageBlockView>::empty());
    assert(expanded(one.drop_last(), max) =~= Seq::<MessageBlockView>::empty());
    assert(expanded(one, max) =~= one);
    assert(some_shows(front + one)) by {
        assert(shows((front + one)[front.len() as int]));
    }
    law_what_is_sent_adds_up(front, one, max);
    law_what_is_sent_adds_up(front + one, back, max);
}

/// The reply that a text is holds that text and nothing else.
pub proof fn law_a_text_as_a_reply_is_unchanged(text: Seq<char>)
    ensures
        text_reply(text).len() == 1,
        text_reply(text)[0] == (MessageBlockView::Text { text }),
{
}

/// A text in a log is on one line: one of at most the given number of characters and without
/// line feeds is there whole, and a longer one with its first characters and dots.
pub proof fn law_a_text_in_a_log_is_its_beginning(value: &str, max: usize, out: String)
    requires
        call_ensures(text_preview, (value, max), out),
        max > 0,
        !value@.contains('\n'),
    ensures
        value@.len() <= max ==> out@ == value@,
        value@.len() > max ==> out@ == value@.take(max as int) + "..."@,
{
    law_replacing_adds_up(Seq::<char>::empty(), value@, '\n', "\\n"@);
}

/// Blocks in a log are named one after the other, all of them and in their order: a text by
/// its beginning, an image by its kind, a document by its whole name.
pub proof fn law_every_block_is_named_in_a_log(
    blocks: &[MessageBlock],
    max: usize,
    labels: Seq<Seq<char>>,
    out: String,
)
    requires
        call_ensures(blocks_preview, (blocks, max), out),
        labels.len() == blocks@.len(),
        forall|i: int|
            0 <= i < labels.len() ==> #[trigger] labels[i] == (match blocks@[i]@ {
                MessageBlockView::Text { text } => "text:"@ + preview(text, 48),
                MessageBlockView::Image { mime_type, .. } => "image:"@ + mime_type,
                MessageBlockView::Document { file_name, .. } => "document:"@ + file_name,
            }),
        max > 0,
        !join(labels, " | "@).contains('\n'),
    ensures
        join(labels, " | "@).len() <= max ==> out@ == join(labels, " | "@),
        join(labels, " | "@).len() > max ==> out@ == join(labels, " | "@).take(max as int)
            + "..."@,
{
    let each = |block: MessageBlockView| block_label(block);
    assert(block_views(blocks@).map_values(each) =~= labels);
    law_replacing_adds_up(Seq::<char>::empty(), join(labels, " | "@), '\n', "\\n"@);
}

/// What is sent of a reply of two parts, each with something to show, is first what is sent
/// of the one and then what is sent of the other.
pub proof fn law_replies_are_sent_as_is_said(
    blocks: &[MessageBlock],
    front: &[MessageBlock],
    back: &[MessageBlock],
    max: usize,
    whole: Vec<MessageBlock>,
    one: Vec<MessageBlock>,
    two: Vec<MessageBlock>,
)
    requires
        blocks@ == front@ + back@,
        call_ensures(expand_reply_blocks, (blocks, max), whole),
        call_ensures(expand_reply_blocks, (front, max), one),
        call_ensures(expand_reply_blocks, (back, max), two),
        some_shows(block_views(front@)),
        some_shows(block_views(back@)),
    ensures
        whole@.len() == one@.len() + two@.len(),
        block_views(whole@) == block_views(one@) + block_views(two@),
        block_views(whole@) == sent_blocks(block_views(blocks@), max as nat),
{
    assert(block_views(blocks@) =~= block_views(front@) + block_views(back@));
    law_what_is_sent_adds_up(block_views(front@), block_views(back@), max as nat);
    assert(block_views(whole@).len() == whole@.len());
    assert(block_views(one@).len() == one@.len());
    assert(block_views(two@).len() == two@.len());
}

/// A single chunk has no label; where there are more, each has its place and their number in
/// front and is kept whole behind that.
pub proof fn law_labels_stand_before_whole_chunks(
    chunks: Vec<String>,
    out: Vec<String>,
    i: int,
)
    requires
        call_ensures(finalize_chunk_labels, (chunks,), out),
        0 <= i < chunks@.len(),
    ensures
        out@.len() == chunks@.len(),
        chunks@.len() == 1 ==> out@[i]@ == chunks@[i]@,
        chunks@.len() > 1 ==> out@[i]@ == "["@ + decimal((i + 1) as nat) + "/"@ + decimal(
            chunks@.len(),
        ) + "]\n"@ + chunks@[i]@,
{
    assert(texts(out@).len() == out@.len());
    assert(texts(out@)[i] == out@[i]@);
    assert(texts(chunks@)[i] == chunks@[i]@);
}

/// A text is cut into chunks without leaving anything out but line ends, none of them longer
/// than the limit; without a limit it is one chunk, whole.
pub proof fn law_a_text_is_cut_without_loss(text: &str, max: usize, out: Vec<String>, i: int)
    requires
        call_ensures(chunk_text, (text, max), out),
        0 <= i < out@.len(),
    ensures
        out@.len() >= 1,
        max == 0 ==> out@.len() == 1 && out@[0]@ == text@,
        max > 0 ==> out@[i]@.len() <= max,
        max > 0 ==> unbroken(together(texts(out@))) == together(lines(text@)),
{
    assert(texts(out@).len() == out@.len());
    assert(texts(out@)[i] == out@[i]@);
    if max > 0 {
        law_chunks_keep_within_the_limit(text@, max as nat);
        law_chunks_lose_nothing(text@, max as nat);
    }
}

} // verus!
