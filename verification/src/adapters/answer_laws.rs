//! What is made of all that an agent prints, and of the messages of a session.
use vstd::prelude::*;
use vstd::utf8::encode_utf8;

use crate::adapters::acpx::run_quiet;
use crate::adapters::json::{
    extract_first_user_preview, member_from, said_from, said_in_block, said_in_message,
    user_said_from, Json,
};
use crate::adapters::reply::{agent_reply, closing, opening, pieces, scan};
use crate::adapters::reply_laws::law_a_tagged_document_is_read;
use crate::domain::{AgentReply, BinarySourceView, MessageBlockView};
use crate::markdown::reply_file_name;
use crate::ports::ProcessOutput;
use crate::text::search::{find, lemma_find, lemma_occurrence_is_found, occurs_at};
use crate::text::trim::{tight, trim, Trimmed};

verus! {

/// A stretch of text in a reply: one block with all of it but white space at its ends, or
/// nothing if it is blank.
pub open spec fn said(text: Seq<char>) -> Seq<MessageBlockView> {
    if trim(text).len() == 0 {
        seq![]
    } else {
        seq![MessageBlockView::Text { text: trim(text) }]
    }
}

/// An output in which no document is opened is the reply as one text, whole however long it
/// is. The reply to a blank output holds nothing.
pub proof fn law_plain_output_is_replied_whole(output: ProcessOutput, out: AgentReply)
    requires
        call_ensures(run_quiet, (output,), out),
        find(output.stdout@, "<feishu2acp-document"@) is None,
    ensures
        out@ == said(output.stdout@),
{
}

/// A document in an output is a block of the reply, between what is said before it and what
/// the output holds behind it, which may be further documents. It is a markdown document
/// with all of its content, both as its text and as its bytes.
pub proof fn law_a_document_is_replied_whole(
    before: Seq<char>,
    name: Seq<char>,
    content: Seq<char>,
    behind: Seq<char>,
)
    requires
        find(before, "<feishu2acp-document"@) is None,
        !name.contains('"'),
        !name.contains('>'),
        find(content, "</feishu2acp-document>"@) is None,
        content.len() > 0,
        tight(content, Trimmed::Only('\n')),
    ensures
        ({
            let whole = before + ("<feishu2acp-document file_name=\""@ + name + "\">\n"@ + content
                + "\n</feishu2acp-document>"@) + behind;
            let document = MessageBlockView::Document {
                mime_type: "text/markdown"@,
                file_name: reply_file_name(name),
                source: BinarySourceView::Bytes(encode_utf8(content)),
                extracted_text: Some(content),
            };
            &&& find(behind, "<feishu2acp-document"@) is None ==> agent_reply(whole) == said(before)
                + seq![document] + said(behind)
            &&& pieces(behind) is Some ==> agent_reply(whole) == said(before) + seq![document]
                + agent_reply(behind)
        }),
{
    law_a_tagged_document_is_read(before, name, content, behind);
}

/// What is not read as documents is not lost: an output with an opening tag but no closing
/// one anywhere is the reply as one text, whole.
pub proof fn law_an_output_with_an_open_tag_is_replied_whole(raw: Seq<char>)
    requires
        find(raw, "</feishu2acp-document>"@) is None,
    ensures
        agent_reply(raw) == said(raw),
{
    lemma_find(raw, opening());
    if let Some(start) = find(raw, opening()) {
        let opened = raw.skip(start);
        lemma_find(opened, seq!['>']);
        if let Some(end) = find(opened, seq!['>']) {
            let body = opened.skip(end + 1);
            lemma_find(body, closing());
            if let Some(close) = find(body, closing()) {
                let at = start + end + 1 + close;
                assert(raw.subrange(at, at + closing().len()) =~= body.subrange(
                    close,
                    close + closing().len(),
                ));
                assert(occurs_at(raw, closing(), at));
                lemma_occurrence_is_found(raw, closing(), at);
            }
        }
        assert(scan(raw) is Broken);
        assert(pieces(raw) is None);
    }
}

/// A member of an object is found by its name if no member before it has that name, wherever
/// it stands.
pub proof fn law_members_are_found_by_their_names(
    members: Vec<(String, Json)>,
    name: &str,
    at: int,
    out: Option<&Json>,
)
    requires
        0 <= at < members@.len(),
        members@[at].0@ == name@,
        forall|i: int| 0 <= i < at ==> (#[trigger] members@[i]).0@ != name@,
        call_ensures(Json::get, (&Json::Object(members), name), out),
    ensures
        out == Some(&members@[at].1),
{
    lemma_member(members@, name@, 0, at);
}

proof fn lemma_member(members: Seq<(String, Json)>, name: Seq<char>, from: int, at: int)
    requires
        0 <= from <= at < members.len(),
        members[at].0@ == name,
        forall|i: int| 0 <= i < at ==> (#[trigger] members[i]).0@ != name,
    ensures
        member_from(members, name, from) == Some(members[at].1),
    decreases at - from,
{
    if from < at {
        assert(members[from].0@ != name);
        lemma_member(members, name, from + 1, at);
    }
}

proof fn lemma_said(blocks: Seq<Json>, from: int, at: int)
    requires
        0 <= from <= at < blocks.len(),
        said_in_block(blocks[at]) is Some,
        forall|i: int| 0 <= i < at ==> said_in_block(#[trigger] blocks[i]) is None,
    ensures
        said_from(blocks, from) == said_in_block(blocks[at]),
    decreases at - from,
{
    if from < at {
        assert(said_in_block(blocks[from]) is None);
        lemma_said(blocks, from + 1, at);
    }
}

proof fn lemma_user_said(messages: Seq<Json>, from: int, at: int)
    requires
        0 <= from <= at < messages.len(),
        said_in_message(messages[at]) is Some,
        forall|i: int| 0 <= i < at ==> said_in_message(#[trigger] messages[i]) is None,
    ensures
        user_said_from(messages, from) == said_in_message(messages[at]),
    decreases at - from,
{
    if from < at {
        assert(said_in_message(messages[from]) is None);
        lemma_user_said(messages, from + 1, at);
    }
}

/// The block holds no text, or a blank one.
pub open spec fn says_nothing(block: Json) -> bool {
    match block.member("Text"@) {
        Some(Json::Text(text)) => trim(text@).len() == 0,
        _ => true,
    }
}

/// What the user said first is the first text that is not blank in the first message that
/// is the user's and holds one, whole but for white space at its ends.
pub proof fn law_what_the_user_said_first_is_found(
    messages: &[Json],
    which: int,
    user: Json,
    blocks: Vec<Json>,
    at: int,
    text: String,
    out: Option<String>,
)
    requires
        call_ensures(extract_first_user_preview, (messages,), out),
        0 <= which < messages@.len(),
        forall|i: int|
            0 <= i < which ==> (#[trigger] messages@[i]).member("User"@) is None,
        messages@[which].member("User"@) == Some(user),
        user.member("content"@) == Some(Json::List(blocks)),
        0 <= at < blocks@.len(),
        blocks@[at].member("Text"@) == Some(Json::Text(text)),
        trim(text@).len() > 0,
        forall|i: int| 0 <= i < at ==> says_nothing(#[trigger] blocks@[i]),
    ensures
        out matches Some(found) && found@ == trim(text@),
{
    assert forall|i: int| 0 <= i < at implies said_in_block(#[trigger] blocks@[i]) is None by {
        assert(says_nothing(blocks@[i]));
    }
    lemma_said(blocks@, 0, at);
    assert forall|i: int| 0 <= i < which implies said_in_message(#[trigger] messages@[i]) is None by {
        assert(messages@[i].member("User"@) is None);
    }
    lemma_user_said(messages@, 0, which);
}

} // verus!
