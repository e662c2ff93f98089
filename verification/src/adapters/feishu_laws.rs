//! What holds of every event that comes in.
use vstd::prelude::*;

use crate::adapters::feishu::{inbound_dir, inbound_path, said_to_bot, MarkdownSettings, Mention};
use crate::adapters::feishu_out::upload_of;
use crate::adapters::prompt::FileReadView;
use crate::domain::BinarySourceView;
use crate::markdown::{safe_char, safe_file_name, travel_name};
use crate::markdown_laws::{law_kept_names_are_safe, law_names_travel_as_text_files};
use crate::paths::{absolute, joined_on};
use crate::platform::Platform;
use crate::text::chars::{lower, white_space};
use crate::text::search::{ends_with, find, lemma_find_some, occurs_at, starts_with};
use crate::text::trim::{lemma_trim_keeps_tight, tight, trim, trim_start, Trimmed};

verus! {

/// In a group, a bot that has a name hears only what begins with its name, or
/// what names it first.
pub proof fn law_groups_have_to_name_the_bot(
    mention: Option<Mention>,
    text: Seq<char>,
    nickname: Seq<char>,
)
    requires
        trim(nickname).len() > 0,
        !starts_with(trim(text), "@"@ + trim(nickname)),
        mention matches Some(first) ==> trim(first.name@) != trim(nickname),
    ensures
        said_to_bot("group"@, mention, text, Some(nickname)) is None,
{
}

/// What is said in a group behind the name of the bot and a space is heard, from
/// the first character that is not white space on.
pub proof fn law_what_is_said_by_name_is_heard(
    mention: Option<Mention>,
    nickname: Seq<char>,
    said: Seq<char>,
)
    requires
        nickname.len() > 0,
        tight(nickname, Trimmed::WhiteSpace),
        said.len() > 0,
        tight(said, Trimmed::WhiteSpace),
    ensures
        said_to_bot("group"@, mention, "@"@ + nickname + " "@ + said, Some(nickname)) == Some(said),
{
    reveal_strlit("@");
    reveal_strlit(" ");
    let text = "@"@ + nickname + " "@ + said;
    let address = "@"@ + nickname;
    assert(text.first() == '@');
    assert(text.last() == said.last());
    lemma_trim_keeps_tight(text, Trimmed::WhiteSpace);
    lemma_trim_keeps_tight(nickname, Trimmed::WhiteSpace);
    assert(text.take(address.len() as int) =~= address);
    let rest = text.skip(address.len() as int);
    assert(rest =~= " "@ + said);
    assert(rest.drop_first() =~= said);
    lemma_trim_keeps_tight(said, Trimmed::WhiteSpace);
    assert(trim_start(rest) == said);
}

/// Outside of groups everything that is not blank is heard.
pub proof fn law_other_chats_are_heard_in_full(
    chat_type: Seq<char>,
    mention: Option<Mention>,
    text: Seq<char>,
    nickname: Option<Seq<char>>,
)
    requires
        chat_type != "group"@,
        trim(text).len() > 0,
    ensures
        said_to_bot(chat_type, mention, text, nickname) == Some(trim(text)),
{
}

/// A document that comes in is kept in its directory, whatever it and its message
/// are called: what is joined to the directory holds no separator and is no way
/// back.
pub proof fn law_documents_are_kept_in_their_directory(
    platform: Platform,
    settings: MarkdownSettings,
    message_id: Seq<char>,
    file_name: Seq<char>,
)
    ensures
        ({
            let name = safe_file_name(message_id) + "-"@ + safe_file_name(file_name);
            &&& inbound_path(platform, settings, message_id, file_name) == joined_on(
                platform,
                inbound_dir(platform, settings),
                name,
            )
            &&& !absolute(name)
            &&& !name.contains('/')
            &&& !name.contains('\\')
            &&& !name.contains(':')
            &&& name != "."@
            &&& name != ".."@
        }),
{
    reveal_strlit("-");
    reveal_strlit(".");
    reveal_strlit("..");
    let front = safe_file_name(message_id);
    let back = safe_file_name(file_name);
    law_kept_names_are_safe(message_id);
    law_kept_names_are_safe(file_name);
    let name = front + "-"@ + back;
    assert forall|i: int| 0 <= i < name.len() implies safe_char(#[trigger] name[i]) by {
        if i < front.len() {
            assert(name[i] == front[i]);
        } else if i > front.len() {
            assert(name[i] == back[i - front.len() - 1]);
        }
    }
    assert(absolute(name) ==> name.contains('/'));
    assert(name[front.len() as int] == '-');
    assert(name.len() >= 3);
}

/// A document is uploaded with its own bytes, under a name that does not end as
/// a markdown file does.
pub proof fn law_documents_are_uploaded_whole(
    settings: MarkdownSettings,
    file_name: Seq<char>,
    bytes: Seq<u8>,
    read: Option<FileReadView>,
)
    ensures
        upload_of(settings, file_name, BinarySourceView::Bytes(bytes), read) matches Ok(upload)
            ==> {
            &&& upload.bytes == bytes
            &&& upload.bytes.len() <= settings.max_markdown_bytes
            &&& upload.file_name == travel_name(file_name)
            &&& ends_with(lower(upload.file_name), ".txt"@)
        },
{
    law_names_travel_as_text_files(file_name);
}

/// What is said in a group behind what stands for the bot in the text is heard whole, if the
/// bot is the first one who is named; so is what is said behind a tag that names them.
pub proof fn law_what_is_said_to_the_first_one_named_is_heard(
    first: Mention,
    nickname: Seq<char>,
    inner: Seq<char>,
    said: Seq<char>,
)
    requires
        nickname.len() > 0,
        tight(nickname, Trimmed::WhiteSpace),
        trim(first.name@) == nickname,
        said.len() > 0,
        tight(said, Trimmed::WhiteSpace),
    ensures
        first.key@.len() > 0 && !white_space(first.key@.first()) && !starts_with(
            first.key@ + " "@ + said,
            "@"@ + nickname,
        ) ==> said_to_bot("group"@, Some(first), first.key@ + " "@ + said, Some(nickname)) == Some(
            said,
        ),
        find("<at"@ + inner, "</at>"@) is None && !inner.contains('<') && !starts_with(
            "<at"@ + inner + "</at>"@ + " "@ + said,
            first.key@,
        ) ==> said_to_bot(
            "group"@,
            Some(first),
            "<at"@ + inner + "</at>"@ + " "@ + said,
            Some(nickname),
        ) == Some(said),
{
    reveal_strlit("@");
    reveal_strlit(" ");
    lemma_trim_keeps_tight(nickname, Trimmed::WhiteSpace);
    lemma_trim_keeps_tight(said, Trimmed::WhiteSpace);
    let gap = " "@ + said;
    assert(gap.drop_first() =~= said);
    assert(trim_start(gap) == said);
    let key = first.key@;
    let text = key + " "@ + said;
    if key.len() > 0 && !white_space(key.first()) && !starts_with(text, "@"@ + nickname) {
        assert(text.first() == key.first());
        assert(text.last() == said.last());
        lemma_trim_keeps_tight(text, Trimmed::WhiteSpace);
        assert(text.take(key.len() as int) =~= key);
        assert(text.skip(key.len() as int) =~= gap);
    }
    reveal_strlit("<at");
    reveal_strlit("</at>");
    let tag = "<at"@ + inner + "</at>"@ + " "@ + said;
    if find("<at"@ + inner, "</at>"@) is None && !inner.contains('<') && !starts_with(tag, key) {
        assert(tag.first() == '<');
        assert(tag.last() == said.last());
        lemma_trim_keeps_tight(tag, Trimmed::WhiteSpace);
        assert(!starts_with(tag, "@"@ + nickname)) by {
            assert(("@"@ + nickname)[0] == '@');
            if starts_with(tag, "@"@ + nickname) {
                assert(tag.take(("@"@ + nickname).len() as int)[0] == tag[0]);
            }
        }
        let at = 3 + inner.len() as int;
        assert(tag.subrange(at, at + 5) =~= "</at>"@);
        assert forall|j: int| 0 <= j < at implies !occurs_at(tag, "</at>"@, j) by {
            if occurs_at(tag, "</at>"@, j) {
                assert(tag.subrange(j, j + 5)[0] == tag[j]);
                assert(tag.subrange(j, j + 5)[1] == tag[j + 1]);
                if j == 0 {
                    assert(tag[1] == 'a');
                } else if j >= 3 {
                    assert(tag[j] == inner[j - 3]);
                    assert(inner.contains('<'));
                }
            }
        }
        lemma_find_some(tag, "</at>"@, at);
        assert(tag.take(3) =~= "<at"@);
        assert(tag.skip(at + 5) =~= gap);
    }
}

/// In a group, a bot without a name, or with a blank one, hears all that is said. One with a
/// name hears nothing where its name stands alone, or where no white space follows it.
pub proof fn law_a_name_alone_says_nothing(
    nickname: Seq<char>,
    text: Seq<char>,
    more: Seq<char>,
    mention: Option<Mention>,
)
    requires
        nickname.len() > 0,
        tight(nickname, Trimmed::WhiteSpace),
        text.len() > 0,
        tight(text, Trimmed::WhiteSpace),
        more.len() > 0,
        tight(more, Trimmed::WhiteSpace),
    ensures
        said_to_bot("group"@, mention, text, None) == Some(text),
        forall|blank: Seq<char>|
            trim(blank).len() == 0 ==> #[trigger] said_to_bot(
                "group"@,
                mention,
                text,
                Some(blank),
            ) == Some(text),
        said_to_bot("group"@, None, "@"@ + nickname, Some(nickname)) is None,
        said_to_bot("group"@, None, "@"@ + nickname + more, Some(nickname)) is None,
{
    reveal_strlit("@");
    lemma_trim_keeps_tight(text, Trimmed::WhiteSpace);
    lemma_trim_keeps_tight(nickname, Trimmed::WhiteSpace);
    let address = "@"@ + nickname;
    let longer = address + more;
    assert(address.first() == '@' && address.last() == nickname.last());
    assert(longer.first() == '@' && longer.last() == more.last());
    lemma_trim_keeps_tight(address, Trimmed::WhiteSpace);
    lemma_trim_keeps_tight(longer, Trimmed::WhiteSpace);
    assert(address.skip(address.len() as int).len() == 0);
    assert(longer.skip(address.len() as int) =~= more);
}

} // verus!
