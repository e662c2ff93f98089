//! What every event and every document that comes in is to the bridge.
use vstd::prelude::*;
use vstd::utf8::{decode_utf8, valid_utf8};

use crate::adapters::feishu::{
    conversation_key_for_event, reply_target_for_event, said_to_bot, store_markdown_document,
    translate_file_event, translate_inbound_event, DocumentStored, FilePayload, InboundDocument,
    InboundEvent, MarkdownSettings, Mention, TextPayload, Translated,
};
use crate::adapters::feishu_out::{FeishuChannelClient, FeishuLongConnectionRuntime};
use crate::adapters::feishu_laws::law_what_is_said_by_name_is_heard;
use crate::config::FeishuConfig;
use crate::domain::{
    colon_free, law_storage_text_tells_conversations_apart, BinarySourceView, ConversationKey,
    ConversationKeyView, InboundMessage, InboundMessageView, MessageBlockView, ReplyTarget,
    ReplyTargetView,
};
use crate::error::{BridgeError, BridgeErrorView};
use crate::markdown::{resolved_name, safe_file_name};
use crate::paths::joined_on;
use crate::platform::System;
use crate::text::chars::opt_text;
use crate::text::trim::{lemma_trim_keeps_tight, tight, trim, Trimmed};

verus! {

/// An event belongs to the conversation with its own tenant, chat, sender and thread,
/// and the reply to it goes to its own chat and message.
pub proof fn law_an_event_belongs_to_its_own_conversation(
    event: InboundEvent,
    key: ConversationKey,
    target: ReplyTarget,
)
    requires
        call_ensures(conversation_key_for_event, (&event,), key),
        call_ensures(reply_target_for_event, (&event,), target),
    ensures
        key.tenant_key@ == event.tenant_key@,
        key.chat_id@ == event.chat_id@,
        key.user_open_id@ == event.open_id@,
        opt_text(key.thread_id) == opt_text(event.thread_id),
        event.conversation() == (ConversationKeyView {
            tenant_key: event.tenant_key@,
            chat_id: event.chat_id@,
            user_open_id: event.open_id@,
            thread_id: opt_text(event.thread_id),
        }),
        target.chat_id@ == event.chat_id@,
        target.reply_to_message_id@ == event.message_id@,
        event.reply_target() == (ReplyTargetView {
            chat_id: event.chat_id@,
            reply_to_message_id: event.message_id@,
        }),
{
}

/// Events of different threads belong to different conversations: those of the same
/// sender in the same chat are kept under the same text only if their threads are the
/// same, where a thread that is called `-` counts as no thread. Events of different
/// senders, chats or tenants are never kept under the same text.
pub proof fn law_events_of_different_threads_are_kept_apart(
    left: InboundEvent,
    right: InboundEvent,
    left_key: ConversationKey,
    right_key: ConversationKey,
    left_text: String,
    right_text: String,
)
    requires
        colon_free(left.tenant_key@) && colon_free(right.tenant_key@),
        colon_free(left.chat_id@) && colon_free(right.chat_id@),
        colon_free(left.open_id@) && colon_free(right.open_id@),
        opt_text(left.thread_id) != Some("-"@),
        opt_text(right.thread_id) != Some("-"@),
        call_ensures(conversation_key_for_event, (&left,), left_key),
        call_ensures(conversation_key_for_event, (&right,), right_key),
        call_ensures(ConversationKey::storage_key, (&left_key,), left_text),
        call_ensures(ConversationKey::storage_key, (&right_key,), right_text),
    ensures
        left_text@ == right_text@ <==> {
            &&& left.tenant_key@ == right.tenant_key@
            &&& left.chat_id@ == right.chat_id@
            &&& left.open_id@ == right.open_id@
            &&& opt_text(left.thread_id) == opt_text(right.thread_id)
        },
        left.conversation().storage_text() == right.conversation().storage_text() <==> {
            &&& left.tenant_key@ == right.tenant_key@
            &&& left.chat_id@ == right.chat_id@
            &&& left.open_id@ == right.open_id@
            &&& opt_text(left.thread_id) == opt_text(right.thread_id)
        },
{
    law_storage_text_tells_conversations_apart(left.conversation(), right.conversation());
}

/// The text of an event is handled as a message of the event's own conversation, which
/// is replied to where it was said. It is one block: what was said to the bot.
pub proof fn law_a_text_is_a_message_of_its_conversation(
    settings: MarkdownSettings,
    event: InboundEvent,
    nickname: Option<String>,
    text: String,
    file: Result<FilePayload, String>,
    said: Seq<char>,
    out: Result<Translated, BridgeError>,
)
    requires
        event.sender_type@ == "user"@,
        event.message_type@ == "text"@,
        said_to_bot(event.chat_type@, event.first_mention(), text@, opt_text(nickname)) == Some(
            said,
        ),
        call_ensures(
            translate_inbound_event,
            (
                &settings,
                &event,
                &nickname,
                Ok::<TextPayload, String>(TextPayload { text: Some(text) }),
                &file,
            ),
            out,
        ),
    ensures
        out matches Ok(Translated::Message(message)) && message@ == (InboundMessageView {
            conversation: ConversationKeyView {
                tenant_key: event.tenant_key@,
                chat_id: event.chat_id@,
                user_open_id: event.open_id@,
                thread_id: opt_text(event.thread_id),
            },
            reply_target: ReplyTargetView {
                chat_id: event.chat_id@,
                reply_to_message_id: event.message_id@,
            },
            blocks: seq![MessageBlockView::Text { text: said }],
        }),
{
}

/// Outside of groups all of a text but white space at its ends is what the message says;
/// in a group all that stands behind the name of the bot is, if it has a name, and else
/// all of it.
pub proof fn law_what_is_said_is_heard_whole(
    event: InboundEvent,
    nickname: Option<Seq<char>>,
    name: Seq<char>,
    text: Seq<char>,
)
    requires
        text.len() > 0,
        tight(text, Trimmed::WhiteSpace),
        name.len() > 0,
        tight(name, Trimmed::WhiteSpace),
    ensures
        event.chat_type@ != "group"@ ==> said_to_bot(
            event.chat_type@,
            event.first_mention(),
            text,
            nickname,
        ) == Some(text),
        said_to_bot(event.chat_type@, event.first_mention(), text, None) == Some(text),
        event.chat_type@ == "group"@ ==> said_to_bot(
            event.chat_type@,
            event.first_mention(),
            "@"@ + name + " "@ + text,
            Some(name),
        ) == Some(text),
{
    lemma_trim_keeps_tight(text, Trimmed::WhiteSpace);
    law_what_is_said_by_name_is_heard(event.first_mention(), name, text);
}

/// What does not come from a user, and what is neither a text nor a file, leads to
/// nothing. A text in which nothing is said to the bot leads to nothing either.
pub proof fn law_other_events_lead_to_nothing(
    settings: MarkdownSettings,
    event: InboundEvent,
    nickname: Option<String>,
    text: Result<TextPayload, String>,
    file: Result<FilePayload, String>,
    out: Result<Translated, BridgeError>,
)
    requires
        call_ensures(translate_inbound_event, (&settings, &event, &nickname, text, &file), out),
    ensures
        event.sender_type@ != "user"@ ==> out == Ok::<Translated, BridgeError>(Translated::Nothing),
        event.message_type@ != "text"@ && event.message_type@ != "file"@ ==> out == Ok::<
            Translated,
            BridgeError,
        >(Translated::Nothing),
        event.sender_type@ == "user"@ && event.message_type@ == "text"@ && text is Ok && text->Ok_0.text
            is Some && trim(text->Ok_0.text->Some_0@).len() == 0 ==> out == Ok::<
            Translated,
            BridgeError,
        >(Translated::Nothing),
{
}

/// A file of a user is fetched by its key, where files are wanted and it is not said to
/// be larger than allowed. Where that is not so, or nothing can be read of the file, the
/// sender learns why.
pub proof fn law_a_file_is_fetched_by_its_key(
    settings: MarkdownSettings,
    event: InboundEvent,
    nickname: Option<String>,
    text: Result<TextPayload, String>,
    file: FilePayload,
    key: String,
    out: Result<Translated, BridgeError>,
)
    requires
        event.sender_type@ == "user"@,
        event.message_type@ == "file"@,
        file.file_key == Some(key),
        call_ensures(
            translate_inbound_event,
            (&settings, &event, &nickname, text, &Ok::<FilePayload, String>(file)),
            out,
        ),
    ensures
        settings.enable_markdown_input && (file.file_size matches Some(size) ==> size
            <= settings.max_markdown_bytes) ==> (out matches Ok(Translated::Fetch(fetched))
            && fetched@ == key@),
        !settings.enable_markdown_input || (file.file_size matches Some(size) && size
            > settings.max_markdown_bytes) ==> out is Err && out->Err_0 is InputRejected,
{
    reveal_strlit("text");
    reveal_strlit("file");
    assert("text"@[0] != "file"@[0]);
}

/// A file that comes in is taken with all its bytes and with all of its text, under the
/// name that it resolves to, if it is not larger than allowed, holds no zero byte and is
/// UTF-8. Else it is refused.
pub proof fn law_a_file_is_taken_whole(
    system: System,
    settings: MarkdownSettings,
    event: InboundEvent,
    file: FilePayload,
    bytes: Vec<u8>,
    name: Seq<char>,
    out: Result<InboundDocument, BridgeError>,
)
    requires
        resolved_name(event.message_id@, opt_text(file.file_name), opt_text(file.file_type)) == Ok::<
            Seq<char>,
            BridgeErrorView,
        >(name),
        call_ensures(translate_file_event, (system, &settings, &event, &file, bytes), out),
    ensures
        bytes@.len() <= settings.max_markdown_bytes && !bytes@.contains(0u8) && valid_utf8(bytes@)
            ==> (out matches Ok(document) && document.file_name@ == name && document.bytes@
            == bytes@ && document.text@ == decode_utf8(bytes@) && document.directory@
            == joined_on(system.family(), settings.media_dir@, "inbound"@) && document.path@
            == joined_on(
            system.family(),
            document.directory@,
            safe_file_name(event.message_id@) + "-"@ + safe_file_name(name),
        )),
        bytes@.len() > settings.max_markdown_bytes || bytes@.contains(0u8) || !valid_utf8(bytes@)
            ==> out is Err && out->Err_0 is InputRejected,
{
}

/// A document that was kept is handled as a message of its event's own conversation. It
/// is one block: a markdown document with its name, its path and all of its text.
pub proof fn law_a_kept_document_is_a_message_of_its_conversation(
    event: InboundEvent,
    document: InboundDocument,
    stored: DocumentStored,
    out: Result<InboundMessage, BridgeError>,
)
    requires
        call_ensures(store_markdown_document, (&event, document, stored), out),
    ensures
        match stored {
            DocumentStored::Done => out matches Ok(message) && message@ == (InboundMessageView {
                conversation: ConversationKeyView {
                    tenant_key: event.tenant_key@,
                    chat_id: event.chat_id@,
                    user_open_id: event.open_id@,
                    thread_id: opt_text(event.thread_id),
                },
                reply_target: ReplyTargetView {
                    chat_id: event.chat_id@,
                    reply_to_message_id: event.message_id@,
                },
                blocks: seq![
                    MessageBlockView::Document {
                        mime_type: "text/markdown"@,
                        file_name: document.file_name@,
                        source: BinarySourceView::LocalPath(document.path@),
                        extracted_text: Some(document.text@),
                    },
                ],
            }),
            DocumentStored::NoDirectory(fault) => out matches Err(error) && error@
                == BridgeErrorView::Channel(
                "failed to create feishu media directory "@ + document.directory@ + ": "@ + fault@,
            ),
            DocumentStored::NotWritten(fault) => out matches Err(error) && error@
                == BridgeErrorView::Channel(
                "failed to store markdown document "@ + document.path@ + ": "@ + fault@,
            ),
        },
{
}

/// The content of an event that cannot be read is told of with the reason, and so is that
/// of a file that has no key.
pub proof fn law_events_that_cannot_be_read_are_told_of(
    settings: MarkdownSettings,
    event: InboundEvent,
    nickname: Option<String>,
    text: Result<TextPayload, String>,
    file: Result<FilePayload, String>,
    out: Result<Translated, BridgeError>,
)
    requires
        event.sender_type@ == "user"@,
        call_ensures(translate_inbound_event, (&settings, &event, &nickname, text, &file), out),
    ensures
        event.message_type@ == "text"@ ==> (text matches Err(fault) ==> (out matches Err(error)
            && error@ == BridgeErrorView::Channel(
            "failed to parse feishu message content: "@ + fault@,
        ))),
        event.message_type@ == "file"@ && settings.enable_markdown_input ==> (file matches Err(
            fault,
        ) ==> (out matches Err(error) && error@ == BridgeErrorView::Channel(
            "failed to parse feishu file content: "@ + fault@,
        ))),
        event.message_type@ == "file"@ && settings.enable_markdown_input ==> (file matches Ok(
            payload,
        ) && payload.file_key is None ==> (out matches Err(error) && error@
            == BridgeErrorView::Channel("feishu file payload missing file_key"@))),
{
    reveal_strlit("text");
    reveal_strlit("file");
    assert("text"@[0] != "file"@[0]);
}

/// What is done with markdown files is what is configured.
pub proof fn law_markdown_is_handled_as_configured(
    config: FeishuConfig,
    client: FeishuChannelClient,
    runtime: FeishuLongConnectionRuntime,
)
    requires
        call_ensures(FeishuChannelClient::new, (&config,), client),
        call_ensures(FeishuLongConnectionRuntime::new, (&config,), runtime),
    ensures
        client.markdown.media_dir@ == config.media_dir@,
        client.markdown.max_markdown_bytes == config.max_markdown_bytes,
        client.markdown.enable_markdown_input == config.enable_markdown_input,
        client.markdown.enable_markdown_output == config.enable_markdown_output,
        opt_text(client.typing_reaction_emoji) == opt_text(config.typing_reaction_emoji),
        runtime.markdown.media_dir@ == config.media_dir@,
        runtime.markdown.max_markdown_bytes == config.max_markdown_bytes,
        runtime.markdown.enable_markdown_input == config.enable_markdown_input,
        runtime.markdown.enable_markdown_output == config.enable_markdown_output,
        opt_text(runtime.nickname) == opt_text(config.nickname),
{
}

/// The first one who is named in an event is the first of those that it lists.
pub proof fn law_the_first_one_named_is_first_in_the_list(event: InboundEvent, list: Vec<Mention>)
    ensures
        event.mentions == Some(list) && list@.len() > 0 ==> event.first_mention() == Some(list@[0]),
        event.mentions == Some(list) && list@.len() == 0 ==> event.first_mention() is None,
        event.mentions is None ==> event.first_mention() is None,
{
}

/// A conversation is kept under its tenant, its chat, its user and its thread, each whole.
pub proof fn law_a_conversation_is_kept_under_all_its_parts(key: ConversationKey, out: String)
    requires
        call_ensures(ConversationKey::storage_key, (&key,), out),
    ensures
        out@ == key.tenant_key@ + "::"@ + key.chat_id@ + "::"@ + key.user_open_id@ + "::"@ + (
        match key.thread_id {
            Some(thread) => thread@,
            None => "-"@,
        }),
{
}

} // verus!
