//! Feishu: the events that come in, and the messages that go out.
use vstd::prelude::*;
use vstd::slice::slice_subrange;
use vstd::std_specs::convert::FromSpecImpl;

use crate::adapters::prompt::{decode_document, decoded};
use crate::config::FeishuConfig;
use crate::domain::{
    block_views, copy_bytes, text_reply, BinarySource, BinarySourceView, ConversationKey,
    ConversationKeyView, InboundMessage, InboundMessageView, MessageBlock, MessageBlockView,
    ReplyTarget, ReplyTargetView,
};
use crate::error::{BridgeError, BridgeErrorView};
use crate::markdown::{
    checked_bytes, resolve_markdown_file_name, resolved_name, safe_file_name, sanitize_file_name,
    text_outcome, validate_markdown_bytes,
};
use crate::paths::{join_on, joined_on};
use crate::platform::{Platform, System};
use crate::text::chars::{
    copy_opt_text, is_white_space, opt_text, same_text, text_or, to_chars, to_text, white_space,
};
use crate::text::lines::join_two;
use crate::text::number::{decimal, decimal_text};
use crate::text::search::{
    find, slice_find, slice_starts_with, starts_with,
};
use crate::text::trim::{
    trim, trim_slice, trim_slice_front, trim_start, trim_text, Trimmed,
};

verus! {

/// Someone who is named in a message.
#[derive(Debug)]
pub struct Mention {
    /// What stands for them in the text.
    pub key: String,
    pub name: String,
}

/// A message that Feishu reports.
#[derive(Debug)]
pub struct InboundEvent {
    pub sender_type: String,
    pub tenant_key: String,
    pub open_id: String,
    pub message_id: String,
    pub chat_id: String,
    pub chat_type: String,
    pub thread_id: Option<String>,
    pub message_type: String,
    pub content: String,
    pub mentions: Option<Vec<Mention>>,
}

impl InboundEvent {
    pub open spec fn conversation(self) -> ConversationKeyView {
        ConversationKeyView {
            tenant_key: self.tenant_key@,
            chat_id: self.chat_id@,
            user_open_id: self.open_id@,
            thread_id: opt_text(self.thread_id),
        }
    }

    pub open spec fn reply_target(self) -> ReplyTargetView {
        ReplyTargetView { chat_id: self.chat_id@, reply_to_message_id: self.message_id@ }
    }

    /// A message of the event with the given blocks.
    pub open spec fn message(self, blocks: Seq<MessageBlockView>) -> InboundMessageView {
        InboundMessageView {
            conversation: self.conversation(),
            reply_target: self.reply_target(),
            blocks,
        }
    }

    /// The first one who is named.
    pub open spec fn first_mention(self) -> Option<Mention> {
        match self.mentions {
            Some(mentions) => if mentions@.len() > 0 {
                Some(mentions@[0])
            } else {
                None
            },
            None => None,
        }
    }
}

/// The conversation that an event belongs to.
pub fn conversation_key_for_event(event: &InboundEvent) -> (out: ConversationKey)
    ensures
        out@ == event.conversation(),
{
    ConversationKey {
        tenant_key: event.tenant_key.clone(),
        chat_id: event.chat_id.clone(),
        user_open_id: event.open_id.clone(),
        thread_id: copy_opt_text(&event.thread_id),
    }
}

/// Where the reply to an event goes.
pub fn reply_target_for_event(event: &InboundEvent) -> (out: ReplyTarget)
    ensures
        out@ == event.reply_target(),
{
    ReplyTarget {
        chat_id: event.chat_id.clone(),
        reply_to_message_id: event.message_id.clone(),
    }
}

/// What an event is to the bridge.
#[derive(Clone, Copy, Debug, PartialEq, Eq, Structural)]
pub enum EventKind {
    Ignored,
    Text,
    File,
}

/// What an event is to the bridge: texts and files of users count.
pub open spec fn kind_of(sender_type: Seq<char>, message_type: Seq<char>) -> EventKind {
    if sender_type != "user"@ {
        EventKind::Ignored
    } else if message_type == "text"@ {
        EventKind::Text
    } else if message_type == "file"@ {
        EventKind::File
    } else {
        EventKind::Ignored
    }
}

/// What an event is to the bridge.
pub fn event_kind(event: &InboundEvent) -> (out: EventKind)
    ensures
        out == kind_of(event.sender_type@, event.message_type@),
{
    if !same_text(event.sender_type.as_str(), "user") {
        EventKind::Ignored
    } else if same_text(event.message_type.as_str(), "text") {
        EventKind::Text
    } else if same_text(event.message_type.as_str(), "file") {
        EventKind::File
    } else {
        EventKind::Ignored
    }
}

/// What stands behind white space, which has to be there, and be followed by
/// something.
pub open spec fn behind_space(value: Seq<char>) -> Option<Seq<char>> {
    if value.len() == 0 || !white_space(value.first()) || trim_start(value).len() == 0 {
        None
    } else {
        Some(trim_start(value))
    }
}

/// What stands behind a prefix and white space.
pub open spec fn behind_prefix(text: Seq<char>, prefix: Seq<char>) -> Option<Seq<char>> {
    if starts_with(text, prefix) {
        behind_space(text.skip(prefix.len() as int))
    } else {
        None
    }
}

/// What stands behind a tag that names someone and white space.
pub open spec fn behind_at_tag(text: Seq<char>) -> Option<Seq<char>> {
    if starts_with(text, "<at"@) {
        match find(text, "</at>"@) {
            Some(at) => behind_space(text.skip(at + "</at>"@.len())),
            None => None,
        }
    } else {
        None
    }
}

/// What is said to someone by their name: behind the name itself, or where the
/// first one who is named is them, behind what stands for them in the text.
pub open spec fn said_to(
    text: Seq<char>,
    nickname: Seq<char>,
    mention: Option<Mention>,
) -> Option<Seq<char>> {
    match behind_prefix(text, "@"@ + nickname) {
        Some(said) => Some(said),
        None => match mention {
            Some(first) if trim(first.name@) == nickname => match behind_prefix(text, first.key@) {
                Some(said) => Some(said),
                None => behind_at_tag(text),
            },
            _ => None,
        },
    }
}

/// What a text says to the bot. In a group it has to be said to the bot by its
/// name, if it has one.
pub open spec fn said_to_bot(
    chat_type: Seq<char>,
    mention: Option<Mention>,
    text: Seq<char>,
    nickname: Option<Seq<char>>,
) -> Option<Seq<char>> {
    let said = trim(text);
    if said.len() == 0 {
        None
    } else if chat_type != "group"@ {
        Some(said)
    } else {
        match nickname {
            Some(name) if trim(name).len() > 0 => said_to(said, trim(name), mention),
            _ => Some(said),
        }
    }
}

fn strip_required_whitespace(value: &[char]) -> (out: Option<&[char]>)
    ensures
        match out {
            Some(said) => behind_space(value@) == Some(said@),
            None => behind_space(value@) is None,
        },
{
    if value.len() == 0 || !is_white_space(value[0]) {
        return None;
    }
    let trimmed = trim_slice_front(value, Trimmed::WhiteSpace);
    if trimmed.len() == 0 {
        None
    } else {
        Some(trimmed)
    }
}

fn strip_prefixed_text<'a>(text: &'a [char], prefix: &str) -> (out: Option<&'a [char]>)
    ensures
        match out {
            Some(said) => behind_prefix(text@, prefix@) == Some(said@),
            None => behind_prefix(text@, prefix@) is None,
        },
{
    let chars = to_chars(prefix);
    if !slice_starts_with(text, chars.as_slice()) {
        return None;
    }
    let end = text.len();
    let rest = slice_subrange(text, chars.len(), end);
    assert(rest@ =~= text@.skip(prefix@.len() as int));
    strip_required_whitespace(rest)
}

fn strip_leading_at_tag(text: &[char]) -> (out: Option<&[char]>)
    ensures
        match out {
            Some(said) => behind_at_tag(text@) == Some(said@),
            None => behind_at_tag(text@) is None,
        },
{
    let opening = to_chars("<at");
    if !slice_starts_with(text, opening.as_slice()) {
        return None;
    }
    let closing = to_chars("</at>");
    let end = text.len();
    match slice_find(text, closing.as_slice()) {
        Some(at) => {
            let rest = slice_subrange(text, at + closing.len(), end);
            assert(rest@ =~= text@.skip(at + "</at>"@.len()));
            strip_required_whitespace(rest)
        },
        None => None,
    }
}

fn extract_prefixed_group_text(text: &[char], nickname: &str, mentions: &Option<Vec<Mention>>) -> (out:
    Option<String>)
    ensures
        opt_text(out) == said_to(
            text@,
            nickname@,
            match mentions {
                Some(list) => if list@.len() > 0 {
                    Some(list@[0])
                } else {
                    None
                },
                None => None,
            },
        ),
{
    let address = join_two("@", nickname);
    if let Some(said) = strip_prefixed_text(text, address.as_str()) {
        return Some(to_text(said));
    }
    let list = match mentions {
        Some(list) => list,
        None => {
            return None;
        },
    };
    if list.len() == 0 {
        return None;
    }
    let first = &list[0];
    if !same_text(trim_text(first.name.as_str()).as_str(), nickname) {
        return None;
    }
    if let Some(said) = strip_prefixed_text(text, first.key.as_str()) {
        return Some(to_text(said));
    }
    match strip_leading_at_tag(text) {
        Some(said) => Some(to_text(said)),
        None => None,
    }
}

/// What the text of an event says to the bot.
pub fn normalize_inbound_text(event: &InboundEvent, text: &str, nickname: &Option<String>) -> (out:
    Option<String>)
    ensures
        opt_text(out) == said_to_bot(
            event.chat_type@,
            event.first_mention(),
            text@,
            opt_text(*nickname),
        ),
{
    let chars = to_chars(text);
    let trimmed = trim_slice(chars.as_slice());
    if trimmed.len() == 0 {
        return None;
    }
    if !same_text(event.chat_type.as_str(), "group") {
        return Some(to_text(trimmed));
    }
    let name = match nickname {
        Some(name) => trim_text(name.as_str()),
        None => {
            return Some(to_text(trimmed));
        },
    };
    if to_chars(name.as_str()).len() == 0 {
        return Some(to_text(trimmed));
    }
    extract_prefixed_group_text(trimmed, name.as_str(), &event.mentions)
}

/// The content of a text message.
#[derive(Debug)]
pub struct TextPayload {
    pub text: Option<String>,
}

/// The content of a file message.
#[derive(Debug)]
pub struct FilePayload {
    pub file_key: Option<String>,
    pub file_name: Option<String>,
    pub file_type: Option<String>,
    pub file_size: Option<usize>,
}

/// The message that an event is, where it is one.
pub open spec fn message_outcome(result: Result<Option<InboundMessage>, BridgeError>) -> Result<
    Option<InboundMessageView>,
    BridgeErrorView,
> {
    match result {
        Ok(Some(message)) => Ok(Some(message@)),
        Ok(None) => Ok(None),
        Err(error) => Err(error@),
    }
}

/// The message that a text event is: what it says to the bot, if that is
/// anything.
pub open spec fn text_message(
    event: InboundEvent,
    payload: Result<TextPayload, String>,
    nickname: Option<Seq<char>>,
) -> Result<Option<InboundMessageView>, BridgeErrorView> {
    match payload {
        Err(fault) => Err(
            BridgeErrorView::Channel("failed to parse feishu message content: "@ + fault@),
        ),
        Ok(payload) => match said_to_bot(
            event.chat_type@,
            event.first_mention(),
            text_or(opt_text(payload.text), seq![]),
            nickname,
        ) {
            Some(text) => Ok(Some(event.message(text_reply(text)))),
            None => Ok(None),
        },
    }
}

/// The message that a text event is, by what reading its content came to.
pub fn translate_text_event(
    event: &InboundEvent,
    payload: Result<TextPayload, String>,
    nickname: &Option<String>,
) -> (out: Result<Option<InboundMessage>, BridgeError>)
    ensures
        message_outcome(out) == text_message(*event, payload, opt_text(*nickname)),
{
    let payload = match payload {
        Ok(payload) => payload,
        Err(fault) => {
            return Err(
                BridgeError::Channel(
                    join_two("failed to parse feishu message content: ", fault.as_str()),
                ),
            );
        },
    };
    let text = match payload.text {
        Some(text) => text,
        None => {
            let none = String::new();
            assert(none@ =~= seq![]);
            none
        },
    };
    match normalize_inbound_text(event, text.as_str(), nickname) {
        Some(said) => {
            let mut blocks: Vec<MessageBlock> = Vec::new();
            let block = MessageBlock::text(said);
            blocks.push(block);
            assert(block_views(blocks@) =~= seq![block@]);
            Ok(
                Some(
                    InboundMessage {
                        conversation: conversation_key_for_event(event),
                        reply_target: reply_target_for_event(event),
                        blocks,
                    },
                ),
            )
        },
        None => Ok(None),
    }
}

/// What is done with markdown files.
#[derive(Debug)]
pub struct MarkdownSettings {
    pub media_dir: String,
    pub max_markdown_bytes: usize,
    pub enable_markdown_input: bool,
    pub enable_markdown_output: bool,
}

impl Clone for MarkdownSettings {
    fn clone(&self) -> (out: Self)
        ensures
            out == *self,
    {
        MarkdownSettings {
            media_dir: self.media_dir.clone(),
            max_markdown_bytes: self.max_markdown_bytes,
            enable_markdown_input: self.enable_markdown_input,
            enable_markdown_output: self.enable_markdown_output,
        }
    }
}

impl FromSpecImpl<&FeishuConfig> for MarkdownSettings {
    open spec fn obeys_from_spec() -> bool {
        true
    }

    open spec fn from_spec(value: &FeishuConfig) -> Self {
        MarkdownSettings {
            media_dir: value.media_dir,
            max_markdown_bytes: value.max_markdown_bytes,
            enable_markdown_input: value.enable_markdown_input,
            enable_markdown_output: value.enable_markdown_output,
        }
    }
}

impl From<&FeishuConfig> for MarkdownSettings {
    fn from(value: &FeishuConfig) -> (out: Self) {
        MarkdownSettings {
            media_dir: value.media_dir.clone(),
            max_markdown_bytes: value.max_markdown_bytes,
            enable_markdown_input: value.enable_markdown_input,
            enable_markdown_output: value.enable_markdown_output,
        }
    }
}

/// The file that a file event is about, or why it is not fetched: files are not
/// wanted, the content of the event cannot be read or names no file, or the file
/// is said to be too large.
pub open spec fn file_wanted(
    settings: MarkdownSettings,
    payload: Result<FilePayload, String>,
) -> Result<Seq<char>, BridgeErrorView> {
    if !settings.enable_markdown_input {
        Err(BridgeErrorView::InputRejected("当前机器人未启用 markdown 文件输入。"@))
    } else {
        match payload {
            Err(fault) => Err(
                BridgeErrorView::Channel("failed to parse feishu file content: "@ + fault@),
            ),
            Ok(file) => match (file.file_key, file.file_size) {
                (None, _) => Err(
                    BridgeErrorView::Channel("feishu file payload missing file_key"@),
                ),
                (Some(key), Some(size)) if size > settings.max_markdown_bytes => Err(
                    BridgeErrorView::InputRejected(
                        "markdown 文档过大，已超过 "@ + decimal(
                            settings.max_markdown_bytes as nat / 1024,
                        ) + " KB 限制。"@,
                    ),
                ),
                (Some(key), _) => Ok(key@),
            },
        }
    }
}

/// The file that a file event is about, or why it is not fetched.
pub fn requested_file(settings: &MarkdownSettings, payload: &Result<FilePayload, String>) -> (out:
    Result<String, BridgeError>)
    ensures
        text_outcome(out) == file_wanted(*settings, *payload),
{
    if !settings.enable_markdown_input {
        return Err(BridgeError::InputRejected("当前机器人未启用 markdown 文件输入。".to_owned()));
    }
    let file = match payload {
        Ok(file) => file,
        Err(fault) => {
            return Err(
                BridgeError::Channel(
                    join_two("failed to parse feishu file content: ", fault.as_str()),
                ),
            );
        },
    };
    let key = match &file.file_key {
        Some(key) => key,
        None => {
            return Err(BridgeError::Channel("feishu file payload missing file_key".to_owned()));
        },
    };
    if let Some(size) = file.file_size {
        if size > settings.max_markdown_bytes {
            let mut message = "markdown 文档过大，已超过 ".to_owned();
            message.append(decimal_text(settings.max_markdown_bytes as u64 / 1024).as_str());
            message.append(" KB 限制。");
            return Err(BridgeError::InputRejected(message));
        }
    }
    Ok(key.clone())
}

/// What is to be done about an event.
#[derive(Debug)]
pub enum Translated {
    /// Nothing: it is not for the bridge.
    Nothing,
    /// The message that it is has to be handled.
    Message(InboundMessage),
    /// The file with the given key has to be fetched.
    Fetch(String),
}

pub enum TranslatedView {
    Nothing,
    Message(InboundMessageView),
    Fetch(Seq<char>),
}

impl View for Translated {
    type V = TranslatedView;

    open spec fn view(&self) -> TranslatedView {
        match self {
            Translated::Nothing => TranslatedView::Nothing,
            Translated::Message(message) => TranslatedView::Message(message@),
            Translated::Fetch(key) => TranslatedView::Fetch(key@),
        }
    }
}

/// What is to be done about an event, by what reading its content as that of a text
/// and as that of a file came to.
pub open spec fn translated(
    settings: MarkdownSettings,
    event: InboundEvent,
    nickname: Option<Seq<char>>,
    text: Result<TextPayload, String>,
    file: Result<FilePayload, String>,
) -> Result<TranslatedView, BridgeErrorView> {
    match kind_of(event.sender_type@, event.message_type@) {
        EventKind::Ignored => Ok(TranslatedView::Nothing),
        EventKind::Text => match text_message(event, text, nickname) {
            Ok(Some(message)) => Ok(TranslatedView::Message(message)),
            Ok(None) => Ok(TranslatedView::Nothing),
            Err(error) => Err(error),
        },
        EventKind::File => match file_wanted(settings, file) {
            Ok(key) => Ok(TranslatedView::Fetch(key)),
            Err(error) => Err(error),
        },
    }
}

/// The view of what is to be done about an event, or of why nothing can be.
pub open spec fn translated_outcome(result: Result<Translated, BridgeError>) -> Result<
    TranslatedView,
    BridgeErrorView,
> {
    match result {
        Ok(translated) => Ok(translated@),
        Err(error) => Err(error@),
    }
}

/// What is to be done about an event, by what reading its content as that of a text
/// and as that of a file came to.
pub fn translate_inbound_event(
    settings: &MarkdownSettings,
    event: &InboundEvent,
    nickname: &Option<String>,
    text: Result<TextPayload, String>,
    file: &Result<FilePayload, String>,
) -> (out: Result<Translated, BridgeError>)
    ensures
        translated_outcome(out) == translated(*settings, *event, opt_text(*nickname), text, *file),
{
    match event_kind(event) {
        EventKind::Ignored => Ok(Translated::Nothing),
        EventKind::Text => match translate_text_event(event, text, nickname) {
            Ok(Some(message)) => Ok(Translated::Message(message)),
            Ok(None) => Ok(Translated::Nothing),
            Err(error) => Err(error),
        },
        EventKind::File => match requested_file(settings, file) {
            Ok(key) => Ok(Translated::Fetch(key)),
            Err(error) => Err(error),
        },
    }
}

/// The directory that files that came in are kept in.
pub open spec fn inbound_dir(platform: Platform, settings: MarkdownSettings) -> Seq<char> {
    joined_on(platform, settings.media_dir@, "inbound"@)
}

/// The path that a file that came in is kept under: the names of the message and
/// of the file make up the name.
pub open spec fn inbound_path(
    platform: Platform,
    settings: MarkdownSettings,
    message_id: Seq<char>,
    file_name: Seq<char>,
) -> Seq<char> {
    joined_on(
        platform,
        inbound_dir(platform, settings),
        safe_file_name(message_id) + "-"@ + safe_file_name(file_name),
    )
}

/// A file that came in and is to be kept.
#[derive(Debug)]
pub struct InboundDocument {
    pub file_name: String,
    pub directory: String,
    pub path: String,
    pub bytes: Vec<u8>,
    pub text: String,
}

pub struct InboundDocumentView {
    pub file_name: Seq<char>,
    pub directory: Seq<char>,
    pub path: Seq<char>,
    pub bytes: Seq<u8>,
    pub text: Seq<char>,
}

impl View for InboundDocument {
    type V = InboundDocumentView;

    open spec fn view(&self) -> InboundDocumentView {
        InboundDocumentView {
            file_name: self.file_name@,
            directory: self.directory@,
            path: self.path@,
            bytes: self.bytes@,
            text: self.text@,
        }
    }
}

/// The document that the bytes of a file are, or why they are none: the name is
/// not one of markdown, the bytes are too many or no text.
pub open spec fn received(
    platform: Platform,
    settings: MarkdownSettings,
    message_id: Seq<char>,
    file: FilePayload,
    bytes: Seq<u8>,
) -> Result<InboundDocumentView, BridgeErrorView> {
    match resolved_name(message_id, opt_text(file.file_name), opt_text(file.file_type)) {
        Err(error) => Err(error),
        Ok(name) => match checked_bytes(name, bytes, settings.max_markdown_bytes as nat) {
            Err(error) => Err(error),
            Ok(_) => match decoded(bytes) {
                Err(error) => Err(error),
                Ok(text) => Ok(
                    InboundDocumentView {
                        file_name: name,
                        directory: inbound_dir(platform, settings),
                        path: inbound_path(platform, settings, message_id, name),
                        bytes,
                        text,
                    },
                ),
            },
        },
    }
}

/// The view of a document that came in, or of why there is none.
pub open spec fn document_outcome(result: Result<InboundDocument, BridgeError>) -> Result<
    InboundDocumentView,
    BridgeErrorView,
> {
    match result {
        Ok(document) => Ok(document@),
        Err(error) => Err(error@),
    }
}

/// The document that the bytes of a file are, or why they are none.
pub fn translate_file_event(
    system: System,
    settings: &MarkdownSettings,
    event: &InboundEvent,
    file: &FilePayload,
    bytes: Vec<u8>,
) -> (out: Result<InboundDocument, BridgeError>)
    ensures
        document_outcome(out) == received(
            system.family(),
            *settings,
            event.message_id@,
            *file,
            bytes@,
        ),
{
    let file_name = match resolve_markdown_file_name(
        event.message_id.as_str(),
        &file.file_name,
        &file.file_type,
    ) {
        Ok(name) => name,
        Err(error) => {
            return Err(error);
        },
    };
    if let Err(error) = validate_markdown_bytes(
        file_name.as_str(),
        bytes.as_slice(),
        settings.max_markdown_bytes,
    ) {
        return Err(error);
    }
    let text = match decode_document(copy_bytes(&bytes)) {
        Ok(text) => text,
        Err(error) => {
            return Err(error);
        },
    };
    let directory = join_on(system, settings.media_dir.as_str(), "inbound");
    let path = document_path(
        system,
        directory.as_str(),
        event.message_id.as_str(),
        file_name.as_str(),
    );
    Ok(InboundDocument { file_name, directory, path, bytes, text })
}

fn document_path(system: System, directory: &str, message_id: &str, file_name: &str) -> (out:
    String)
    ensures
        out@ == joined_on(
            system.family(),
            directory@,
            safe_file_name(message_id@) + "-"@ + safe_file_name(file_name@),
        ),
{
    let mut name = sanitize_file_name(message_id);
    name.append("-");
    name.append(sanitize_file_name(file_name).as_str());
    join_on(system, directory, name.as_str())
}

/// What keeping a file came to.
pub enum DocumentStored {
    Done,
    /// Its directory cannot be made, for the given reason.
    NoDirectory(String),
    /// It cannot be written, for the given reason.
    NotWritten(String),
}

/// The message that a document is once it is kept.
pub open spec fn document_message(
    event: InboundEvent,
    document: InboundDocumentView,
    stored: DocumentStored,
) -> Result<InboundMessageView, BridgeErrorView> {
    match stored {
        DocumentStored::NoDirectory(fault) => Err(
            BridgeErrorView::Channel(
                "failed to create feishu media directory "@ + document.directory + ": "@ + fault@,
            ),
        ),
        DocumentStored::NotWritten(fault) => Err(
            BridgeErrorView::Channel(
                "failed to store markdown document "@ + document.path + ": "@ + fault@,
            ),
        ),
        DocumentStored::Done => Ok(
            event.message(
                seq![
                    MessageBlockView::Document {
                        mime_type: "text/markdown"@,
                        file_name: document.file_name,
                        source: BinarySourceView::LocalPath(document.path),
                        extracted_text: Some(document.text),
                    },
                ],
            ),
        ),
    }
}

fn channel_error(what: &str, path: &str, fault: &str) -> (out: BridgeError)
    ensures
        out@ == BridgeErrorView::Channel(what@ + path@ + ": "@ + fault@),
{
    let mut message = what.to_owned();
    message.append(path);
    message.append(": ");
    message.append(fault);
    BridgeError::Channel(message)
}

/// The message that a document is, by what keeping it came to.
pub fn store_markdown_document(
    event: &InboundEvent,
    document: InboundDocument,
    stored: DocumentStored,
) -> (out: Result<InboundMessage, BridgeError>)
    ensures
        match out {
            Ok(message) => document_message(*event, document@, stored) == Ok::<
                InboundMessageView,
                BridgeErrorView,
            >(message@),
            Err(error) => document_message(*event, document@, stored) == Err::<
                InboundMessageView,
                BridgeErrorView,
            >(error@),
        },
{
    match stored {
        DocumentStored::NoDirectory(fault) => Err(
            channel_error(
                "failed to create feishu media directory ",
                document.directory.as_str(),
                fault.as_str(),
            ),
        ),
        DocumentStored::NotWritten(fault) => Err(
            channel_error(
                "failed to store markdown document ",
                document.path.as_str(),
                fault.as_str(),
            ),
        ),
        DocumentStored::Done => {
            let mut blocks: Vec<MessageBlock> = Vec::new();
            let block = MessageBlock::Document {
                mime_type: "text/markdown".to_owned(),
                file_name: document.file_name,
                source: BinarySource::LocalPath(document.path),
                extracted_text: Some(document.text),
            };
            blocks.push(block);
            assert(block_views(blocks@) =~= seq![block@]);
            Ok(
                InboundMessage {
                    conversation: conversation_key_for_event(event),
                    reply_target: reply_target_for_event(event),
                    blocks,
                },
            )
        },
    }
}

} // verus!
