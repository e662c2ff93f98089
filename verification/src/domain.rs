//! What the bridge speaks of: conversations, messages, sessions and replies.
//!
//! Paths are texts in the syntax of Unix.
use vstd::prelude::*;
use vstd::std_specs::convert::{FromSpec, FromSpecImpl};

use crate::text::chars::{
    copy_opt_text, lower, opt_text, same_chars, str_or, text_or, to_chars, to_lower_chars,
    IntoText,
};
use crate::text::trim::{trim, trim_slice};

verus! {

/// Who a conversation is with, and where.
#[derive(Debug, PartialEq, Eq, Hash)]
pub struct ConversationKey {
    pub tenant_key: String,
    pub chat_id: String,
    pub user_open_id: String,
    pub thread_id: Option<String>,
}

pub struct ConversationKeyView {
    pub tenant_key: Seq<char>,
    pub chat_id: Seq<char>,
    pub user_open_id: Seq<char>,
    pub thread_id: Option<Seq<char>>,
}

impl View for ConversationKey {
    type V = ConversationKeyView;

    open spec fn view(&self) -> ConversationKeyView {
        ConversationKeyView {
            tenant_key: self.tenant_key@,
            chat_id: self.chat_id@,
            user_open_id: self.user_open_id@,
            thread_id: opt_text(self.thread_id),
        }
    }
}

impl Clone for ConversationKey {
    fn clone(&self) -> (out: Self)
        ensures
            out == *self,
    {
        ConversationKey {
            tenant_key: self.tenant_key.clone(),
            chat_id: self.chat_id.clone(),
            user_open_id: self.user_open_id.clone(),
            thread_id: copy_opt_text(&self.thread_id),
        }
    }
}

impl ConversationKeyView {
    /// The text under which what is known of the conversation is kept.
    pub open spec fn storage_text(self) -> Seq<char> {
        self.tenant_key + "::"@ + self.chat_id + "::"@ + self.user_open_id + "::"@ + text_or(
            self.thread_id,
            "-"@,
        )
    }
}

impl ConversationKey {
    /// The text under which what is known of the conversation is kept.
    pub fn storage_key(&self) -> (out: String)
        ensures
            out@ == self@.storage_text(),
    {
        let mut out = self.tenant_key.clone();
        out.append("::");
        out.append(self.chat_id.as_str());
        out.append("::");
        out.append(self.user_open_id.as_str());
        out.append("::");
        out.append(str_or(&self.thread_id, "-"));
        out
    }
}

/// A text in which no colon stands.
pub open spec fn colon_free(text: Seq<char>) -> bool {
    !text.contains(':')
}

/// Two texts that run on behind a colon-free part and a separator agree in the
/// part and in what follows the separator.
proof fn lemma_split_at_colons(a: Seq<char>, b: Seq<char>, x: Seq<char>, y: Seq<char>)
    requires
        colon_free(a),
        colon_free(b),
        a + "::"@ + x == b + "::"@ + y,
    ensures
        a == b,
        x == y,
{
    reveal_strlit("::");
    let left = a + "::"@ + x;
    let right = b + "::"@ + y;
    if a.len() < b.len() {
        assert(left[a.len() as int] == ':');
        assert(right[a.len() as int] == b[a.len() as int]);
        assert(b.contains(':'));
    }
    if b.len() < a.len() {
        assert(right[b.len() as int] == ':');
        assert(left[b.len() as int] == a[b.len() as int]);
        assert(a.contains(':'));
    }
    assert(a =~= left.take(a.len() as int));
    assert(b =~= right.take(b.len() as int));
    assert(x =~= left.skip(a.len() as int + 2));
    assert(y =~= right.skip(b.len() as int + 2));
}

/// Conversations whose tenant, chat and user identifiers hold no colon are kept
/// apart: the same storage text means the same conversation, where a thread that
/// is called `-` counts as no thread.
pub proof fn law_storage_text_tells_conversations_apart(
    left: ConversationKeyView,
    right: ConversationKeyView,
)
    requires
        colon_free(left.tenant_key) && colon_free(right.tenant_key),
        colon_free(left.chat_id) && colon_free(right.chat_id),
        colon_free(left.user_open_id) && colon_free(right.user_open_id),
    ensures
        left.storage_text() == right.storage_text() <==> {
            &&& left.tenant_key == right.tenant_key
            &&& left.chat_id == right.chat_id
            &&& left.user_open_id == right.user_open_id
            &&& text_or(left.thread_id, "-"@) == text_or(right.thread_id, "-"@)
        },
{
    if left.storage_text() == right.storage_text() {
        let sep = "::"@;
        let l3 = text_or(left.thread_id, "-"@);
        let r3 = text_or(right.thread_id, "-"@);
        let l2 = left.user_open_id + sep + l3;
        let r2 = right.user_open_id + sep + r3;
        let l1 = left.chat_id + sep + l2;
        let r1 = right.chat_id + sep + r2;
        assert(left.storage_text() =~= left.tenant_key + sep + l1);
        assert(right.storage_text() =~= right.tenant_key + sep + r1);
        lemma_split_at_colons(left.tenant_key, right.tenant_key, l1, r1);
        lemma_split_at_colons(left.chat_id, right.chat_id, l2, r2);
        lemma_split_at_colons(left.user_open_id, right.user_open_id, l3, r3);
    }
}

/// Where a reply goes.
#[derive(Debug, PartialEq, Eq)]
pub struct ReplyTarget {
    pub chat_id: String,
    pub reply_to_message_id: String,
}

pub struct ReplyTargetView {
    pub chat_id: Seq<char>,
    pub reply_to_message_id: Seq<char>,
}

impl View for ReplyTarget {
    type V = ReplyTargetView;

    open spec fn view(&self) -> ReplyTargetView {
        ReplyTargetView {
            chat_id: self.chat_id@,
            reply_to_message_id: self.reply_to_message_id@,
        }
    }
}

impl Clone for ReplyTarget {
    fn clone(&self) -> (out: Self)
        ensures
            out == *self,
    {
        ReplyTarget {
            chat_id: self.chat_id.clone(),
            reply_to_message_id: self.reply_to_message_id.clone(),
        }
    }
}

/// Where the bytes of an image or a document are.
#[derive(Debug, PartialEq, Eq)]
pub enum BinarySource {
    Bytes(Vec<u8>),
    LocalPath(String),
}

pub enum BinarySourceView {
    Bytes(Seq<u8>),
    LocalPath(Seq<char>),
}

impl View for BinarySource {
    type V = BinarySourceView;

    open spec fn view(&self) -> BinarySourceView {
        match self {
            BinarySource::Bytes(bytes) => BinarySourceView::Bytes(bytes@),
            BinarySource::LocalPath(path) => BinarySourceView::LocalPath(path@),
        }
    }
}

/// A copy of some bytes.
pub fn copy_bytes(bytes: &Vec<u8>) -> (out: Vec<u8>)
    ensures
        out@ == bytes@,
{
    let out = bytes.clone();
    assert(out@ =~= bytes@);
    out
}

impl Clone for BinarySource {
    fn clone(&self) -> (out: Self)
        ensures
            out@ == self@,
    {
        match self {
            BinarySource::Bytes(bytes) => BinarySource::Bytes(copy_bytes(bytes)),
            BinarySource::LocalPath(path) => BinarySource::LocalPath(path.clone()),
        }
    }
}

/// One piece of a message or a reply.
#[derive(Debug, PartialEq, Eq)]
pub enum MessageBlock {
    Text { text: String },
    Image { mime_type: String, source: BinarySource, alt: Option<String> },
    Document {
        mime_type: String,
        file_name: String,
        source: BinarySource,
        extracted_text: Option<String>,
    },
}

pub enum MessageBlockView {
    Text { text: Seq<char> },
    Image { mime_type: Seq<char>, source: BinarySourceView, alt: Option<Seq<char>> },
    Document {
        mime_type: Seq<char>,
        file_name: Seq<char>,
        source: BinarySourceView,
        extracted_text: Option<Seq<char>>,
    },
}

impl View for MessageBlock {
    type V = MessageBlockView;

    open spec fn view(&self) -> MessageBlockView {
        match self {
            MessageBlock::Text { text } => MessageBlockView::Text { text: text@ },
            MessageBlock::Image { mime_type, source, alt } => MessageBlockView::Image {
                mime_type: mime_type@,
                source: source@,
                alt: opt_text(*alt),
            },
            MessageBlock::Document { mime_type, file_name, source, extracted_text } =>
                MessageBlockView::Document {
                    mime_type: mime_type@,
                    file_name: file_name@,
                    source: source@,
                    extracted_text: opt_text(*extracted_text),
                },
        }
    }
}

/// The views of a run of blocks.
pub open spec fn block_views(blocks: Seq<MessageBlock>) -> Seq<MessageBlockView> {
    blocks.map_values(|block: MessageBlock| block@)
}

impl Clone for MessageBlock {
    fn clone(&self) -> (out: Self)
        ensures
            out@ == self@,
    {
        match self {
            MessageBlock::Text { text } => MessageBlock::Text { text: text.clone() },
            MessageBlock::Image { mime_type, source, alt } => MessageBlock::Image {
                mime_type: mime_type.clone(),
                source: source.clone(),
                alt: copy_opt_text(alt),
            },
            MessageBlock::Document { mime_type, file_name, source, extracted_text } =>
                MessageBlock::Document {
                    mime_type: mime_type.clone(),
                    file_name: file_name.clone(),
                    source: source.clone(),
                    extracted_text: copy_opt_text(extracted_text),
                },
        }
    }
}

/// A copy of a run of blocks.
pub fn copy_blocks(blocks: &[MessageBlock]) -> (out: Vec<MessageBlock>)
    ensures
        block_views(out@) == block_views(blocks@),
{
    let mut out: Vec<MessageBlock> = Vec::new();
    let mut i: usize = 0;
    while i < blocks.len()
        invariant
            i <= blocks@.len(),
            block_views(out@) == block_views(blocks@.take(i as int)),
        decreases blocks@.len() - i,
    {
        let ghost before = out@;
        let block = blocks[i].clone();
        out.push(block);
        assert(block_views(out@) =~= block_views(before).push(blocks@[i as int]@));
        assert(block_views(blocks@.take(i + 1)) =~= block_views(blocks@.take(i as int)).push(
            blocks@[i as int]@,
        ));
        i += 1;
    }
    assert(blocks@.take(i as int) =~= blocks@);
    out
}

impl MessageBlock {
    /// A block of text.
    pub fn text<T: IntoText>(text: T) -> (out: Self)
        ensures
            out@ == (MessageBlockView::Text { text: text.content() }),
    {
        MessageBlock::Text { text: text.into_text() }
    }

    /// The text of a block of text.
    pub fn as_text(&self) -> (out: Option<&str>)
        ensures
            match out {
                Some(text) => self@ == (MessageBlockView::Text { text: text@ }),
                None => !(self is Text),
            },
    {
        match self {
            MessageBlock::Text { text } => Some(text.as_str()),
            _ => None,
        }
    }

    /// What the block holds, in a word.
    pub fn kind(&self) -> (out: &'static str)
        ensures
            out@ == (match self {
                MessageBlock::Text { .. } => "text"@,
                MessageBlock::Image { .. } => "image"@,
                MessageBlock::Document { .. } => "document"@,
            }),
    {
        match self {
            MessageBlock::Text { .. } => "text",
            MessageBlock::Image { .. } => "image",
            MessageBlock::Document { .. } => "document",
        }
    }
}

/// A message that came in.
#[derive(Debug, PartialEq, Eq)]
pub struct InboundMessage {
    pub conversation: ConversationKey,
    pub reply_target: ReplyTarget,
    pub blocks: Vec<MessageBlock>,
}

pub struct InboundMessageView {
    pub conversation: ConversationKeyView,
    pub reply_target: ReplyTargetView,
    pub blocks: Seq<MessageBlockView>,
}

impl View for InboundMessage {
    type V = InboundMessageView;

    open spec fn view(&self) -> InboundMessageView {
        InboundMessageView {
            conversation: self.conversation@,
            reply_target: self.reply_target@,
            blocks: block_views(self.blocks@),
        }
    }
}

impl Clone for InboundMessage {
    fn clone(&self) -> (out: Self)
        ensures
            out@ == self@,
    {
        InboundMessage {
            conversation: self.conversation.clone(),
            reply_target: self.reply_target.clone(),
            blocks: copy_blocks(self.blocks.as_slice()),
        }
    }
}

/// What an agent may do without asking.
#[derive(Clone, Copy, Debug, PartialEq, Eq, Structural)]
pub enum PermissionMode {
    ApproveAll,
    ApproveReads,
    DenyAll,
}

impl PermissionMode {
    /// The name that the user types and reads.
    pub open spec fn name(self) -> Seq<char> {
        match self {
            PermissionMode::ApproveAll => "approve-all"@,
            PermissionMode::ApproveReads => "approve-reads"@,
            PermissionMode::DenyAll => "deny-all"@,
        }
    }

    /// The flag of `acpx` for it.
    pub open spec fn flag(self) -> Seq<char> {
        match self {
            PermissionMode::ApproveAll => "--approve-all"@,
            PermissionMode::ApproveReads => "--approve-reads"@,
            PermissionMode::DenyAll => "--deny-all"@,
        }
    }

    /// The mode that a text names. White space around the name and the case of
    /// its letters do not matter.
    pub open spec fn named(text: Seq<char>) -> Option<PermissionMode> {
        let name = lower(trim(text));
        if name == PermissionMode::ApproveAll.name() {
            Some(PermissionMode::ApproveAll)
        } else if name == PermissionMode::ApproveReads.name() {
            Some(PermissionMode::ApproveReads)
        } else if name == PermissionMode::DenyAll.name() {
            Some(PermissionMode::DenyAll)
        } else {
            None
        }
    }

    pub fn as_str(&self) -> (out: &'static str)
        ensures
            out@ == self.name(),
    {
        match self {
            PermissionMode::ApproveAll => "approve-all",
            PermissionMode::ApproveReads => "approve-reads",
            PermissionMode::DenyAll => "deny-all",
        }
    }

    pub fn as_acpx_flag(&self) -> (out: &'static str)
        ensures
            out@ == self.flag(),
    {
        match self {
            PermissionMode::ApproveAll => "--approve-all",
            PermissionMode::ApproveReads => "--approve-reads",
            PermissionMode::DenyAll => "--deny-all",
        }
    }

    pub fn parse(value: &str) -> (out: Option<Self>)
        ensures
            out == PermissionMode::named(value@),
    {
        let chars = to_chars(value);
        let name = to_lower_chars(trim_slice(chars.as_slice()));
        if is_chars(&name, "approve-all") {
            Some(PermissionMode::ApproveAll)
        } else if is_chars(&name, "approve-reads") {
            Some(PermissionMode::ApproveReads)
        } else if is_chars(&name, "deny-all") {
            Some(PermissionMode::DenyAll)
        } else {
            None
        }
    }
}

/// Whether the characters are those of the text.
pub fn is_chars(chars: &Vec<char>, text: &str) -> (out: bool)
    ensures
        out == (chars@ == text@),
{
    let other = to_chars(text);
    same_chars(chars.as_slice(), other.as_slice())
}

/// A mode is found again by its own name.
pub proof fn law_permission_mode_is_named_by_its_name(mode: PermissionMode)
    ensures
        PermissionMode::named(mode.name()) == Some(mode),
{
    reveal_strlit("approve-all");
    reveal_strlit("approve-reads");
    reveal_strlit("deny-all");
    let name = mode.name();
    assert(trim(name) == name) by {
        crate::text::trim::lemma_trim_keeps_tight(name, crate::text::trim::Trimmed::WhiteSpace);
    }
    assert(lower(name) =~= name);
    assert("approve-all"@.len() == 11);
    assert("approve-reads"@.len() == 13);
    assert("deny-all"@.len() == 8);
}

/// The context that a conversation works in.
#[derive(Debug, PartialEq, Eq)]
pub struct ConversationBinding {
    pub cwd: String,
    pub agent: String,
    pub session_name: Option<String>,
    pub permission_mode: PermissionMode,
}

pub struct ConversationBindingView {
    pub cwd: Seq<char>,
    pub agent: Seq<char>,
    pub session_name: Option<Seq<char>>,
    pub permission_mode: PermissionMode,
}

impl View for ConversationBinding {
    type V = ConversationBindingView;

    open spec fn view(&self) -> ConversationBindingView {
        ConversationBindingView {
            cwd: self.cwd@,
            agent: self.agent@,
            session_name: opt_text(self.session_name),
            permission_mode: self.permission_mode,
        }
    }
}

impl Clone for ConversationBinding {
    fn clone(&self) -> (out: Self)
        ensures
            out == *self,
    {
        ConversationBinding {
            cwd: self.cwd.clone(),
            agent: self.agent.clone(),
            session_name: copy_opt_text(&self.session_name),
            permission_mode: self.permission_mode,
        }
    }
}

/// Which session of which agent is meant, and how it is run.
#[derive(Debug, PartialEq, Eq)]
pub struct SessionSelector {
    pub cwd: String,
    pub agent: String,
    pub session_name: Option<String>,
    pub permission_mode: PermissionMode,
}

pub struct SessionSelectorView {
    pub cwd: Seq<char>,
    pub agent: Seq<char>,
    pub session_name: Option<Seq<char>>,
    pub permission_mode: PermissionMode,
}

impl View for SessionSelector {
    type V = SessionSelectorView;

    open spec fn view(&self) -> SessionSelectorView {
        SessionSelectorView {
            cwd: self.cwd@,
            agent: self.agent@,
            session_name: opt_text(self.session_name),
            permission_mode: self.permission_mode,
        }
    }
}

impl ConversationBindingView {
    /// The session that the conversation is in.
    pub open spec fn selector(self) -> SessionSelectorView {
        SessionSelectorView {
            cwd: self.cwd,
            agent: self.agent,
            session_name: self.session_name,
            permission_mode: self.permission_mode,
        }
    }
}

impl Clone for SessionSelector {
    fn clone(&self) -> (out: Self)
        ensures
            out == *self,
    {
        SessionSelector {
            cwd: self.cwd.clone(),
            agent: self.agent.clone(),
            session_name: copy_opt_text(&self.session_name),
            permission_mode: self.permission_mode,
        }
    }
}

impl SessionSelector {
    /// The same selector for another session.
    pub fn with_session_name(&self, session_name: Option<String>) -> (out: Self)
        ensures
            out@ == (SessionSelectorView { session_name: opt_text(session_name), ..self@ }),
    {
        SessionSelector {
            cwd: self.cwd.clone(),
            agent: self.agent.clone(),
            session_name,
            permission_mode: self.permission_mode,
        }
    }
}

impl FromSpecImpl<&ConversationBinding> for SessionSelector {
    open spec fn obeys_from_spec() -> bool {
        true
    }

    open spec fn from_spec(value: &ConversationBinding) -> Self {
        SessionSelector {
            cwd: value.cwd,
            agent: value.agent,
            session_name: value.session_name,
            permission_mode: value.permission_mode,
        }
    }
}

impl From<&ConversationBinding> for SessionSelector {
    fn from(value: &ConversationBinding) -> (out: Self) {
        SessionSelector {
            cwd: value.cwd.clone(),
            agent: value.agent.clone(),
            session_name: copy_opt_text(&value.session_name),
            permission_mode: value.permission_mode,
        }
    }
}

/// A session, in brief.
#[derive(Clone, Debug, PartialEq, Eq)]
pub struct SessionSummary {
    pub record_id: String,
    pub name: Option<String>,
    pub created: bool,
    pub acp_session_id: Option<String>,
    pub agent_session_id: Option<String>,
}

/// A session, in full.
#[derive(Clone, Debug, PartialEq, Eq)]
pub struct SessionRecord {
    pub record_id: String,
    pub acp_session_id: String,
    pub agent_session_id: Option<String>,
    pub agent: String,
    pub cwd: String,
    pub name: Option<String>,
    pub title: Option<String>,
    pub first_user_preview: Option<String>,
    pub created_at: String,
    pub last_used_at: String,
    pub last_prompt_at: Option<String>,
    pub closed: bool,
    pub model: Option<String>,
    pub mode: Option<String>,
}

/// One entry of a session's history.
#[derive(Clone, Debug, PartialEq, Eq)]
pub struct SessionHistoryEntry {
    pub role: String,
    pub timestamp: String,
    pub text_preview: String,
}

/// What a session is doing.
#[derive(Clone, Debug, PartialEq, Eq)]
pub struct SessionStatus {
    pub status: String,
    pub session_id: Option<String>,
    pub agent_command: String,
    pub pid: Option<i64>,
    pub model: Option<String>,
    pub mode: Option<String>,
    pub uptime: Option<String>,
    pub last_prompt_time: Option<String>,
    pub exit_code: Option<i64>,
    pub signal: Option<String>,
    pub agent_session_id: Option<String>,
}

/// What an agent, or the bridge itself, answers.
#[derive(Debug, PartialEq, Eq)]
pub struct AgentReply {
    pub blocks: Vec<MessageBlock>,
}

impl View for AgentReply {
    type V = Seq<MessageBlockView>;

    open spec fn view(&self) -> Seq<MessageBlockView> {
        block_views(self.blocks@)
    }
}

impl Clone for AgentReply {
    fn clone(&self) -> (out: Self)
        ensures
            out@ == self@,
    {
        AgentReply { blocks: copy_blocks(self.blocks.as_slice()) }
    }
}

/// A reply that is one text.
pub open spec fn text_reply(text: Seq<char>) -> Seq<MessageBlockView> {
    seq![MessageBlockView::Text { text }]
}

impl AgentReply {
    /// A reply that is one text.
    pub fn from_text<T: IntoText>(text: T) -> (out: Self)
        ensures
            out@ == text_reply(text.content()),
    {
        let mut blocks: Vec<MessageBlock> = Vec::new();
        blocks.push(MessageBlock::text(text));
        let out = AgentReply { blocks };
        assert(out@ =~= text_reply(text.content()));
        out
    }
}

/// What a shell command came to.
#[derive(Clone, Debug, PartialEq, Eq)]
pub struct ShellOutput {
    pub command: String,
    pub cwd: String,
    pub exit_code: i32,
    pub stdout: String,
    pub stderr: String,
}

/// The session of a context agrees with the context in its directory, its agent, its name
/// and its permissions, whichever they are.
pub proof fn law_a_selector_agrees_with_its_context(binding: ConversationBinding)
    ensures
        binding@.selector().cwd == binding.cwd@,
        binding@.selector().agent == binding.agent@,
        binding@.selector().session_name == opt_text(binding.session_name),
        binding@.selector().permission_mode == binding.permission_mode,
        <SessionSelector as FromSpec<&ConversationBinding>>::from_spec(&binding).cwd@
            == binding.cwd@,
        <SessionSelector as FromSpec<&ConversationBinding>>::from_spec(&binding).agent@
            == binding.agent@,
        opt_text(
            <SessionSelector as FromSpec<&ConversationBinding>>::from_spec(&binding).session_name,
        ) == opt_text(binding.session_name),
        <SessionSelector as FromSpec<&ConversationBinding>>::from_spec(&binding).permission_mode
            == binding.permission_mode,
{
}

/// A selector for another session differs in its name alone.
pub proof fn law_another_session_has_the_same_context(
    selector: SessionSelector,
    name: Option<String>,
    out: SessionSelector,
)
    requires
        call_ensures(SessionSelector::with_session_name, (&selector, name), out),
    ensures
        out.cwd@ == selector.cwd@,
        out.agent@ == selector.agent@,
        opt_text(out.session_name) == opt_text(name),
        out.permission_mode == selector.permission_mode,
{
}

/// The views of blocks are those of all blocks, in their order, and that of a text or a
/// document holds it whole.
pub proof fn law_every_block_is_seen(
    blocks: Seq<MessageBlock>,
    at: int,
    text: String,
    mime_type: String,
    file_name: String,
    source: BinarySource,
    extracted_text: Option<String>,
    bytes: Vec<u8>,
)
    requires
        0 <= at < blocks.len(),
    ensures
        block_views(blocks).len() == blocks.len(),
        block_views(blocks)[at] == blocks[at]@,
        (MessageBlock::Text { text })@ == (MessageBlockView::Text { text: text@ }),
        (MessageBlock::Document { mime_type, file_name, source, extracted_text })@ == (
        MessageBlockView::Document {
            mime_type: mime_type@,
            file_name: file_name@,
            source: source@,
            extracted_text: opt_text(extracted_text),
        }),
        BinarySource::Bytes(bytes)@ == BinarySourceView::Bytes(bytes@),
        BinarySource::LocalPath(file_name)@ == BinarySourceView::LocalPath(file_name@),
{
}

} // verus!
