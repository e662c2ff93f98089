//! What the service asks of the world around it, and what it is answered.
use vstd::prelude::*;

use crate::domain::{
    block_views, copy_blocks, AgentReply, ConversationBinding, ConversationBindingView,
    ConversationKey, ConversationKeyView, MessageBlock, MessageBlockView, ReplyTarget,
    ReplyTargetView, SessionHistoryEntry, SessionRecord, SessionSelector, SessionSelectorView,
    SessionStatus, SessionSummary, ShellOutput,
};
use crate::error::BridgeError;

verus! {

/// Something that the service needs done.
pub enum Call {
    /// Show the sender that their message is being worked on.
    ReactTyping(ReplyTarget),
    /// Fetch what is stored of a conversation's context.
    LoadBinding(ConversationKey),
    /// See what a path leads to.
    InspectPath(String),
    EnsureSession(SessionSelector),
    NewSession(SessionSelector),
    CloseSession(SessionSelector),
    ShowSession(SessionSelector),
    /// List the sessions of an agent.
    ListSessions(String),
    History { selector: SessionSelector, limit: usize },
    Status(SessionSelector),
    Prompt { selector: SessionSelector, blocks: Vec<MessageBlock> },
    Exec { selector: SessionSelector, blocks: Vec<MessageBlock> },
    SetMode { selector: SessionSelector, mode: String },
    SetModel { selector: SessionSelector, model: String },
    SetOption { selector: SessionSelector, key: String, value: String },
    Cancel(SessionSelector),
    Shell { cwd: String, command: String },
    /// Store a conversation's context.
    StoreBinding { key: ConversationKey, binding: ConversationBinding },
    SendMessage { target: ReplyTarget, blocks: Vec<MessageBlock> },
}

pub enum CallView {
    ReactTyping(ReplyTargetView),
    LoadBinding(ConversationKeyView),
    InspectPath(Seq<char>),
    EnsureSession(SessionSelectorView),
    NewSession(SessionSelectorView),
    CloseSession(SessionSelectorView),
    ShowSession(SessionSelectorView),
    ListSessions(Seq<char>),
    History { selector: SessionSelectorView, limit: nat },
    Status(SessionSelectorView),
    Prompt { selector: SessionSelectorView, blocks: Seq<MessageBlockView> },
    Exec { selector: SessionSelectorView, blocks: Seq<MessageBlockView> },
    SetMode { selector: SessionSelectorView, mode: Seq<char> },
    SetModel { selector: SessionSelectorView, model: Seq<char> },
    SetOption { selector: SessionSelectorView, key: Seq<char>, value: Seq<char> },
    Cancel(SessionSelectorView),
    Shell { cwd: Seq<char>, command: Seq<char> },
    StoreBinding { key: ConversationKeyView, binding: ConversationBindingView },
    SendMessage { target: ReplyTargetView, blocks: Seq<MessageBlockView> },
}

impl View for Call {
    type V = CallView;

    open spec fn view(&self) -> CallView {
        match self {
            Call::ReactTyping(target) => CallView::ReactTyping(target@),
            Call::LoadBinding(key) => CallView::LoadBinding(key@),
            Call::InspectPath(path) => CallView::InspectPath(path@),
            Call::EnsureSession(selector) => CallView::EnsureSession(selector@),
            Call::NewSession(selector) => CallView::NewSession(selector@),
            Call::CloseSession(selector) => CallView::CloseSession(selector@),
            Call::ShowSession(selector) => CallView::ShowSession(selector@),
            Call::ListSessions(agent) => CallView::ListSessions(agent@),
            Call::History { selector, limit } => CallView::History {
                selector: selector@,
                limit: *limit as nat,
            },
            Call::Status(selector) => CallView::Status(selector@),
            Call::Prompt { selector, blocks } => CallView::Prompt {
                selector: selector@,
                blocks: block_views(blocks@),
            },
            Call::Exec { selector, blocks } => CallView::Exec {
                selector: selector@,
                blocks: block_views(blocks@),
            },
            Call::SetMode { selector, mode } => CallView::SetMode {
                selector: selector@,
                mode: mode@,
            },
            Call::SetModel { selector, model } => CallView::SetModel {
                selector: selector@,
                model: model@,
            },
            Call::SetOption { selector, key, value } => CallView::SetOption {
                selector: selector@,
                key: key@,
                value: value@,
            },
            Call::Cancel(selector) => CallView::Cancel(selector@),
            Call::Shell { cwd, command } => CallView::Shell { cwd: cwd@, command: command@ },
            Call::StoreBinding { key, binding } => CallView::StoreBinding {
                key: key@,
                binding: binding@,
            },
            Call::SendMessage { target, blocks } => CallView::SendMessage {
                target: target@,
                blocks: block_views(blocks@),
            },
        }
    }
}

impl Clone for Call {
    fn clone(&self) -> (out: Self)
        ensures
            out@ == self@,
    {
        match self {
            Call::ReactTyping(target) => Call::ReactTyping(target.clone()),
            Call::LoadBinding(key) => Call::LoadBinding(key.clone()),
            Call::InspectPath(path) => Call::InspectPath(path.clone()),
            Call::EnsureSession(selector) => Call::EnsureSession(selector.clone()),
            Call::NewSession(selector) => Call::NewSession(selector.clone()),
            Call::CloseSession(selector) => Call::CloseSession(selector.clone()),
            Call::ShowSession(selector) => Call::ShowSession(selector.clone()),
            Call::ListSessions(agent) => Call::ListSessions(agent.clone()),
            Call::History { selector, limit } => Call::History {
                selector: selector.clone(),
                limit: *limit,
            },
            Call::Status(selector) => Call::Status(selector.clone()),
            Call::Prompt { selector, blocks } => Call::Prompt {
                selector: selector.clone(),
                blocks: copy_blocks(blocks.as_slice()),
            },
            Call::Exec { selector, blocks } => Call::Exec {
                selector: selector.clone(),
                blocks: copy_blocks(blocks.as_slice()),
            },
            Call::SetMode { selector, mode } => Call::SetMode {
                selector: selector.clone(),
                mode: mode.clone(),
            },
            Call::SetModel { selector, model } => Call::SetModel {
                selector: selector.clone(),
                model: model.clone(),
            },
            Call::SetOption { selector, key, value } => Call::SetOption {
                selector: selector.clone(),
                key: key.clone(),
                value: value.clone(),
            },
            Call::Cancel(selector) => Call::Cancel(selector.clone()),
            Call::Shell { cwd, command } => Call::Shell {
                cwd: cwd.clone(),
                command: command.clone(),
            },
            Call::StoreBinding { key, binding } => Call::StoreBinding {
                key: key.clone(),
                binding: binding.clone(),
            },
            Call::SendMessage { target, blocks } => Call::SendMessage {
                target: target.clone(),
                blocks: copy_blocks(blocks.as_slice()),
            },
        }
    }
}

/// What a path leads to.
#[derive(Clone, Copy, Debug, PartialEq, Eq, Structural)]
pub enum PathKind {
    Missing,
    Directory,
    Other,
}

/// What came of a call.
pub enum Answer {
    /// It was done, and there is nothing to say of it.
    Done,
    Binding(Option<ConversationBinding>),
    Path(PathKind),
    Summary(SessionSummary),
    Record(SessionRecord),
    Records(Vec<SessionRecord>),
    History(Vec<SessionHistoryEntry>),
    Status(SessionStatus),
    Reply(AgentReply),
    Cancelled(bool),
    Shell(ShellOutput),
    /// It could not be done.
    Failed(BridgeError),
}

impl CallView {
    /// The answer is one that the call can come to.
    pub open spec fn accepts(self, answer: Answer) -> bool {
        match self {
            CallView::InspectPath(_) => answer is Path,
            CallView::ReactTyping(_) => answer is Done || answer is Failed,
            CallView::LoadBinding(_) => answer is Binding || answer is Failed,
            CallView::EnsureSession(_) => answer is Summary || answer is Failed,
            CallView::NewSession(_) => answer is Summary || answer is Failed,
            CallView::CloseSession(_) => answer is Summary || answer is Failed,
            CallView::ShowSession(_) => answer is Record || answer is Failed,
            CallView::ListSessions(_) => answer is Records || answer is Failed,
            CallView::History { .. } => answer is History || answer is Failed,
            CallView::Status(_) => answer is Status || answer is Failed,
            CallView::Prompt { .. } => answer is Reply || answer is Failed,
            CallView::Exec { .. } => answer is Reply || answer is Failed,
            CallView::SetMode { .. } => answer is Done || answer is Failed,
            CallView::SetModel { .. } => answer is Done || answer is Failed,
            CallView::SetOption { .. } => answer is Done || answer is Failed,
            CallView::Cancel(_) => answer is Cancelled || answer is Failed,
            CallView::Shell { .. } => answer is Shell || answer is Failed,
            CallView::StoreBinding { .. } => answer is Done || answer is Failed,
            CallView::SendMessage { .. } => answer is Done || answer is Failed,
        }
    }
}

} // verus!
