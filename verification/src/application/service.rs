//! How a message is handled, from its arrival to the reply.
//!
//! An [`Interaction`] is always at one stage. The stage says which call comes
//! next; its answer leads to the next stage.
use vstd::prelude::*;

use crate::application::calls::{Answer, Call, CallView, PathKind};
use crate::application::command::{
    asked, parse_user_request, Asked, BotCommand, SessionCommand, UserRequest, UserRequestView,
};
use crate::application::metrics::{
    InteractionMetrics, InteractionMetricsSnapshot, InteractionSample,
};
use crate::application::outgoing::{expand_reply_blocks, sent_blocks};
use crate::application::plan::{
    answered, handle_command, handle_prompt, planned_command, planned_prompt, reply_to_answer,
    selector_for, Plan, PlanView, Task, TaskView,
};
use crate::application::render::{binding_text, context};
use crate::domain::{
    block_views, text_reply, AgentReply, ConversationBinding, ConversationBindingView,
    InboundMessage, InboundMessageView, MessageBlock, MessageBlockView, PermissionMode,
};
use crate::error::{BridgeError, BridgeErrorView};
use crate::platform::System;

verus! {

/// What holds for conversations of which nothing else is known.
#[derive(Debug)]
pub struct ServiceDefaults {
    /// The system, whose syntax paths have.
    pub system: System,
    pub command_prefix: String,
    pub default_workspace: String,
    pub default_agent: String,
    pub default_permission_mode: PermissionMode,
    pub reply_chunk_chars: usize,
}

impl Clone for ServiceDefaults {
    fn clone(&self) -> (out: Self)
        ensures
            out == *self,
    {
        ServiceDefaults {
            system: self.system,
            command_prefix: self.command_prefix.clone(),
            default_workspace: self.default_workspace.clone(),
            default_agent: self.default_agent.clone(),
            default_permission_mode: self.default_permission_mode,
            reply_chunk_chars: self.reply_chunk_chars,
        }
    }
}

impl ServiceDefaults {
    /// The context of a conversation of which none is stored.
    pub open spec fn binding(self) -> ConversationBindingView {
        ConversationBindingView {
            cwd: self.default_workspace@,
            agent: self.default_agent@,
            session_name: None,
            permission_mode: self.default_permission_mode,
        }
    }
}

/// Where an interaction stands.
pub enum Stage {
    /// The sender is to be shown that their message is being worked on.
    Typing,
    /// The context is to be fetched.
    Loading,
    /// The directory of the context is to be looked at.
    Checking { binding: ConversationBinding },
    /// The directory that the context is to change to is to be looked at.
    Entering { binding: ConversationBinding },
    /// The session is to be made sure of, then the call is to be made.
    Ensuring { binding: ConversationBinding, call: Call },
    /// The call is to be made.
    Asking { binding: ConversationBinding, call: Call },
    /// The context is to be stored.
    Storing { binding: ConversationBinding, reply: AgentReply },
    /// The reply is to be sent.
    Replying { process_ok: bool, reply: AgentReply },
    /// All is done.
    Finished { process_ok: bool, failure: Option<BridgeError> },
}

pub enum StageView {
    Typing,
    Loading,
    Checking { binding: ConversationBindingView },
    Entering { binding: ConversationBindingView },
    Ensuring { binding: ConversationBindingView, call: CallView },
    Asking { binding: ConversationBindingView, call: CallView },
    Storing { binding: ConversationBindingView, reply: Seq<MessageBlockView> },
    Replying { process_ok: bool, reply: Seq<MessageBlockView> },
    Finished { process_ok: bool, failure: Option<BridgeErrorView> },
}

impl View for Stage {
    type V = StageView;

    open spec fn view(&self) -> StageView {
        match self {
            Stage::Typing => StageView::Typing,
            Stage::Loading => StageView::Loading,
            Stage::Checking { binding } => StageView::Checking { binding: binding@ },
            Stage::Entering { binding } => StageView::Entering { binding: binding@ },
            Stage::Ensuring { binding, call } => StageView::Ensuring {
                binding: binding@,
                call: call@,
            },
            Stage::Asking { binding, call } => StageView::Asking {
                binding: binding@,
                call: call@,
            },
            Stage::Storing { binding, reply } => StageView::Storing {
                binding: binding@,
                reply: reply@,
            },
            Stage::Replying { process_ok, reply } => StageView::Replying {
                process_ok: *process_ok,
                reply: reply@,
            },
            Stage::Finished { process_ok, failure } => StageView::Finished {
                process_ok: *process_ok,
                failure: match failure {
                    Some(error) => Some(error@),
                    None => None,
                },
            },
        }
    }
}

/// The handling of one message.
pub struct Interaction {
    pub message: InboundMessage,
    pub typing_reaction_ok: bool,
    pub stage: Stage,
}

pub struct InteractionView {
    pub message: InboundMessageView,
    pub typing_reaction_ok: bool,
    pub stage: StageView,
}

impl View for Interaction {
    type V = InteractionView;

    open spec fn view(&self) -> InteractionView {
        InteractionView {
            message: self.message@,
            typing_reaction_ok: self.typing_reaction_ok,
            stage: self.stage@,
        }
    }
}

/// The first text among the blocks.
pub open spec fn first_text(blocks: Seq<MessageBlockView>) -> Option<Seq<char>>
    decreases blocks.len(),
{
    if blocks.len() == 0 {
        None
    } else {
        match blocks.first() {
            MessageBlockView::Text { text } => Some(text),
            _ => first_text(blocks.drop_first()),
        }
    }
}

/// What the blocks ask for: what their first text does, if there is one.
pub open spec fn request(prefix: Seq<char>, blocks: Seq<MessageBlockView>) -> Option<Asked> {
    match first_text(blocks) {
        Some(text) => Some(asked(prefix, text)),
        None => None,
    }
}

/// The user is told of an error.
pub open spec fn refused(error: BridgeErrorView) -> StageView {
    StageView::Replying { process_ok: false, reply: text_reply(error.user_text()) }
}

/// A plan is begun.
pub open spec fn started(plan: PlanView) -> StageView {
    let binding = plan.binding;
    match plan.task {
        TaskView::Reply(reply) => StageView::Storing { binding, reply },
        TaskView::Enter => StageView::Entering { binding },
        TaskView::Ask { ensured, call } => if ensured {
            StageView::Ensuring { binding, call }
        } else {
            StageView::Asking { binding, call }
        },
    }
}

/// What blocks lead to in a context.
pub open spec fn processed(
    defaults: ServiceDefaults,
    blocks: Seq<MessageBlockView>,
    binding: ConversationBindingView,
) -> StageView {
    match request(defaults.command_prefix@, blocks) {
        Some(Err(error)) => refused(error),
        Some(Ok(UserRequestView::Command(command))) => started(
            planned_command(
                defaults.system.family(),
                defaults.command_prefix@,
                binding,
                command,
            ),
        ),
        _ => started(planned_prompt(binding, blocks)),
    }
}

/// The context, in the default directory unless its own is one.
pub open spec fn settled(
    defaults: ServiceDefaults,
    binding: ConversationBindingView,
    kind: PathKind,
) -> ConversationBindingView {
    if kind is Directory {
        binding
    } else {
        ConversationBindingView { cwd: defaults.default_workspace@, ..binding }
    }
}

/// The call that comes next.
pub open spec fn awaited(defaults: ServiceDefaults, it: InteractionView) -> Option<CallView> {
    match it.stage {
        StageView::Typing => Some(CallView::ReactTyping(it.message.reply_target)),
        StageView::Loading => Some(CallView::LoadBinding(it.message.conversation)),
        StageView::Checking { binding } => Some(CallView::InspectPath(binding.cwd)),
        StageView::Entering { binding } => Some(CallView::InspectPath(binding.cwd)),
        StageView::Ensuring { binding, .. } => Some(CallView::EnsureSession(binding.selector())),
        StageView::Asking { call, .. } => Some(call),
        StageView::Storing { binding, .. } => Some(
            CallView::StoreBinding { key: it.message.conversation, binding },
        ),
        StageView::Replying { reply, .. } => Some(
            CallView::SendMessage {
                target: it.message.reply_target,
                blocks: sent_blocks(reply, defaults.reply_chunk_chars as nat),
            },
        ),
        StageView::Finished { .. } => None,
    }
}

/// The answer can be had at this stage.
pub open spec fn fitting(defaults: ServiceDefaults, it: InteractionView, answer: Answer) -> bool {
    awaited(defaults, it) matches Some(call) && call.accepts(answer)
}

/// The stage that an answer leads to.
pub open spec fn next_stage(
    defaults: ServiceDefaults,
    it: InteractionView,
    answer: Answer,
) -> StageView {
    match it.stage {
        StageView::Typing => StageView::Loading,
        StageView::Loading => match answer {
            Answer::Failed(error) => refused(error@),
            Answer::Binding(Some(binding)) => StageView::Checking { binding: binding@ },
            _ => StageView::Checking { binding: defaults.binding() },
        },
        StageView::Checking { binding } => {
            let kind = answer->Path_0;
            processed(defaults, it.message.blocks, settled(defaults, binding, kind))
        },
        StageView::Entering { binding } => match answer->Path_0 {
            PathKind::Missing => refused(BridgeErrorView::WorkspaceNotFound(binding.cwd)),
            PathKind::Other => refused(BridgeErrorView::NotDirectory(binding.cwd)),
            PathKind::Directory => StageView::Storing {
                binding,
                reply: text_reply(context(binding)),
            },
        },
        StageView::Ensuring { binding, call } => match answer {
            Answer::Failed(error) => refused(error@),
            _ => StageView::Asking { binding, call },
        },
        StageView::Asking { binding, call } => match answer {
            Answer::Failed(error) => refused(error@),
            _ => StageView::Storing { binding, reply: answered(defaults.system.family(), call, binding, answer) },
        },
        StageView::Storing { binding, reply } => match answer {
            Answer::Failed(error) => refused(error@),
            _ => StageView::Replying { process_ok: true, reply },
        },
        StageView::Replying { process_ok, .. } => StageView::Finished {
            process_ok,
            failure: match answer {
                Answer::Failed(error) => Some(error@),
                _ => None,
            },
        },
        StageView::Finished { process_ok, failure } => StageView::Finished { process_ok, failure },
    }
}

/// The interaction after an answer. Whether the sender could be shown that their
/// message is being worked on is kept; it decides nothing.
pub open spec fn next(
    defaults: ServiceDefaults,
    it: InteractionView,
    answer: Answer,
) -> InteractionView {
    InteractionView {
        message: it.message,
        typing_reaction_ok: if it.stage is Typing {
            !(answer is Failed)
        } else {
            it.typing_reaction_ok
        },
        stage: next_stage(defaults, it, answer),
    }
}

/// The rules by which messages are handled, and the count of how it went.
pub struct BridgeService {
    pub defaults: ServiceDefaults,
    pub metrics: InteractionMetrics,
}

impl BridgeService {
    pub fn new(defaults: ServiceDefaults) -> (out: Self)
        ensures
            out.defaults == defaults,
            out.metrics == InteractionMetrics::none(),
    {
        BridgeService { defaults, metrics: InteractionMetrics::new() }
    }

    /// Begins the handling of a message.
    pub fn handle_message(&self, message: InboundMessage) -> (out: Interaction)
        ensures
            out@ == (InteractionView {
                message: message@,
                typing_reaction_ok: false,
                stage: StageView::Typing,
            }),
    {
        Interaction { message, typing_reaction_ok: false, stage: Stage::Typing }
    }

    /// The call that comes next.
    pub fn pending(&self, it: &Interaction) -> (out: Option<Call>)
        ensures
            match out {
                Some(call) => awaited(self.defaults, it@) == Some(call@),
                None => awaited(self.defaults, it@) is None,
            },
    {
        match &it.stage {
            Stage::Typing => Some(Call::ReactTyping(it.message.reply_target.clone())),
            Stage::Loading => Some(Call::LoadBinding(it.message.conversation.clone())),
            Stage::Checking { binding } => Some(Call::InspectPath(binding.cwd.clone())),
            Stage::Entering { binding } => Some(Call::InspectPath(binding.cwd.clone())),
            Stage::Ensuring { binding, call: _ } => Some(
                Call::EnsureSession(selector_for(binding)),
            ),
            Stage::Asking { binding: _, call } => Some(call.clone()),
            Stage::Storing { binding, reply: _ } => Some(
                Call::StoreBinding {
                    key: it.message.conversation.clone(),
                    binding: binding.clone(),
                },
            ),
            Stage::Replying { process_ok: _, reply } => Some(
                Call::SendMessage {
                    target: it.message.reply_target.clone(),
                    blocks: self.send_response(reply),
                },
            ),
            Stage::Finished { process_ok: _, failure: _ } => None,
        }
    }

    /// Takes the answer to the pending call.
    pub fn advance(&self, it: Interaction, answer: Answer) -> (out: Interaction)
        requires
            fitting(self.defaults, it@, answer),
        ensures
            out@ == next(self.defaults, it@, answer),
    {
        let Interaction { message, typing_reaction_ok, stage } = it;
        match stage {
            Stage::Typing => {
                let reacted = match answer {
                    Answer::Failed(_) => false,
                    _ => true,
                };
                Interaction { message, typing_reaction_ok: reacted, stage: Stage::Loading }
            },
            Stage::Loading => {
                let stage = match answer {
                    Answer::Failed(error) => refuse(error),
                    Answer::Binding(loaded) => Stage::Checking {
                        binding: self.load_binding(loaded),
                    },
                    _ => Stage::Checking { binding: self.load_binding(None) },
                };
                Interaction { message, typing_reaction_ok, stage }
            },
            Stage::Checking { binding } => {
                let usable = match answer {
                    Answer::Path(PathKind::Directory) => true,
                    _ => false,
                };
                let settled = if usable {
                    binding
                } else {
                    ConversationBinding { cwd: self.defaults.default_workspace.clone(), ..binding }
                };
                let stage = self.process_message(message.blocks.as_slice(), settled);
                Interaction { message, typing_reaction_ok, stage }
            },
            Stage::Entering { binding } => {
                let stage = match answer {
                    Answer::Path(PathKind::Directory) => {
                        let reply = AgentReply::from_text(binding_text(&binding));
                        Stage::Storing { binding, reply }
                    },
                    Answer::Path(PathKind::Missing) => refuse(
                        BridgeError::WorkspaceNotFound(binding.cwd),
                    ),
                    _ => refuse(BridgeError::NotDirectory(binding.cwd)),
                };
                Interaction { message, typing_reaction_ok, stage }
            },
            Stage::Ensuring { binding, call } => {
                let stage = match answer {
                    Answer::Failed(error) => refuse(error),
                    _ => Stage::Asking { binding, call },
                };
                Interaction { message, typing_reaction_ok, stage }
            },
            Stage::Asking { binding, call } => {
                let stage = match answer {
                    Answer::Failed(error) => refuse(error),
                    other => {
                        let reply = reply_to_answer(self.defaults.system, &call, &binding, other);
                        Stage::Storing { binding, reply }
                    },
                };
                Interaction { message, typing_reaction_ok, stage }
            },
            Stage::Storing { binding: _, reply } => {
                let stage = match answer {
                    Answer::Failed(error) => refuse(error),
                    _ => Stage::Replying { process_ok: true, reply },
                };
                Interaction { message, typing_reaction_ok, stage }
            },
            Stage::Replying { process_ok, reply: _ } => {
                let failure = match answer {
                    Answer::Failed(error) => Some(error),
                    _ => None,
                };
                Interaction {
                    message,
                    typing_reaction_ok,
                    stage: Stage::Finished { process_ok, failure },
                }
            },
            Stage::Finished { process_ok, failure } => Interaction {
                message,
                typing_reaction_ok,
                stage: Stage::Finished { process_ok, failure },
            },
        }
    }

    /// The context that was stored, or else the default one.
    fn load_binding(&self, loaded: Option<ConversationBinding>) -> (out: ConversationBinding)
        ensures
            out@ == (match loaded {
                Some(binding) => binding@,
                None => self.defaults.binding(),
            }),
    {
        match loaded {
            Some(binding) => binding,
            None => ConversationBinding {
                cwd: self.defaults.default_workspace.clone(),
                agent: self.defaults.default_agent.clone(),
                session_name: None,
                permission_mode: self.defaults.default_permission_mode,
            },
        }
    }

    /// What blocks lead to in a context.
    fn process_message(&self, blocks: &[MessageBlock], binding: ConversationBinding) -> (out: Stage)
        ensures
            out@ == processed(self.defaults, block_views(blocks@), binding@),
    {
        let parsed = match find_text(blocks) {
            Some(text) => parse_user_request(self.defaults.command_prefix.as_str(), text),
            None => {
                return start(handle_prompt(binding, blocks));
            },
        };
        match parsed {
            Err(error) => refuse(error),
            Ok(UserRequest::Command(command)) => start(
                handle_command(
                    self.defaults.system,
                    self.defaults.command_prefix.as_str(),
                    binding,
                    command,
                ),
            ),
            Ok(UserRequest::Prompt(_)) => start(handle_prompt(binding, blocks)),
        }
    }

    /// What is sent of a reply.
    fn send_response(&self, reply: &AgentReply) -> (out: Vec<MessageBlock>)
        ensures
            block_views(out@) == sent_blocks(reply@, self.defaults.reply_chunk_chars as nat),
    {
        expand_reply_blocks(reply.blocks.as_slice(), self.defaults.reply_chunk_chars)
    }

    /// Counts an interaction that is finished, and says how it ended.
    pub fn finish(
        &mut self,
        it: Interaction,
        typing_reaction_ms: u64,
        processing_ms: u64,
        reply_ms: u64,
        total_ms: u64,
    ) -> (out: (InteractionMetricsSnapshot, Result<(), BridgeError>))
        requires
            it.stage is Finished,
        ensures
            final(self).defaults == old(self).defaults,
            final(self).metrics == old(self).metrics.with(
                finished_sample(it, typing_reaction_ms, processing_ms, reply_ms, total_ms),
            ),
            out.0 == final(self).metrics.totals(),
            out.1 == (match it.stage {
                Stage::Finished { failure: Some(error), .. } => Err::<(), BridgeError>(error),
                _ => Ok::<(), BridgeError>(()),
            }),
    {
        let typing_reaction_ok = it.typing_reaction_ok;
        let (process_ok, failure) = match it.stage {
            Stage::Finished { process_ok, failure } => (process_ok, failure),
            _ => (false, None),
        };
        let snapshot = self.metrics.record(
            InteractionSample {
                typing_reaction_ok,
                process_ok,
                reply_ok: failure.is_none(),
                typing_reaction_ms,
                processing_ms,
                reply_ms,
                total_ms,
            },
        );
        match failure {
            Some(error) => (snapshot, Err(error)),
            None => (snapshot, Ok(())),
        }
    }
}

/// What is counted of an interaction that is finished.
pub open spec fn finished_sample(
    it: Interaction,
    typing_reaction_ms: u64,
    processing_ms: u64,
    reply_ms: u64,
    total_ms: u64,
) -> InteractionSample {
    InteractionSample {
        typing_reaction_ok: it.typing_reaction_ok,
        process_ok: it.stage matches Stage::Finished { process_ok, .. } && process_ok,
        reply_ok: !(it.stage matches Stage::Finished { failure: Some(_), .. }),
        typing_reaction_ms,
        processing_ms,
        reply_ms,
        total_ms,
    }
}

/// The user is told of an error.
fn refuse(error: BridgeError) -> (out: Stage)
    ensures
        out@ == refused(error@),
{
    Stage::Replying { process_ok: false, reply: AgentReply::from_text(error.user_message()) }
}

/// A plan is begun.
fn start(plan: Plan) -> (out: Stage)
    ensures
        out@ == started(plan@),
{
    let Plan { binding, task } = plan;
    match task {
        Task::Reply(reply) => Stage::Storing { binding, reply },
        Task::Enter => Stage::Entering { binding },
        Task::Ask { ensured, call } => if ensured {
            Stage::Ensuring { binding, call }
        } else {
            Stage::Asking { binding, call }
        },
    }
}

/// The first text among the blocks.
fn find_text(blocks: &[MessageBlock]) -> (out: Option<&str>)
    ensures
        match out {
            Some(text) => first_text(block_views(blocks@)) == Some(text@),
            None => first_text(block_views(blocks@)) is None,
        },
{
    let ghost all = block_views(blocks@);
    let mut i: usize = 0;
    assert(all.skip(0) =~= all);
    while i < blocks.len()
        invariant
            i <= blocks@.len(),
            all == block_views(blocks@),
            first_text(all) == first_text(all.skip(i as int)),
        decreases blocks@.len() - i,
    {
        assert(all.skip(i as int).first() == blocks@[i as int]@);
        assert(all.skip(i as int).drop_first() =~= all.skip(i + 1));
        if let Some(text) = blocks[i].as_text() {
            return Some(text);
        }
        i += 1;
    }
    None
}

/// What a request is, in a word.
pub fn request_kind(request: Option<&UserRequest>) -> (out: &'static str)
    ensures
        out@ == (match request {
            Some(UserRequest::Command(command)) => name_of(*command),
            _ => "prompt"@,
        }),
{
    match request {
        Some(UserRequest::Command(command)) => command_name(command),
        _ => "prompt",
    }
}

/// A command, in a word.
pub open spec fn name_of(command: BotCommand) -> Seq<char> {
    match command {
        BotCommand::Help => "help"@,
        BotCommand::Pwd => "pwd"@,
        BotCommand::ChangeDirectory(_) => "cd"@,
        BotCommand::Agent(_) => "agent"@,
        BotCommand::Permissions(_) => "permissions"@,
        BotCommand::Session(SessionCommand::New(_)) => "session-new"@,
        BotCommand::Session(SessionCommand::Use(_)) => "session-use"@,
        BotCommand::Session(SessionCommand::Show(_)) => "session-show"@,
        BotCommand::Session(SessionCommand::Close(_)) => "session-close"@,
        BotCommand::Session(SessionCommand::List) => "session-list"@,
        BotCommand::Session(SessionCommand::History(_)) => "session-history"@,
        BotCommand::Status => "status"@,
        BotCommand::Mode(_) => "mode"@,
        BotCommand::Model(_) => "model"@,
        BotCommand::Option { .. } => "set"@,
        BotCommand::Prompt(_) => "prompt-command"@,
        BotCommand::Exec(_) => "exec"@,
        BotCommand::Shell(_) => "shell"@,
        BotCommand::Cancel => "cancel"@,
    }
}

/// A command, in a word.
pub fn command_name(command: &BotCommand) -> (out: &'static str)
    ensures
        out@ == name_of(*command),
{
    match command {
        BotCommand::Help => "help",
        BotCommand::Pwd => "pwd",
        BotCommand::ChangeDirectory(_) => "cd",
        BotCommand::Agent(_) => "agent",
        BotCommand::Permissions(_) => "permissions",
        BotCommand::Session(SessionCommand::New(_)) => "session-new",
        BotCommand::Session(SessionCommand::Use(_)) => "session-use",
        BotCommand::Session(SessionCommand::Show(_)) => "session-show",
        BotCommand::Session(SessionCommand::Close(_)) => "session-close",
        BotCommand::Session(SessionCommand::List) => "session-list",
        BotCommand::Session(SessionCommand::History(_)) => "session-history",
        BotCommand::Status => "status",
        BotCommand::Mode(_) => "mode",
        BotCommand::Model(_) => "model",
        BotCommand::Option { .. } => "set",
        BotCommand::Prompt(_) => "prompt-command",
        BotCommand::Exec(_) => "exec",
        BotCommand::Shell(_) => "shell",
        BotCommand::Cancel => "cancel",
    }
}

} // verus!
