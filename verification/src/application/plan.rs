//! What a request comes to: the context that it leaves, and what has to be done
//! for its reply.
use vstd::prelude::*;

use crate::application::calls::{Answer, Call, CallView};
use crate::application::command::{
    BotCommand, BotCommandView, SessionCommand, SessionCommandView,
};
use crate::application::render::{
    binding_text, context, help, help_text, history, history_text, session_list,
    session_list_text_on, session_record, session_record_text, session_summary,
    session_summary_text, shell_output, shell_output_text, status, status_text,
};
use crate::domain::{
    block_views, copy_blocks, text_reply, AgentReply, ConversationBinding,
    ConversationBindingView, MessageBlock, MessageBlockView, SessionSelector,
    SessionSelectorView, SessionSummary,
};
use crate::platform::{Platform, System};
use crate::support::{
    normalize_session_name, resolve_workspace_on, session_name, workspace_on,
};
use crate::text::chars::same_opt_text;
use crate::text::lines::join_two;
use crate::text::trim::{trim, trim_text};

verus! {

/// What has to be done for a reply.
pub enum Task {
    /// Nothing: the reply is known.
    Reply(AgentReply),
    /// The directory of the context has to be one.
    Enter,
    /// The call has to be made, where asked for on a session that is made sure of
    /// first.
    Ask { ensured: bool, call: Call },
}

/// A request that was understood.
pub struct Plan {
    /// The context that holds if all goes well.
    pub binding: ConversationBinding,
    pub task: Task,
}

pub enum TaskView {
    Reply(Seq<MessageBlockView>),
    Enter,
    Ask { ensured: bool, call: CallView },
}

pub struct PlanView {
    pub binding: ConversationBindingView,
    pub task: TaskView,
}

impl View for Task {
    type V = TaskView;

    open spec fn view(&self) -> TaskView {
        match self {
            Task::Reply(reply) => TaskView::Reply(reply@),
            Task::Enter => TaskView::Enter,
            Task::Ask { ensured, call } => TaskView::Ask { ensured: *ensured, call: call@ },
        }
    }
}

impl View for Plan {
    type V = PlanView;

    open spec fn view(&self) -> PlanView {
        PlanView { binding: self.binding@, task: self.task@ }
    }
}

/// A text is the reply.
pub open spec fn saying(binding: ConversationBindingView, text: Seq<char>) -> PlanView {
    PlanView { binding, task: TaskView::Reply(text_reply(text)) }
}

/// The answer to a call is the reply.
pub open spec fn asking(binding: ConversationBindingView, call: CallView) -> PlanView {
    PlanView { binding, task: TaskView::Ask { ensured: false, call } }
}

/// The answer to a call on a session that is made sure of is the reply.
pub open spec fn asking_ensured(binding: ConversationBindingView, call: CallView) -> PlanView {
    PlanView { binding, task: TaskView::Ask { ensured: true, call } }
}

/// What a prompt comes to: it goes to the session that the conversation is in.
pub open spec fn planned_prompt(
    binding: ConversationBindingView,
    blocks: Seq<MessageBlockView>,
) -> PlanView {
    asking_ensured(binding, CallView::Prompt { selector: binding.selector(), blocks })
}

/// What a command on sessions comes to.
pub open spec fn planned_session(
    binding: ConversationBindingView,
    command: SessionCommandView,
) -> PlanView {
    match command {
        SessionCommandView::New(name) => {
            let changed = ConversationBindingView { session_name: session_name(name), ..binding };
            asking(changed, CallView::NewSession(changed.selector()))
        },
        SessionCommandView::Use(name) => {
            let changed = ConversationBindingView { session_name: session_name(name), ..binding };
            asking(changed, CallView::EnsureSession(changed.selector()))
        },
        SessionCommandView::Show(name) => asking(
            binding,
            CallView::ShowSession(
                SessionSelectorView { session_name: session_name(name), ..binding.selector() },
            ),
        ),
        SessionCommandView::Close(name) => {
            let target = session_name(name);
            let changed = if target == binding.session_name {
                ConversationBindingView { session_name: None, ..binding }
            } else {
                binding
            };
            asking(
                changed,
                CallView::CloseSession(
                    SessionSelectorView { session_name: target, ..binding.selector() },
                ),
            )
        },
        SessionCommandView::List => asking(binding, CallView::ListSessions(binding.agent)),
        SessionCommandView::History(limit) => asking(
            binding,
            CallView::History { selector: binding.selector(), limit },
        ),
    }
}

/// What a command comes to.
pub open spec fn planned_command(
    platform: Platform,
    prefix: Seq<char>,
    binding: ConversationBindingView,
    command: BotCommandView,
) -> PlanView {
    let selector = binding.selector();
    match command {
        BotCommandView::Help => saying(binding, help(prefix)),
        BotCommandView::Pwd => saying(binding, context(binding)),
        BotCommandView::ChangeDirectory(raw) => PlanView {
            binding: ConversationBindingView {
                cwd: workspace_on(platform, binding.cwd, raw),
                ..binding
            },
            task: TaskView::Enter,
        },
        BotCommandView::Agent(agent) => {
            let changed = ConversationBindingView { agent: trim(agent), ..binding };
            saying(changed, context(changed))
        },
        BotCommandView::Permissions(permission_mode) => {
            let changed = ConversationBindingView { permission_mode, ..binding };
            saying(changed, context(changed))
        },
        BotCommandView::Session(command) => planned_session(binding, command),
        BotCommandView::Status => asking(binding, CallView::Status(selector)),
        BotCommandView::Mode(mode) => asking_ensured(
            binding,
            CallView::SetMode { selector, mode },
        ),
        BotCommandView::Model(model) => asking_ensured(
            binding,
            CallView::SetModel { selector, model },
        ),
        BotCommandView::Option { key, value } => asking_ensured(
            binding,
            CallView::SetOption { selector, key, value },
        ),
        BotCommandView::Prompt(text) => planned_prompt(binding, text_reply(text)),
        BotCommandView::Exec(text) => asking(
            binding,
            CallView::Exec { selector, blocks: text_reply(text) },
        ),
        BotCommandView::Shell(command) => asking(
            binding,
            CallView::Shell { cwd: binding.cwd, command },
        ),
        BotCommandView::Cancel => asking(binding, CallView::Cancel(selector)),
    }
}

/// A session that was made sure of, as the user reads of it.
pub open spec fn used_session(summary: SessionSummary) -> Seq<char> {
    session_summary(
        summary,
        if summary.created {
            "session 不存在，已创建"@
        } else {
            "已切换 session"@
        },
    )
}

/// The reply that an answer to a call is.
pub open spec fn answered(
    platform: Platform,
    call: CallView,
    binding: ConversationBindingView,
    answer: Answer,
) -> Seq<MessageBlockView> {
    match answer {
        Answer::Reply(reply) => reply@,
        Answer::Summary(summary) => text_reply(
            match call {
                CallView::NewSession(_) => session_summary(summary, "已创建新 session"@),
                CallView::CloseSession(_) => session_summary(summary, "已关闭 session"@),
                _ => used_session(summary),
            },
        ),
        Answer::Record(record) => text_reply(session_record(record)),
        Answer::Records(records) => text_reply(session_list(platform, records@, binding)),
        Answer::History(entries) => text_reply(history(entries@)),
        Answer::Status(answered) => text_reply(status(answered)),
        Answer::Cancelled(cancelled) => text_reply(
            if cancelled {
                "已请求取消当前任务。"@
            } else {
                "当前没有正在执行的任务。"@
            },
        ),
        Answer::Shell(output) => text_reply(shell_output(output)),
        _ => match call {
            CallView::SetMode { mode, .. } => text_reply("mode 已设置为 "@ + mode),
            CallView::SetModel { model, .. } => text_reply("model 已设置为 "@ + model),
            CallView::SetOption { key, value, .. } => text_reply(
                "已设置 "@ + key + "="@ + value,
            ),
            _ => seq![],
        },
    }
}

impl Plan {
    fn saying(binding: ConversationBinding, text: String) -> (out: Plan)
        ensures
            out@ == saying(binding@, text@),
    {
        Plan { binding, task: Task::Reply(AgentReply::from_text(text)) }
    }

    fn asking(binding: ConversationBinding, call: Call) -> (out: Plan)
        ensures
            out@ == asking(binding@, call@),
    {
        Plan { binding, task: Task::Ask { ensured: false, call } }
    }

    fn asking_ensured(binding: ConversationBinding, call: Call) -> (out: Plan)
        ensures
            out@ == asking_ensured(binding@, call@),
    {
        Plan { binding, task: Task::Ask { ensured: true, call } }
    }
}

/// The session that a conversation is in.
pub fn selector_for(binding: &ConversationBinding) -> (out: SessionSelector)
    ensures
        out@ == binding@.selector(),
{
    SessionSelector::from(binding)
}

/// One text as a run of blocks.
fn one_text(text: String) -> (out: Vec<MessageBlock>)
    ensures
        block_views(out@) == text_reply(text@),
{
    let mut out: Vec<MessageBlock> = Vec::new();
    let block = MessageBlock::Text { text };
    out.push(block);
    assert(block_views(out@) =~= seq![block@]);
    out
}

/// What a prompt comes to.
pub fn handle_prompt(binding: ConversationBinding, blocks: &[MessageBlock]) -> (out: Plan)
    ensures
        out@ == planned_prompt(binding@, block_views(blocks@)),
{
    let selector = selector_for(&binding);
    Plan::asking_ensured(binding, Call::Prompt { selector, blocks: copy_blocks(blocks) })
}

/// What a command on sessions comes to.
pub fn handle_session_command(binding: ConversationBinding, command: SessionCommand) -> (out: Plan)
    ensures
        out@ == planned_session(binding@, command@),
{
    match command {
        SessionCommand::New(name) => {
            let changed = ConversationBinding {
                session_name: normalize_session_name(name),
                ..binding
            };
            let selector = selector_for(&changed);
            Plan::asking(changed, Call::NewSession(selector))
        },
        SessionCommand::Use(name) => {
            let changed = ConversationBinding {
                session_name: normalize_session_name(name),
                ..binding
            };
            let selector = selector_for(&changed);
            Plan::asking(changed, Call::EnsureSession(selector))
        },
        SessionCommand::Show(name) => {
            let selector = selector_for(&binding).with_session_name(normalize_session_name(name));
            Plan::asking(binding, Call::ShowSession(selector))
        },
        SessionCommand::Close(name) => {
            let target = normalize_session_name(name);
            let current = same_opt_text(&target, &binding.session_name);
            let selector = selector_for(&binding).with_session_name(target);
            let changed = if current {
                ConversationBinding { session_name: None, ..binding }
            } else {
                binding
            };
            Plan::asking(changed, Call::CloseSession(selector))
        },
        SessionCommand::List => {
            let agent = binding.agent.clone();
            Plan::asking(binding, Call::ListSessions(agent))
        },
        SessionCommand::History(limit) => {
            let selector = selector_for(&binding);
            Plan::asking(binding, Call::History { selector, limit })
        },
    }
}

/// What a command comes to.
pub fn handle_command(
    system: System,
    prefix: &str,
    binding: ConversationBinding,
    command: BotCommand,
) -> (out: Plan)
    ensures
        out@ == planned_command(system.family(), prefix@, binding@, command@),
{
    let selector = selector_for(&binding);
    match command {
        BotCommand::Help => Plan::saying(binding, help_text(prefix)),
        BotCommand::Pwd => {
            let text = binding_text(&binding);
            Plan::saying(binding, text)
        },
        BotCommand::ChangeDirectory(raw_path) => {
            let resolved = resolve_workspace_on(
                system,
                binding.cwd.as_str(),
                raw_path.as_str(),
            );
            Plan {
                binding: ConversationBinding { cwd: resolved, ..binding },
                task: Task::Enter,
            }
        },
        BotCommand::Agent(agent) => {
            let changed = ConversationBinding { agent: trim_text(agent.as_str()), ..binding };
            let text = binding_text(&changed);
            Plan::saying(changed, text)
        },
        BotCommand::Permissions(permission_mode) => {
            let changed = ConversationBinding { permission_mode, ..binding };
            let text = binding_text(&changed);
            Plan::saying(changed, text)
        },
        BotCommand::Session(command) => handle_session_command(binding, command),
        BotCommand::Status => Plan::asking(binding, Call::Status(selector)),
        BotCommand::Mode(mode) => Plan::asking_ensured(binding, Call::SetMode { selector, mode }),
        BotCommand::Model(model) => Plan::asking_ensured(
            binding,
            Call::SetModel { selector, model },
        ),
        BotCommand::Option { key, value } => Plan::asking_ensured(
            binding,
            Call::SetOption { selector, key, value },
        ),
        BotCommand::Prompt(text) => {
            let blocks = one_text(text);
            handle_prompt(binding, blocks.as_slice())
        },
        BotCommand::Exec(text) => Plan::asking(
            binding,
            Call::Exec { selector, blocks: one_text(text) },
        ),
        BotCommand::Shell(command) => {
            let cwd = binding.cwd.clone();
            Plan::asking(binding, Call::Shell { cwd, command })
        },
        BotCommand::Cancel => Plan::asking(binding, Call::Cancel(selector)),
    }
}

/// The reply that an answer to a call is.
pub fn reply_to_answer(
    system: System,
    call: &Call,
    binding: &ConversationBinding,
    answer: Answer,
) -> (out: AgentReply)
    requires
        call@.accepts(answer),
        !(answer is Failed),
    ensures
        out@ == answered(system.family(), call@, binding@, answer),
{
    match answer {
        Answer::Reply(reply) => reply,
        Answer::Summary(summary) => {
            let action = match call {
                Call::NewSession(_) => "已创建新 session",
                Call::CloseSession(_) => "已关闭 session",
                _ => if summary.created {
                    "session 不存在，已创建"
                } else {
                    "已切换 session"
                },
            };
            AgentReply::from_text(session_summary_text(&summary, action))
        },
        Answer::Record(record) => AgentReply::from_text(session_record_text(&record)),
        Answer::Records(records) => AgentReply::from_text(
            session_list_text_on(system, records.as_slice(), binding),
        ),
        Answer::History(entries) => AgentReply::from_text(history_text(entries.as_slice())),
        Answer::Status(answered) => AgentReply::from_text(status_text(&answered)),
        Answer::Cancelled(cancelled) => AgentReply::from_text(
            if cancelled {
                "已请求取消当前任务。"
            } else {
                "当前没有正在执行的任务。"
            },
        ),
        Answer::Shell(output) => AgentReply::from_text(shell_output_text(&output)),
        _ => match call {
            Call::SetMode { selector: _, mode } => AgentReply::from_text(
                join_two("mode 已设置为 ", mode.as_str()),
            ),
            Call::SetModel { selector: _, model } => AgentReply::from_text(
                join_two("model 已设置为 ", model.as_str()),
            ),
            Call::SetOption { selector: _, key, value } => {
                let mut text = "已设置 ".to_owned();
                text.append(key.as_str());
                text.append("=");
                text.append(value.as_str());
                AgentReply::from_text(text)
            },
            _ => {
                let reply = AgentReply { blocks: Vec::new() };
                assert(reply@ =~= seq![]);
                reply
            },
        },
    }
}

} // verus!
