//! What commands on sessions and on agents lead to.
use vstd::prelude::*;

use crate::application::calls::{Answer, CallView};
use crate::application::command::{command, BotCommandView, SessionCommandView};
use crate::application::conversation_laws::{
    begun, carried_out, finds, found, is_prompt, kept_after, session_of,
};
use crate::application::render::{
    context, help, history, session_list, session_record, session_summary, status,
};
use crate::application::request_laws::{
    calls, course, law_a_prompt_goes_to_the_session_of_its_context, lemma_asked, lemma_ensured,
    lemma_said, telling,
};
use crate::application::service::{request, ServiceDefaults};
use crate::application::service_laws::stored;
use crate::domain::{ConversationBindingView, InboundMessageView, SessionSelectorView};
use crate::support::session_name;

verus! {

/// The help is the reply to who asks for it, and the context stays as it was found.
pub proof fn law_help_is_told(
    defaults: ServiceDefaults,
    message: InboundMessageView,
    answers: Seq<Answer>,
)
    requires
        carried_out(defaults, message, answers),
        request(defaults.command_prefix@, message.blocks) == Some(
            command(BotCommandView::Help),
        ),
    ensures
        ({
            let before = found(defaults, answers);
            let after = before;
            &&& stored(defaults, begun(message), answers) == seq![after]
            &&& calls(defaults, begun(message), answers) == course(
                defaults,
                message,
                answers,
                seq![],
                after,
                telling(help(defaults.command_prefix@)),
            )
        }),
{
    let before = found(defaults, answers);
    let after = before;
    lemma_said(defaults, message, answers, after, telling(help(defaults.command_prefix@)));
}

/// The context is the reply to who asks for it, and it stays as it was found.
pub proof fn law_the_context_is_told(
    defaults: ServiceDefaults,
    message: InboundMessageView,
    answers: Seq<Answer>,
)
    requires
        carried_out(defaults, message, answers),
        request(defaults.command_prefix@, message.blocks) == Some(
            command(BotCommandView::Pwd),
        ),
    ensures
        ({
            let before = found(defaults, answers);
            let after = before;
            &&& stored(defaults, begun(message), answers) == seq![after]
            &&& calls(defaults, begun(message), answers) == course(
                defaults,
                message,
                answers,
                seq![],
                after,
                telling(context(before)),
            )
        }),
{
    let before = found(defaults, answers);
    let after = before;
    lemma_said(defaults, message, answers, after, telling(context(before)));
}

/// A new session is begun under the name that was given, in the directory, by the agent
/// and with the permissions of the context, which is in that session from then on.
pub proof fn law_a_new_session_is_the_one_of_the_context(
    defaults: ServiceDefaults,
    message: InboundMessageView,
    answers: Seq<Answer>,
    name: Option<Seq<char>>,
)
    requires
        carried_out(defaults, message, answers),
        request(defaults.command_prefix@, message.blocks) == Some(
            command(BotCommandView::Session(SessionCommandView::New(name))),
        ),
    ensures
        answers[3] is Summary,
        ({
            let before = found(defaults, answers);
            let after = ConversationBindingView {
        cwd: before.cwd,
        agent: before.agent,
        session_name: session_name(name),
        permission_mode: before.permission_mode,
    };
            &&& stored(defaults, begun(message), answers) == seq![after]
            &&& calls(defaults, begun(message), answers) == course(
                defaults,
                message,
                answers,
                seq![CallView::NewSession(session_of(after))],
                after,
                telling(session_summary(answers[3]->Summary_0, "已创建新 session"@)),
            )
        }),
{
    let before = found(defaults, answers);
    let after = ConversationBindingView {
        cwd: before.cwd,
        agent: before.agent,
        session_name: session_name(name),
        permission_mode: before.permission_mode,
    };
    lemma_asked(
        defaults,
        message,
        answers,
        after,
        CallView::NewSession(session_of(after)),
    );
}

/// A session is changed to under the name that was given, in the directory, by the agent
/// and with the permissions of the context, which is in that session from then on.
pub proof fn law_a_session_that_is_used_is_the_one_of_the_context(
    defaults: ServiceDefaults,
    message: InboundMessageView,
    answers: Seq<Answer>,
    name: Option<Seq<char>>,
)
    requires
        carried_out(defaults, message, answers),
        request(defaults.command_prefix@, message.blocks) == Some(
            command(BotCommandView::Session(SessionCommandView::Use(name))),
        ),
    ensures
        answers[3] is Summary,
        ({
            let before = found(defaults, answers);
            let after = ConversationBindingView {
        cwd: before.cwd,
        agent: before.agent,
        session_name: session_name(name),
        permission_mode: before.permission_mode,
    };
            &&& stored(defaults, begun(message), answers) == seq![after]
            &&& calls(defaults, begun(message), answers) == course(
                defaults,
                message,
                answers,
                seq![CallView::EnsureSession(session_of(after))],
                after,
                telling(
                    session_summary(
                        answers[3]->Summary_0,
                        if answers[3]->Summary_0.created {
                            "session 不存在，已创建"@
                        } else {
                            "已切换 session"@
                        },
                    ),
                ),
            )
        }),
{
    let before = found(defaults, answers);
    let after = ConversationBindingView {
        cwd: before.cwd,
        agent: before.agent,
        session_name: session_name(name),
        permission_mode: before.permission_mode,
    };
    lemma_asked(
        defaults,
        message,
        answers,
        after,
        CallView::EnsureSession(session_of(after)),
    );
}

/// The session that is shown is the one with the name that was given, in the directory,
/// by the agent and with the permissions of the context, which stays as it was found.
pub proof fn law_a_session_is_shown_by_its_name(
    defaults: ServiceDefaults,
    message: InboundMessageView,
    answers: Seq<Answer>,
    name: Option<Seq<char>>,
)
    requires
        carried_out(defaults, message, answers),
        request(defaults.command_prefix@, message.blocks) == Some(
            command(BotCommandView::Session(SessionCommandView::Show(name))),
        ),
    ensures
        answers[3] is Record,
        ({
            let before = found(defaults, answers);
            let after = before;
            &&& stored(defaults, begun(message), answers) == seq![after]
            &&& calls(defaults, begun(message), answers) == course(
                defaults,
                message,
                answers,
                seq![CallView::ShowSession(SessionSelectorView {
            cwd: before.cwd,
            agent: before.agent,
            session_name: session_name(name),
            permission_mode: before.permission_mode,
        })],
                after,
                telling(session_record(answers[3]->Record_0)),
            )
        }),
{
    let before = found(defaults, answers);
    let after = before;
    lemma_asked(
        defaults,
        message,
        answers,
        after,
        CallView::ShowSession(SessionSelectorView {
            cwd: before.cwd,
            agent: before.agent,
            session_name: session_name(name),
            permission_mode: before.permission_mode,
        }),
    );
}

/// The session that is closed is the one with the name that was given, in the directory,
/// by the agent and with the permissions of the context. If the context is in that
/// session, it is in the default one from then on; if not, it stays as it was found.
pub proof fn law_a_session_is_closed_by_its_name(
    defaults: ServiceDefaults,
    message: InboundMessageView,
    answers: Seq<Answer>,
    name: Option<Seq<char>>,
)
    requires
        carried_out(defaults, message, answers),
        request(defaults.command_prefix@, message.blocks) == Some(
            command(BotCommandView::Session(SessionCommandView::Close(name))),
        ),
    ensures
        answers[3] is Summary,
        ({
            let before = found(defaults, answers);
            let after = ConversationBindingView {
        cwd: before.cwd,
        agent: before.agent,
        session_name: if before.session_name == session_name(name) {
            None
        } else {
            before.session_name
        },
        permission_mode: before.permission_mode,
    };
            &&& stored(defaults, begun(message), answers) == seq![after]
            &&& calls(defaults, begun(message), answers) == course(
                defaults,
                message,
                answers,
                seq![CallView::CloseSession(SessionSelectorView {
            cwd: before.cwd,
            agent: before.agent,
            session_name: session_name(name),
            permission_mode: before.permission_mode,
        })],
                after,
                telling(session_summary(answers[3]->Summary_0, "已关闭 session"@)),
            )
        }),
{
    let before = found(defaults, answers);
    let after = ConversationBindingView {
        cwd: before.cwd,
        agent: before.agent,
        session_name: if before.session_name == session_name(name) {
            None
        } else {
            before.session_name
        },
        permission_mode: before.permission_mode,
    };
    lemma_asked(
        defaults,
        message,
        answers,
        after,
        CallView::CloseSession(SessionSelectorView {
            cwd: before.cwd,
            agent: before.agent,
            session_name: session_name(name),
            permission_mode: before.permission_mode,
        }),
    );
}

/// The sessions that are listed are those of the context's agent.
pub proof fn law_the_sessions_of_the_agent_are_listed(
    defaults: ServiceDefaults,
    message: InboundMessageView,
    answers: Seq<Answer>,
)
    requires
        carried_out(defaults, message, answers),
        request(defaults.command_prefix@, message.blocks) == Some(
            command(BotCommandView::Session(SessionCommandView::List)),
        ),
    ensures
        answers[3] is Records,
        ({
            let before = found(defaults, answers);
            let after = before;
            &&& stored(defaults, begun(message), answers) == seq![after]
            &&& calls(defaults, begun(message), answers) == course(
                defaults,
                message,
                answers,
                seq![CallView::ListSessions(before.agent)],
                after,
                telling(
                    session_list(defaults.system.family(), answers[3]->Records_0@, before),
                ),
            )
        }),
{
    let before = found(defaults, answers);
    let after = before;
    lemma_asked(
        defaults,
        message,
        answers,
        after,
        CallView::ListSessions(before.agent),
    );
}

/// The history that is told is that of the context's session, of as many entries as were
/// asked for.
pub proof fn law_the_history_of_the_session_is_told(
    defaults: ServiceDefaults,
    message: InboundMessageView,
    answers: Seq<Answer>,
    limit: nat,
)
    requires
        carried_out(defaults, message, answers),
        request(defaults.command_prefix@, message.blocks) == Some(
            command(BotCommandView::Session(SessionCommandView::History(limit))),
        ),
    ensures
        answers[3] is History,
        ({
            let before = found(defaults, answers);
            let after = before;
            &&& stored(defaults, begun(message), answers) == seq![after]
            &&& calls(defaults, begun(message), answers) == course(
                defaults,
                message,
                answers,
                seq![CallView::History { selector: session_of(before), limit }],
                after,
                telling(history(answers[3]->History_0@)),
            )
        }),
{
    let before = found(defaults, answers);
    let after = before;
    lemma_asked(
        defaults,
        message,
        answers,
        after,
        CallView::History { selector: session_of(before), limit },
    );
}

/// The status that is told is that of the context's session.
pub proof fn law_the_status_of_the_session_is_told(
    defaults: ServiceDefaults,
    message: InboundMessageView,
    answers: Seq<Answer>,
)
    requires
        carried_out(defaults, message, answers),
        request(defaults.command_prefix@, message.blocks) == Some(
            command(BotCommandView::Status),
        ),
    ensures
        answers[3] is Status,
        ({
            let before = found(defaults, answers);
            let after = before;
            &&& stored(defaults, begun(message), answers) == seq![after]
            &&& calls(defaults, begun(message), answers) == course(
                defaults,
                message,
                answers,
                seq![CallView::Status(session_of(before))],
                after,
                telling(status(answers[3]->Status_0)),
            )
        }),
{
    let before = found(defaults, answers);
    let after = before;
    lemma_asked(
        defaults,
        message,
        answers,
        after,
        CallView::Status(session_of(before)),
    );
}

/// What is cancelled is the work of the context's session, and the reply says whether there
/// was any.
pub proof fn law_the_work_of_the_session_is_cancelled(
    defaults: ServiceDefaults,
    message: InboundMessageView,
    answers: Seq<Answer>,
)
    requires
        carried_out(defaults, message, answers),
        request(defaults.command_prefix@, message.blocks) == Some(
            command(BotCommandView::Cancel),
        ),
    ensures
        answers[3] is Cancelled,
        ({
            let before = found(defaults, answers);
            let after = before;
            &&& stored(defaults, begun(message), answers) == seq![after]
            &&& calls(defaults, begun(message), answers) == course(
                defaults,
                message,
                answers,
                seq![CallView::Cancel(session_of(before))],
                after,
                telling(
                    if answers[3]->Cancelled_0 {
                        "已请求取消当前任务。"@
                    } else {
                        "当前没有正在执行的任务。"@
                    },
                ),
            )
        }),
{
    let before = found(defaults, answers);
    let after = before;
    lemma_asked(
        defaults,
        message,
        answers,
        after,
        CallView::Cancel(session_of(before)),
    );
}

/// A mode is set as it was given on the context's session, which is made sure of first, and
/// the reply names it.
pub proof fn law_a_mode_is_set_on_the_session(
    defaults: ServiceDefaults,
    message: InboundMessageView,
    answers: Seq<Answer>,
    mode: Seq<char>,
)
    requires
        carried_out(defaults, message, answers),
        request(defaults.command_prefix@, message.blocks) == Some(
            command(BotCommandView::Mode(mode)),
        ),
    ensures
        answers[4] is Done,
        ({
            let before = found(defaults, answers);
            let after = before;
            &&& stored(defaults, begun(message), answers) == seq![after]
            &&& calls(defaults, begun(message), answers) == course(
                defaults,
                message,
                answers,
                seq![
                    CallView::EnsureSession(session_of(before)),
                    CallView::SetMode { selector: session_of(before), mode },
                ],
                after,
                telling("mode 已设置为 "@ + mode),
            )
        }),
{
    let before = found(defaults, answers);
    let after = before;
    lemma_ensured(
        defaults,
        message,
        answers,
        after,
        CallView::SetMode { selector: session_of(before), mode },
    );
}

/// A model is set as it was given on the context's session, which is made sure of first, and
/// the reply names it.
pub proof fn law_a_model_is_set_on_the_session(
    defaults: ServiceDefaults,
    message: InboundMessageView,
    answers: Seq<Answer>,
    model: Seq<char>,
)
    requires
        carried_out(defaults, message, answers),
        request(defaults.command_prefix@, message.blocks) == Some(
            command(BotCommandView::Model(model)),
        ),
    ensures
        answers[4] is Done,
        ({
            let before = found(defaults, answers);
            let after = before;
            &&& stored(defaults, begun(message), answers) == seq![after]
            &&& calls(defaults, begun(message), answers) == course(
                defaults,
                message,
                answers,
                seq![
                    CallView::EnsureSession(session_of(before)),
                    CallView::SetModel { selector: session_of(before), model },
                ],
                after,
                telling("model 已设置为 "@ + model),
            )
        }),
{
    let before = found(defaults, answers);
    let after = before;
    lemma_ensured(
        defaults,
        message,
        answers,
        after,
        CallView::SetModel { selector: session_of(before), model },
    );
}

/// An option is set as it was given on the context's session, which is made sure of first,
/// and the reply names it and its value.
pub proof fn law_an_option_is_set_on_the_session(
    defaults: ServiceDefaults,
    message: InboundMessageView,
    answers: Seq<Answer>,
    key: Seq<char>,
    value: Seq<char>,
)
    requires
        carried_out(defaults, message, answers),
        request(defaults.command_prefix@, message.blocks) == Some(
            command(BotCommandView::Option { key, value }),
        ),
    ensures
        answers[4] is Done,
        ({
            let before = found(defaults, answers);
            let after = before;
            &&& stored(defaults, begun(message), answers) == seq![after]
            &&& calls(defaults, begun(message), answers) == course(
                defaults,
                message,
                answers,
                seq![
                    CallView::EnsureSession(session_of(before)),
                    CallView::SetOption { selector: session_of(before), key, value },
                ],
                after,
                telling("已设置 "@ + key + "="@ + value),
            )
        }),
{
    let before = found(defaults, answers);
    let after = before;
    lemma_ensured(
        defaults,
        message,
        answers,
        after,
        CallView::SetOption { selector: session_of(before), key, value },
    );
}

/// After a session was begun or changed to, the next prompt goes to it; directory,
/// agent and permissions are those from before.
pub proof fn law_a_session_is_used_for_the_next_prompt(
    defaults: ServiceDefaults,
    kept: Map<Seq<char>, ConversationBindingView>,
    change: InboundMessageView,
    prompt: InboundMessageView,
    name: Option<Seq<char>>,
    first: Seq<Answer>,
    second: Seq<Answer>,
)
    requires
        prompt.conversation == change.conversation,
        ({
            let asked = request(defaults.command_prefix@, change.blocks);
            ||| asked == Some(command(BotCommandView::Session(SessionCommandView::New(name))))
            ||| asked == Some(command(BotCommandView::Session(SessionCommandView::Use(name))))
        }),
        is_prompt(defaults.command_prefix@, prompt.blocks),
        carried_out(defaults, change, first),
        carried_out(defaults, prompt, second),
        finds(kept_after(kept, defaults, change, first), prompt, second),
    ensures
        ({
            let before = found(defaults, first);
            let selector = SessionSelectorView {
                cwd: before.cwd,
                agent: before.agent,
                session_name: session_name(name),
                permission_mode: before.permission_mode,
            };
            calls(defaults, begun(prompt), second).subrange(3, 5) == seq![
                CallView::EnsureSession(selector),
                CallView::Prompt { selector, blocks: prompt.blocks },
            ]
        }),
{
    if request(defaults.command_prefix@, change.blocks) == Some(
        command(BotCommandView::Session(SessionCommandView::New(name))),
    ) {
        law_a_new_session_is_the_one_of_the_context(defaults, change, first, name);
    } else {
        law_a_session_that_is_used_is_the_one_of_the_context(defaults, change, first, name);
    }
    law_a_prompt_goes_to_the_session_of_its_context(defaults, prompt, second);
    let selector = session_of(found(defaults, second));
    assert(calls(defaults, begun(prompt), second).subrange(3, 5) =~= seq![
        CallView::EnsureSession(selector),
        CallView::Prompt { selector, blocks: prompt.blocks },
    ]);
}

} // verus!
