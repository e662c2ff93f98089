//! What each request leads to, from its first call to its last.
use vstd::prelude::*;

use crate::application::calls::{Answer, CallView, PathKind};
use crate::application::command::{clean_input, command, BotCommand, BotCommandView};
use crate::application::command_laws::law_the_rest_is_taken_as_it_is;
use crate::application::conversation_laws::{
    begun, carried_out, finds, found, is_prompt, kept_after, lemma_processed, lemma_refused,
    lemma_step, lemma_storing, session_of, work,
};
use crate::application::outgoing::sent_blocks;
use crate::application::plan::{answered, handle_command, Plan, PlanView, TaskView};
use crate::application::render::{context, shell_output};
use crate::application::service::{
    awaited, next, processed, request, InteractionView, ServiceDefaults, StageView,
};
use crate::application::service_laws::{fitting_run, handed_out, run, stored};
use crate::domain::{
    ConversationBinding, ConversationBindingView, InboundMessageView, MessageBlockView,
    PermissionMode, SessionSelectorView,
};
use crate::platform::System;
use crate::support::workspace_on;
use crate::text::chars::{opt_text, white_space};
use crate::text::search::starts_with;
use crate::text::trim::{tight, trim, Trimmed};

verus! {

/// The calls in the course of a run.
pub open spec fn calls(
    defaults: ServiceDefaults,
    it: InteractionView,
    answers: Seq<Answer>,
) -> Seq<CallView>
    decreases answers.len(),
{
    if answers.len() == 0 {
        seq![]
    } else {
        seq![awaited(defaults, it)->Some_0] + calls(
            defaults,
            next(defaults, it, answers.first()),
            answers.drop_first(),
        )
    }
}

/// One block of text.
pub open spec fn telling(text: Seq<char>) -> Seq<MessageBlockView> {
    seq![MessageBlockView::Text { text }]
}

/// The calls with which the handling of a message begins: the sender is shown that
/// it is being worked on, the context is fetched, and its directory is looked at.
pub open spec fn opening(
    defaults: ServiceDefaults,
    message: InboundMessageView,
    answers: Seq<Answer>,
) -> Seq<CallView> {
    seq![
        CallView::ReactTyping(message.reply_target),
        CallView::LoadBinding(message.conversation),
        CallView::InspectPath(
            match answers[1] {
                Answer::Binding(Some(binding)) => binding.cwd@,
                _ => defaults.default_workspace@,
            },
        ),
    ]
}

/// The calls in the course of a request that is carried out: those at the
/// beginning, those that the request asks for, and at the end the context is
/// stored and the reply is sent.
pub open spec fn course(
    defaults: ServiceDefaults,
    message: InboundMessageView,
    answers: Seq<Answer>,
    asked: Seq<CallView>,
    binding: ConversationBindingView,
    reply: Seq<MessageBlockView>,
) -> Seq<CallView> {
    opening(defaults, message, answers) + asked + seq![
        CallView::StoreBinding { key: message.conversation, binding },
        CallView::SendMessage {
            target: message.reply_target,
            blocks: sent_blocks(reply, defaults.reply_chunk_chars as nat),
        },
    ]
}

proof fn lemma_replying(defaults: ServiceDefaults, it: InteractionView, answers: Seq<Answer>)
    requires
        fitting_run(defaults, it, answers),
        run(defaults, it, answers).stage is Finished,
        it.stage is Replying,
    ensures
        calls(defaults, it, answers) =~= seq![
            CallView::SendMessage {
                target: it.message.reply_target,
                blocks: sent_blocks(it.stage->Replying_reply, defaults.reply_chunk_chars as nat),
            },
        ],
{
    lemma_refused(defaults, it, answers);
    let then = next(defaults, it, answers.first());
    assert(calls(defaults, then, answers.drop_first()) =~= Seq::<CallView>::empty());
}

proof fn lemma_ending(defaults: ServiceDefaults, it: InteractionView, answers: Seq<Answer>)
    requires
        fitting_run(defaults, it, answers),
        run(defaults, it, answers).stage is Finished,
        run(defaults, it, answers).stage->Finished_process_ok,
        it.stage is Storing,
    ensures
        calls(defaults, it, answers) =~= seq![
            CallView::StoreBinding {
                key: it.message.conversation,
                binding: it.stage->Storing_binding,
            },
            CallView::SendMessage {
                target: it.message.reply_target,
                blocks: sent_blocks(it.stage->Storing_reply, defaults.reply_chunk_chars as nat),
            },
        ],
{
    lemma_step(defaults, it, answers);
    let then = next(defaults, it, answers.first());
    if answers.first() is Failed {
        lemma_refused(defaults, then, answers.drop_first());
    }
    lemma_replying(defaults, then, answers.drop_first());
}

/// The first three calls and those behind them.
pub proof fn lemma_opening(
    defaults: ServiceDefaults,
    message: InboundMessageView,
    answers: Seq<Answer>,
) -> (it: InteractionView)
    requires
        carried_out(defaults, message, answers),
    ensures
        answers.len() > 3,
        it.message == message,
        it.stage == processed(defaults, message.blocks, found(defaults, answers)),
        fitting_run(defaults, it, answers.skip(3)),
        run(defaults, it, answers.skip(3)) == run(defaults, begun(message), answers),
        stored(defaults, it, answers.skip(3)) == stored(defaults, begun(message), answers),
        work(defaults, it, answers.skip(3)) == work(defaults, begun(message), answers),
        handed_out(defaults, it, answers.skip(3)) == handed_out(defaults, begun(message), answers),
        calls(defaults, begun(message), answers) =~= opening(defaults, message, answers) + calls(
            defaults,
            it,
            answers.skip(3),
        ),
{
    let last = lemma_processed(defaults, message, answers);
    let zero = begun(message);
    lemma_step(defaults, zero, answers);
    let one = next(defaults, zero, answers[0]);
    let behind_one = answers.drop_first();
    lemma_step(defaults, one, behind_one);
    assert(behind_one.first() == answers[1]);
    let two = next(defaults, one, answers[1]);
    let behind_two = behind_one.drop_first();
    if answers[1] is Failed {
        lemma_refused(defaults, two, behind_two);
    }
    lemma_step(defaults, two, behind_two);
    assert(behind_two.first() == answers[2]);
    let three = next(defaults, two, answers[2]);
    let behind_three = behind_two.drop_first();
    assert(behind_three =~= answers.skip(3));
    assert(three.stage == last.stage);
    assert(calls(defaults, two, behind_two) == seq![awaited(defaults, two)->Some_0] + calls(
        defaults,
        three,
        behind_three,
    ));
    assert(calls(defaults, one, behind_one) == seq![awaited(defaults, one)->Some_0] + calls(
        defaults,
        two,
        behind_two,
    ));
    assert(calls(defaults, zero, answers) == seq![awaited(defaults, zero)->Some_0] + calls(
        defaults,
        one,
        behind_one,
    ));
    assert(calls(defaults, zero, answers) =~= opening(defaults, message, answers) + calls(
        defaults,
        three,
        answers.skip(3),
    ));
    lemma_step(defaults, three, behind_three);
    three
}

/// The reply is known at once.
pub proof fn lemma_said(
    defaults: ServiceDefaults,
    message: InboundMessageView,
    answers: Seq<Answer>,
    binding: ConversationBindingView,
    reply: Seq<MessageBlockView>,
)
    requires
        carried_out(defaults, message, answers),
        processed(defaults, message.blocks, found(defaults, answers)) == (StageView::Storing {
            binding,
            reply,
        }),
    ensures
        calls(defaults, begun(message), answers) == course(
            defaults,
            message,
            answers,
            seq![],
            binding,
            reply,
        ),
        stored(defaults, begun(message), answers) == seq![binding],
        work(defaults, begun(message), answers) == Seq::<CallView>::empty(),
{
    let it = lemma_opening(defaults, message, answers);
    lemma_ending(defaults, it, answers.skip(3));
    lemma_storing(defaults, it, answers.skip(3));
    assert(calls(defaults, begun(message), answers) =~= course(
        defaults,
        message,
        answers,
        seq![],
        binding,
        reply,
    ));
}

/// The reply is the answer to a call.
pub proof fn lemma_asked(
    defaults: ServiceDefaults,
    message: InboundMessageView,
    answers: Seq<Answer>,
    binding: ConversationBindingView,
    call: CallView,
)
    requires
        carried_out(defaults, message, answers),
        processed(defaults, message.blocks, found(defaults, answers)) == (StageView::Asking {
            binding,
            call,
        }),
        !(call is StoreBinding),
        !(call is SendMessage),
    ensures
        call.accepts(answers[3]),
        !(answers[3] is Failed),
        calls(defaults, begun(message), answers) == course(
            defaults,
            message,
            answers,
            seq![call],
            binding,
            answered(defaults.system.family(), call, binding, answers[3]),
        ),
        stored(defaults, begun(message), answers) == seq![binding],
{
    let it = lemma_opening(defaults, message, answers);
    let rest = answers.skip(3);
    assert(rest.first() == answers[3]);
    lemma_step(defaults, it, rest);
    let then = next(defaults, it, rest.first());
    if rest.first() is Failed {
        lemma_refused(defaults, then, rest.drop_first());
    }
    lemma_ending(defaults, then, rest.drop_first());
    lemma_storing(defaults, then, rest.drop_first());
    assert(calls(defaults, it, rest) == seq![call] + calls(defaults, then, rest.drop_first()));
    let reply = answered(defaults.system.family(), call, binding, answers[3]);
    assert(calls(defaults, begun(message), answers) =~= course(
        defaults,
        message,
        answers,
        seq![call],
        binding,
        reply,
    ));
}

/// The reply is the answer to a call on a session that is made sure of.
pub proof fn lemma_ensured(
    defaults: ServiceDefaults,
    message: InboundMessageView,
    answers: Seq<Answer>,
    binding: ConversationBindingView,
    call: CallView,
)
    requires
        carried_out(defaults, message, answers),
        processed(defaults, message.blocks, found(defaults, answers)) == (StageView::Ensuring {
            binding,
            call,
        }),
        !(call is StoreBinding),
        !(call is SendMessage),
    ensures
        answers.len() > 4,
        call.accepts(answers[4]),
        !(answers[4] is Failed),
        calls(defaults, begun(message), answers) == course(
            defaults,
            message,
            answers,
            seq![CallView::EnsureSession(session_of(binding)), call],
            binding,
            answered(defaults.system.family(), call, binding, answers[4]),
        ),
        stored(defaults, begun(message), answers) == seq![binding],
{
    let it = lemma_opening(defaults, message, answers);
    let rest = answers.skip(3);
    lemma_step(defaults, it, rest);
    let then = next(defaults, it, rest.first());
    let behind = rest.drop_first();
    if rest.first() is Failed {
        lemma_refused(defaults, then, behind);
    }
    lemma_step(defaults, then, behind);
    assert(behind.first() == answers[4]);
    let last = next(defaults, then, behind.first());
    let end = behind.drop_first();
    if behind.first() is Failed {
        lemma_refused(defaults, last, end);
    }
    lemma_ending(defaults, last, end);
    lemma_storing(defaults, last, end);
    let ensure = CallView::EnsureSession(session_of(binding));
    assert(calls(defaults, then, behind) == seq![call] + calls(defaults, last, end));
    assert(calls(defaults, it, rest) == seq![ensure] + calls(defaults, then, behind));
    let reply = answered(defaults.system.family(), call, binding, answers[4]);
    assert(calls(defaults, begun(message), answers) =~= course(
        defaults,
        message,
        answers,
        seq![ensure, call],
        binding,
        reply,
    ));
}

/// A prompt that is carried out goes, block for block, to the session of the context
/// that it finds, which is made sure of first. That session agrees with the context
/// in its directory, its agent, its name and its permissions. The agent's reply is
/// what is sent, and the context stays as it was found.
pub proof fn law_a_prompt_goes_to_the_session_of_its_context(
    defaults: ServiceDefaults,
    message: InboundMessageView,
    answers: Seq<Answer>,
)
    requires
        carried_out(defaults, message, answers),
        is_prompt(defaults.command_prefix@, message.blocks),
    ensures
        answers[4] is Reply,
        ({
            let binding = found(defaults, answers);
            let selector = SessionSelectorView {
                cwd: binding.cwd,
                agent: binding.agent,
                session_name: binding.session_name,
                permission_mode: binding.permission_mode,
            };
            calls(defaults, begun(message), answers) == course(
                defaults,
                message,
                answers,
                seq![
                    CallView::EnsureSession(selector),
                    CallView::Prompt { selector, blocks: message.blocks },
                ],
                binding,
                answers[4]->Reply_0@,
            )
        }),
{
    let binding = found(defaults, answers);
    lemma_ensured(
        defaults,
        message,
        answers,
        binding,
        CallView::Prompt { selector: session_of(binding), blocks: message.blocks },
    );
}

/// A text that is to be a prompt, whatever it looks like, goes to the session of the
/// context as one block, unchanged.
pub proof fn law_a_spelled_out_prompt_goes_to_the_session_of_its_context(
    defaults: ServiceDefaults,
    message: InboundMessageView,
    answers: Seq<Answer>,
    text: Seq<char>,
)
    requires
        carried_out(defaults, message, answers),
        request(defaults.command_prefix@, message.blocks) == Some(
            command(BotCommandView::Prompt(text)),
        ),
    ensures
        answers[4] is Reply,
        ({
            let binding = found(defaults, answers);
            let selector = session_of(binding);
            calls(defaults, begun(message), answers) == course(
                defaults,
                message,
                answers,
                seq![
                    CallView::EnsureSession(selector),
                    CallView::Prompt { selector, blocks: telling(text) },
                ],
                binding,
                answers[4]->Reply_0@,
            )
        }),
{
    let binding = found(defaults, answers);
    lemma_ensured(
        defaults,
        message,
        answers,
        binding,
        CallView::Prompt { selector: session_of(binding), blocks: telling(text) },
    );
}

/// A text that is to be worked on outside of any session is handed over unchanged,
/// in one call that is not preceded by another to the agent.
pub proof fn law_a_single_prompt_is_handed_over_whole(
    defaults: ServiceDefaults,
    message: InboundMessageView,
    answers: Seq<Answer>,
    text: Seq<char>,
)
    requires
        carried_out(defaults, message, answers),
        request(defaults.command_prefix@, message.blocks) == Some(
            command(BotCommandView::Exec(text)),
        ),
    ensures
        answers[3] is Reply,
        ({
            let binding = found(defaults, answers);
            calls(defaults, begun(message), answers) == course(
                defaults,
                message,
                answers,
                seq![CallView::Exec { selector: session_of(binding), blocks: telling(text) }],
                binding,
                answers[3]->Reply_0@,
            )
        }),
{
    let binding = found(defaults, answers);
    lemma_asked(
        defaults,
        message,
        answers,
        binding,
        CallView::Exec { selector: session_of(binding), blocks: telling(text) },
    );
}

/// A command for the shell is run as it was given, in the directory of the context
/// that the message finds. Nothing else is asked of an agent or of the shell, and
/// what the command put out is the reply.
pub proof fn law_a_shell_command_is_run_in_the_directory_of_the_context(
    defaults: ServiceDefaults,
    message: InboundMessageView,
    answers: Seq<Answer>,
    line: Seq<char>,
)
    requires
        carried_out(defaults, message, answers),
        request(defaults.command_prefix@, message.blocks) == Some(
            command(BotCommandView::Shell(line)),
        ),
    ensures
        answers[3] is Shell,
        ({
            let binding = found(defaults, answers);
            let call = CallView::Shell { cwd: binding.cwd, command: line };
            &&& work(defaults, begun(message), answers) == seq![call]
            &&& calls(defaults, begun(message), answers) == course(
                defaults,
                message,
                answers,
                seq![call],
                binding,
                telling(shell_output(answers[3]->Shell_0)),
            )
        }),
{
    let binding = found(defaults, answers);
    let call = CallView::Shell { cwd: binding.cwd, command: line };
    lemma_asked(defaults, message, answers, binding, call);
    let it = lemma_opening(defaults, message, answers);
    let rest = answers.skip(3);
    lemma_step(defaults, it, rest);
    let then = next(defaults, it, rest.first());
    lemma_storing(defaults, then, rest.drop_first());
    assert(work(defaults, begun(message), answers) =~= seq![call]);
}

/// A command for the shell is run in the directory that was changed to before.
pub proof fn law_a_shell_command_is_run_where_was_changed_to(
    defaults: ServiceDefaults,
    kept: Map<Seq<char>, ConversationBindingView>,
    change: InboundMessageView,
    shell: InboundMessageView,
    raw: Seq<char>,
    line: Seq<char>,
    first: Seq<Answer>,
    second: Seq<Answer>,
)
    requires
        shell.conversation == change.conversation,
        request(defaults.command_prefix@, change.blocks) == Some(
            command(BotCommandView::ChangeDirectory(raw)),
        ),
        request(defaults.command_prefix@, shell.blocks) == Some(
            command(BotCommandView::Shell(line)),
        ),
        carried_out(defaults, change, first),
        carried_out(defaults, shell, second),
        finds(kept_after(kept, defaults, change, first), shell, second),
    ensures
        work(defaults, begun(shell), second) == seq![
            CallView::Shell {
                cwd: workspace_on(defaults.system.family(), found(defaults, first).cwd, raw),
                command: line,
            },
        ],
{
    law_a_change_of_directory_changes_nothing_else(defaults, change, first, raw);
    law_a_shell_command_is_run_in_the_directory_of_the_context(defaults, shell, second, line);
}

/// A change of directory looks at the directory that is meant and stores the context
/// with it; what else the context holds stays. The reply tells the new context.
pub proof fn law_a_change_of_directory_changes_nothing_else(
    defaults: ServiceDefaults,
    message: InboundMessageView,
    answers: Seq<Answer>,
    raw: Seq<char>,
)
    requires
        carried_out(defaults, message, answers),
        request(defaults.command_prefix@, message.blocks) == Some(
            command(BotCommandView::ChangeDirectory(raw)),
        ),
    ensures
        answers[3] == Answer::Path(PathKind::Directory),
        ({
            let before = found(defaults, answers);
            let after = ConversationBindingView {
                cwd: workspace_on(defaults.system.family(), before.cwd, raw),
                agent: before.agent,
                session_name: before.session_name,
                permission_mode: before.permission_mode,
            };
            &&& stored(defaults, begun(message), answers) == seq![after]
            &&& calls(defaults, begun(message), answers) == course(
                defaults,
                message,
                answers,
                seq![CallView::InspectPath(after.cwd)],
                after,
                telling(context(after)),
            )
        }),
{
    let before = found(defaults, answers);
    let after = ConversationBindingView {
        cwd: workspace_on(defaults.system.family(), before.cwd, raw),
        ..before
    };
    let it = lemma_opening(defaults, message, answers);
    let rest = answers.skip(3);
    assert(rest.first() == answers[3]);
    assert(it.stage == (StageView::Entering { binding: after }));
    lemma_step(defaults, it, rest);
    let then = next(defaults, it, rest.first());
    if then.stage is Replying {
        lemma_refused(defaults, then, rest.drop_first());
    }
    lemma_ending(defaults, then, rest.drop_first());
    lemma_storing(defaults, then, rest.drop_first());
    assert(calls(defaults, it, rest) == seq![CallView::InspectPath(after.cwd)] + calls(
        defaults,
        then,
        rest.drop_first(),
    ));
    assert(calls(defaults, begun(message), answers) =~= course(
        defaults,
        message,
        answers,
        seq![CallView::InspectPath(after.cwd)],
        after,
        telling(context(after)),
    ));
}

/// A change of permissions stores the context with the permissions that were named;
/// what else the context holds stays, nothing is asked of an agent, and the reply
/// tells the new context.
pub proof fn law_a_change_of_permissions_changes_nothing_else(
    defaults: ServiceDefaults,
    message: InboundMessageView,
    answers: Seq<Answer>,
    mode: PermissionMode,
)
    requires
        carried_out(defaults, message, answers),
        request(defaults.command_prefix@, message.blocks) == Some(
            command(BotCommandView::Permissions(mode)),
        ),
    ensures
        ({
            let before = found(defaults, answers);
            let after = ConversationBindingView {
                cwd: before.cwd,
                agent: before.agent,
                session_name: before.session_name,
                permission_mode: mode,
            };
            &&& stored(defaults, begun(message), answers) == seq![after]
            &&& work(defaults, begun(message), answers) == Seq::<CallView>::empty()
            &&& calls(defaults, begun(message), answers) == course(
                defaults,
                message,
                answers,
                seq![],
                after,
                telling(context(after)),
            )
        }),
{
    let after = ConversationBindingView {
        permission_mode: mode,
        ..found(defaults, answers)
    };
    lemma_said(defaults, message, answers, after, telling(context(after)));
}

/// A change of agent stores the context with the agent that was named, without white
/// space around its name; what else the context holds stays, nothing is asked of an
/// agent, and the reply tells the new context.
pub proof fn law_a_change_of_agent_changes_nothing_else(
    defaults: ServiceDefaults,
    message: InboundMessageView,
    answers: Seq<Answer>,
    agent: Seq<char>,
)
    requires
        carried_out(defaults, message, answers),
        request(defaults.command_prefix@, message.blocks) == Some(
            command(BotCommandView::Agent(agent)),
        ),
    ensures
        ({
            let before = found(defaults, answers);
            let after = ConversationBindingView {
                cwd: before.cwd,
                agent: trim(agent),
                session_name: before.session_name,
                permission_mode: before.permission_mode,
            };
            &&& stored(defaults, begun(message), answers) == seq![after]
            &&& work(defaults, begun(message), answers) == Seq::<CallView>::empty()
            &&& calls(defaults, begun(message), answers) == course(
                defaults,
                message,
                answers,
                seq![],
                after,
                telling(context(after)),
            )
        }),
{
    let after = ConversationBindingView { agent: trim(agent), ..found(defaults, answers) };
    lemma_said(defaults, message, answers, after, telling(context(after)));
}

/// After a change of permissions the next prompt goes to a session with just those
/// permissions; directory, agent and name of the session are those from before.
pub proof fn law_permissions_hold_for_the_next_prompt(
    defaults: ServiceDefaults,
    kept: Map<Seq<char>, ConversationBindingView>,
    change: InboundMessageView,
    prompt: InboundMessageView,
    mode: PermissionMode,
    first: Seq<Answer>,
    second: Seq<Answer>,
)
    requires
        prompt.conversation == change.conversation,
        request(defaults.command_prefix@, change.blocks) == Some(
            command(BotCommandView::Permissions(mode)),
        ),
        is_prompt(defaults.command_prefix@, prompt.blocks),
        carried_out(defaults, change, first),
        carried_out(defaults, prompt, second),
        finds(kept_after(kept, defaults, change, first), prompt, second),
    ensures
        ({
            let before = found(defaults, first);
            let selector = SessionSelectorView {
                cwd: before.cwd,
                agent: before.agent,
                session_name: before.session_name,
                permission_mode: mode,
            };
            calls(defaults, begun(prompt), second).subrange(3, 5) == seq![
                CallView::EnsureSession(selector),
                CallView::Prompt { selector, blocks: prompt.blocks },
            ]
        }),
{
    law_a_change_of_permissions_changes_nothing_else(defaults, change, first, mode);
    law_a_prompt_goes_to_the_session_of_its_context(defaults, prompt, second);
    let selector = session_of(found(defaults, second));
    assert(calls(defaults, begun(prompt), second).subrange(3, 5) =~= seq![
        CallView::EnsureSession(selector),
        CallView::Prompt { selector, blocks: prompt.blocks },
    ]);
}

/// After a change of agent the next prompt goes to a session of that agent;
/// directory, name and permissions of the session are those from before.
pub proof fn law_an_agent_is_used_for_the_next_prompt(
    defaults: ServiceDefaults,
    kept: Map<Seq<char>, ConversationBindingView>,
    change: InboundMessageView,
    prompt: InboundMessageView,
    agent: Seq<char>,
    first: Seq<Answer>,
    second: Seq<Answer>,
)
    requires
        prompt.conversation == change.conversation,
        request(defaults.command_prefix@, change.blocks) == Some(
            command(BotCommandView::Agent(agent)),
        ),
        is_prompt(defaults.command_prefix@, prompt.blocks),
        carried_out(defaults, change, first),
        carried_out(defaults, prompt, second),
        finds(kept_after(kept, defaults, change, first), prompt, second),
    ensures
        ({
            let before = found(defaults, first);
            let selector = SessionSelectorView {
                cwd: before.cwd,
                agent: trim(agent),
                session_name: before.session_name,
                permission_mode: before.permission_mode,
            };
            calls(defaults, begun(prompt), second).subrange(3, 5) == seq![
                CallView::EnsureSession(selector),
                CallView::Prompt { selector, blocks: prompt.blocks },
            ]
        }),
{
    law_a_change_of_agent_changes_nothing_else(defaults, change, first, agent);
    law_a_prompt_goes_to_the_session_of_its_context(defaults, prompt, second);
    let selector = session_of(found(defaults, second));
    assert(calls(defaults, begun(prompt), second).subrange(3, 5) =~= seq![
        CallView::EnsureSession(selector),
        CallView::Prompt { selector, blocks: prompt.blocks },
    ]);
}

/// A command for the shell that is typed behind the prefix is run as it was typed, in the
/// directory of the context that the message finds, and nothing else is asked of an agent
/// or of the shell.
pub proof fn law_a_typed_shell_command_is_run_as_it_is(
    defaults: ServiceDefaults,
    message: InboundMessageView,
    answers: Seq<Answer>,
    line: Seq<char>,
)
    requires
        defaults.command_prefix@.len() > 0,
        !white_space(defaults.command_prefix@.first()),
        clean_input(defaults.command_prefix@),
        clean_input(line),
        line.len() > 0,
        tight(line, Trimmed::WhiteSpace),
        message.blocks == seq![
            MessageBlockView::Text {
                text: defaults.command_prefix@ + "shell"@ + " "@ + line,
            },
        ],
        carried_out(defaults, message, answers),
    ensures
        work(defaults, begun(message), answers) == seq![
            CallView::Shell { cwd: found(defaults, answers).cwd, command: line },
        ],
{
    law_the_rest_is_taken_as_it_is(defaults.command_prefix@, line);
    law_a_shell_command_is_run_in_the_directory_of_the_context(defaults, message, answers, line);
}

/// A prompt that is typed, be it one line or many and however long, goes as it was typed to
/// the session of the context that the message finds.
pub proof fn law_a_typed_prompt_goes_out_as_it_is(
    defaults: ServiceDefaults,
    message: InboundMessageView,
    answers: Seq<Answer>,
    text: Seq<char>,
)
    requires
        clean_input(text),
        !starts_with(trim(text), defaults.command_prefix@),
        message.blocks == seq![MessageBlockView::Text { text }],
        carried_out(defaults, message, answers),
    ensures
        ({
            let binding = found(defaults, answers);
            let selector = SessionSelectorView {
                cwd: binding.cwd,
                agent: binding.agent,
                session_name: binding.session_name,
                permission_mode: binding.permission_mode,
            };
            calls(defaults, begun(message), answers).subrange(3, 5) == seq![
                CallView::EnsureSession(selector),
                CallView::Prompt { selector, blocks: seq![MessageBlockView::Text { text }] },
            ]
        }),
{
    law_a_prompt_goes_to_the_session_of_its_context(defaults, message, answers);
    let selector = session_of(found(defaults, answers));
    assert(calls(defaults, begun(message), answers).subrange(3, 5) =~= seq![
        CallView::EnsureSession(selector),
        CallView::Prompt { selector, blocks: message.blocks },
    ]);
}

/// What has to be done for a command on the session of a context, or for the shell, is one
/// call in which the context and what was typed stand unchanged; commands that change
/// something on a session have it made sure of first. The context stays.
pub proof fn law_commands_are_planned_in_their_context(
    system: System,
    prefix: &str,
    binding: ConversationBinding,
    text: String,
    value: String,
    shell: Plan,
    exec: Plan,
    prompt: Plan,
    mode: Plan,
    model: Plan,
    option: Plan,
    status: Plan,
    cancel: Plan,
)
    requires
        call_ensures(handle_command, (system, prefix, binding, BotCommand::Shell(text)), shell),
        call_ensures(handle_command, (system, prefix, binding, BotCommand::Exec(text)), exec),
        call_ensures(handle_command, (system, prefix, binding, BotCommand::Prompt(text)), prompt),
        call_ensures(handle_command, (system, prefix, binding, BotCommand::Mode(text)), mode),
        call_ensures(handle_command, (system, prefix, binding, BotCommand::Model(text)), model),
        call_ensures(
            handle_command,
            (system, prefix, binding, BotCommand::Option { key: text, value }),
            option,
        ),
        call_ensures(handle_command, (system, prefix, binding, BotCommand::Status), status),
        call_ensures(handle_command, (system, prefix, binding, BotCommand::Cancel), cancel),
    ensures
        ({
            let context = binding@;
            let selector = SessionSelectorView {
                cwd: binding.cwd@,
                agent: binding.agent@,
                session_name: opt_text(binding.session_name),
                permission_mode: binding.permission_mode,
            };
            let asks = |plan: Plan, ensured: bool, call: CallView|
                plan@ == (PlanView {
                    binding: context,
                    task: TaskView::Ask { ensured, call },
                });
            &&& asks(shell, false, CallView::Shell { cwd: binding.cwd@, command: text@ })
            &&& asks(exec, false, CallView::Exec { selector, blocks: telling(text@) })
            &&& asks(prompt, true, CallView::Prompt { selector, blocks: telling(text@) })
            &&& asks(mode, true, CallView::SetMode { selector, mode: text@ })
            &&& asks(model, true, CallView::SetModel { selector, model: text@ })
            &&& asks(
                option,
                true,
                CallView::SetOption { selector, key: text@, value: value@ },
            )
            &&& asks(status, false, CallView::Status(selector))
            &&& asks(cancel, false, CallView::Cancel(selector))
        }),
{
}

} // verus!
