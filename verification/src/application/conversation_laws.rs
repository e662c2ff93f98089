//! What holds of several messages of one conversation.
use vstd::prelude::*;

use crate::adapters::repository::lookup;
use crate::application::calls::{Answer, CallView, PathKind};
use crate::application::command::{clean_input, command, unquoted, BotCommandView, UserRequestView};
use crate::application::command_laws::{law_a_name_is_enough, law_the_rest_is_taken_as_it_is};
use crate::application::outgoing::sent_blocks;
use crate::application::render::context;
use crate::application::service::{
    awaited, fitting, next, processed, request, InteractionView, ServiceDefaults, StageView,
};
use crate::application::service_laws::{
    fitting_run, handed_out, law_a_short_text_is_sent_as_it_is, run, stored,
};
use crate::domain::{
    text_reply, ConversationBindingView, InboundMessageView, MessageBlockView, SessionSelectorView,
};
use crate::paths::{absolute, cleaned_path};
use crate::support::workspace_on;
use crate::text::chars::{opt_text, white_space};
use crate::text::search::{find, lemma_occurrence_is_found, occurs_at, starts_with};
use crate::text::trim::{tight, trim, Trimmed};

verus! {

/// The handling of a message at its beginning.
pub open spec fn begun(message: InboundMessageView) -> InteractionView {
    InteractionView { message, typing_reaction_ok: false, stage: StageView::Typing }
}

/// The answers bring the handling of a message to its end, and what the message
/// asks for is done.
pub open spec fn carried_out(
    defaults: ServiceDefaults,
    message: InboundMessageView,
    answers: Seq<Answer>,
) -> bool {
    &&& fitting_run(defaults, begun(message), answers)
    &&& run(defaults, begun(message), answers).stage matches StageView::Finished {
        process_ok: true,
        ..
    }
}

/// The call goes to an agent or to the shell.
pub open spec fn is_work(call: CallView) -> bool {
    match call {
        CallView::ReactTyping(_) => false,
        CallView::LoadBinding(_) => false,
        CallView::InspectPath(_) => false,
        CallView::StoreBinding { .. } => false,
        CallView::SendMessage { .. } => false,
        _ => true,
    }
}

/// The calls to agents and to the shell in the course of a run.
pub open spec fn work(
    defaults: ServiceDefaults,
    it: InteractionView,
    answers: Seq<Answer>,
) -> Seq<CallView>
    decreases answers.len(),
{
    if answers.len() == 0 {
        seq![]
    } else {
        let rest = work(defaults, next(defaults, it, answers.first()), answers.drop_first());
        match awaited(defaults, it) {
            Some(call) if is_work(call) => seq![call] + rest,
            _ => rest,
        }
    }
}

/// The context that a message finds: what was stored or else the default, in a
/// directory that there is.
pub open spec fn found(defaults: ServiceDefaults, answers: Seq<Answer>) -> ConversationBindingView {
    let known = match answers[1] {
        Answer::Binding(Some(binding)) => ConversationBindingView {
            cwd: binding.cwd@,
            agent: binding.agent@,
            session_name: opt_text(binding.session_name),
            permission_mode: binding.permission_mode,
        },
        _ => ConversationBindingView {
            cwd: defaults.default_workspace@,
            agent: defaults.default_agent@,
            session_name: None,
            permission_mode: defaults.default_permission_mode,
        },
    };
    if answers[2] == Answer::Path(PathKind::Directory) {
        known
    } else {
        ConversationBindingView { cwd: defaults.default_workspace@, ..known }
    }
}

/// The session of a context: it has the context's directory, agent, name and
/// permissions.
pub open spec fn session_of(binding: ConversationBindingView) -> SessionSelectorView {
    SessionSelectorView {
        cwd: binding.cwd,
        agent: binding.agent,
        session_name: binding.session_name,
        permission_mode: binding.permission_mode,
    }
}

/// The message finds what is kept of its conversation, and its directory is one.
pub open spec fn finds(
    kept: Map<Seq<char>, ConversationBindingView>,
    message: InboundMessageView,
    answers: Seq<Answer>,
) -> bool {
    &&& match answers[1] {
        Answer::Binding(Some(binding)) => lookup(kept, message.conversation) == Some(binding@),
        _ => lookup(kept, message.conversation) is None,
    }
    &&& answers[2] == Answer::Path(PathKind::Directory)
}

/// What is kept after a message was handled.
pub open spec fn kept_after(
    kept: Map<Seq<char>, ConversationBindingView>,
    defaults: ServiceDefaults,
    message: InboundMessageView,
    answers: Seq<Answer>,
) -> Map<Seq<char>, ConversationBindingView> {
    kept.insert(
        message.conversation.storage_text(),
        stored(defaults, begun(message), answers).last(),
    )
}

/// The run after its first answer.
pub proof fn lemma_step(defaults: ServiceDefaults, it: InteractionView, answers: Seq<Answer>)
    requires
        fitting_run(defaults, it, answers),
        run(defaults, it, answers).stage is Finished,
    ensures
        answers.len() == 0 <==> it.stage is Finished,
        answers.len() == 0 ==> {
            &&& stored(defaults, it, answers) == Seq::<ConversationBindingView>::empty()
            &&& work(defaults, it, answers) == Seq::<CallView>::empty()
            &&& handed_out(defaults, it, answers) == Seq::<Seq<MessageBlockView>>::empty()
            &&& run(defaults, it, answers) == it
        },
        answers.len() > 0 ==> {
            let then = next(defaults, it, answers.first());
            let rest = answers.drop_first();
            &&& fitting(defaults, it, answers.first())
            &&& fitting_run(defaults, then, rest)
            &&& run(defaults, it, answers) == run(defaults, then, rest)
            &&& stored(defaults, it, answers) == (match awaited(defaults, it) {
                Some(CallView::StoreBinding { binding, .. }) if !(answers.first() is Failed) =>
                    seq![binding] + stored(defaults, then, rest),
                _ => stored(defaults, then, rest),
            })
            &&& work(defaults, it, answers) == (match awaited(defaults, it) {
                Some(call) if is_work(call) => seq![call] + work(defaults, then, rest),
                _ => work(defaults, then, rest),
            })
            &&& handed_out(defaults, it, answers) == (match awaited(defaults, it) {
                Some(CallView::SendMessage { blocks, .. }) => seq![blocks] + handed_out(
                    defaults,
                    then,
                    rest,
                ),
                _ => handed_out(defaults, then, rest),
            })
        },
{
    if answers.len() == 0 {
        assert(stored(defaults, it, answers) =~= Seq::<ConversationBindingView>::empty());
        assert(work(defaults, it, answers) =~= Seq::<CallView>::empty());
        assert(handed_out(defaults, it, answers) =~= Seq::<Seq<MessageBlockView>>::empty());
    }
}

/// Once a request is refused, it stays so.
pub proof fn lemma_refused(defaults: ServiceDefaults, it: InteractionView, answers: Seq<Answer>)
    requires
        fitting_run(defaults, it, answers),
        run(defaults, it, answers).stage is Finished,
        it.stage is Replying,
    ensures
        run(defaults, it, answers).stage->Finished_process_ok == it.stage->Replying_process_ok,
        answers.len() == 1,
        stored(defaults, it, answers) =~= Seq::<ConversationBindingView>::empty(),
        work(defaults, it, answers) =~= Seq::<CallView>::empty(),
        handed_out(defaults, it, answers) =~= seq![
            sent_blocks(it.stage->Replying_reply, defaults.reply_chunk_chars as nat),
        ],
{
    lemma_step(defaults, it, answers);
    let then = next(defaults, it, answers.first());
    let rest = answers.drop_first();
    lemma_step(defaults, then, rest);
    assert(rest.len() == 0);
}

/// What is left when the context is to be stored.
pub proof fn lemma_storing(defaults: ServiceDefaults, it: InteractionView, answers: Seq<Answer>)
    requires
        fitting_run(defaults, it, answers),
        run(defaults, it, answers).stage is Finished,
        run(defaults, it, answers).stage->Finished_process_ok,
        it.stage is Storing,
    ensures
        stored(defaults, it, answers) =~= seq![it.stage->Storing_binding],
        work(defaults, it, answers) =~= Seq::<CallView>::empty(),
        handed_out(defaults, it, answers) =~= seq![
            sent_blocks(it.stage->Storing_reply, defaults.reply_chunk_chars as nat),
        ],
{
    lemma_step(defaults, it, answers);
    let then = next(defaults, it, answers.first());
    let rest = answers.drop_first();
    lemma_refused(defaults, then, rest);
    assert(!(answers.first() is Failed));
}

/// A message that is carried out leads to what it asks for in the context that it
/// finds.
pub proof fn lemma_processed(
    defaults: ServiceDefaults,
    message: InboundMessageView,
    answers: Seq<Answer>,
) -> (it: InteractionView)
    requires
        carried_out(defaults, message, answers),
    ensures
        answers.len() > 3,
        it.message == message,
        it.stage == processed(
            defaults,
            message.blocks,
            found(defaults, answers),
        ),
        fitting_run(defaults, it, answers.skip(3)),
        run(defaults, it, answers.skip(3)) == run(defaults, begun(message), answers),
        stored(defaults, it, answers.skip(3)) == stored(defaults, begun(message), answers),
        work(defaults, it, answers.skip(3)) == work(defaults, begun(message), answers),
        handed_out(defaults, it, answers.skip(3)) == handed_out(defaults, begun(message), answers),
{
    let zero = begun(message);
    lemma_step(defaults, zero, answers);
    let one = next(defaults, zero, answers[0]);
    let behind_one = answers.drop_first();
    lemma_step(defaults, one, behind_one);
    assert(behind_one.first() == answers[1]);
    let two = next(defaults, one, answers[1]);
    let behind_two = behind_one.drop_first();
    if answers[1] is Failed {
        lemma_refused(defaults, two, behind_two);
    }
    lemma_step(defaults, two, behind_two);
    assert(behind_two.first() == answers[2]);
    let three = next(defaults, two, answers[2]);
    let behind_three = behind_two.drop_first();
    assert(behind_three =~= answers.skip(3));
    lemma_step(defaults, three, behind_three);
    three
}

/// The message asks for a change of directory.
proof fn lemma_changing(
    defaults: ServiceDefaults,
    message: InboundMessageView,
    answers: Seq<Answer>,
    raw: Seq<char>,
)
    requires
        carried_out(defaults, message, answers),
        request(defaults.command_prefix@, message.blocks) == Some(
            command(BotCommandView::ChangeDirectory(raw)),
        ),
    ensures
        ({
            let before = found(defaults, answers);
            let after = ConversationBindingView {
                cwd: workspace_on(defaults.system.family(), before.cwd, raw),
                ..before
            };
            &&& stored(defaults, begun(message), answers) =~= seq![after]
            &&& work(defaults, begun(message), answers) =~= Seq::<CallView>::empty()
            &&& handed_out(defaults, begun(message), answers) =~= seq![
                sent_blocks(text_reply(context(after)), defaults.reply_chunk_chars as nat),
            ]
        }),
{
    let it = lemma_processed(defaults, message, answers);
    let rest = answers.skip(3);
    assert(it.stage is Entering);
    lemma_step(defaults, it, rest);
    let then = next(defaults, it, rest.first());
    if then.stage is Replying {
        lemma_refused(defaults, then, rest.drop_first());
    }
    lemma_storing(defaults, then, rest.drop_first());
}

/// The message asks for the context.
proof fn lemma_looking(
    defaults: ServiceDefaults,
    message: InboundMessageView,
    answers: Seq<Answer>,
)
    requires
        carried_out(defaults, message, answers),
        request(defaults.command_prefix@, message.blocks) == Some(command(BotCommandView::Pwd)),
    ensures
        ({
            let binding = found(defaults, answers);
            &&& stored(defaults, begun(message), answers) =~= seq![binding]
            &&& work(defaults, begun(message), answers) =~= Seq::<CallView>::empty()
            &&& handed_out(defaults, begun(message), answers) =~= seq![
                sent_blocks(text_reply(context(binding)), defaults.reply_chunk_chars as nat),
            ]
        }),
{
    let it = lemma_processed(defaults, message, answers);
    assert(it.stage is Storing);
    lemma_storing(defaults, it, answers.skip(3));
}

/// The message is a prompt.
pub open spec fn is_prompt(prefix: Seq<char>, blocks: Seq<MessageBlockView>) -> bool {
    match request(prefix, blocks) {
        None => true,
        Some(Ok(UserRequestView::Prompt(_))) => true,
        _ => false,
    }
}

proof fn lemma_prompting(
    defaults: ServiceDefaults,
    message: InboundMessageView,
    answers: Seq<Answer>,
)
    requires
        carried_out(defaults, message, answers),
        is_prompt(defaults.command_prefix@, message.blocks),
    ensures
        ({
            let selector = session_of(found(defaults, answers));
            &&& stored(defaults, begun(message), answers) =~= seq![found(defaults, answers)]
            &&& work(defaults, begun(message), answers) =~= seq![
                CallView::EnsureSession(selector),
                CallView::Prompt { selector, blocks: message.blocks },
            ]
        }),
{
    let it = lemma_processed(defaults, message, answers);
    let rest = answers.skip(3);
    assert(it.stage is Ensuring);
    lemma_step(defaults, it, rest);
    let then = next(defaults, it, rest.first());
    let behind = rest.drop_first();
    if rest.first() is Failed {
        lemma_refused(defaults, then, behind);
    }
    assert(then.stage is Asking);
    lemma_step(defaults, then, behind);
    let last = next(defaults, then, behind.first());
    if behind.first() is Failed {
        lemma_refused(defaults, last, behind.drop_first());
    }
    lemma_storing(defaults, last, behind.drop_first());
    let selector = session_of(found(defaults, answers));
    let call = CallView::Prompt { selector, blocks: message.blocks };
    assert(work(defaults, then, behind) =~= seq![call]);
    assert(work(defaults, it, rest) =~= seq![CallView::EnsureSession(selector)] + seq![call]);
}

/// The text of a context names its directory.
proof fn lemma_context(binding: ConversationBindingView)
    ensures
        find(context(binding), "cwd: "@ + binding.cwd) is Some,
        context(binding).len() > 0,
        tight(context(binding), Trimmed::WhiteSpace),
{
    reveal_strlit("当前上下文\ncwd: ");
    reveal_strlit("cwd: ");
    reveal_strlit("approve-all");
    reveal_strlit("approve-reads");
    reveal_strlit("deny-all");
    let text = context(binding);
    let named = "cwd: "@ + binding.cwd;
    let name = binding.permission_mode.name();
    assert(text.subrange(6, 6 + named.len() as int) =~= named);
    assert(occurs_at(text, named, 6));
    lemma_occurrence_is_found(text, named, 6);
    assert(text.first() == '当');
    assert(text.last() == name.last());
}

/// A directory that a conversation has changed to is the one that it is in: the
/// message that asks for the change and one that asks for the context are answered
/// with a context that names it, neither has an agent or the shell do anything, and
/// a prompt after them goes, block for block, to the session in that directory, once
/// that is made sure of, with no other call to an agent. What is kept of the
/// conversation is what was last stored of it, and the directory stays one.
pub proof fn law_a_directory_that_was_changed_to_is_used(
    defaults: ServiceDefaults,
    kept: Map<Seq<char>, ConversationBindingView>,
    change: InboundMessageView,
    look: InboundMessageView,
    prompt: InboundMessageView,
    raw: Seq<char>,
    first: Seq<Answer>,
    second: Seq<Answer>,
    third: Seq<Answer>,
)
    requires
        look.conversation == change.conversation,
        prompt.conversation == change.conversation,
        request(defaults.command_prefix@, change.blocks) == Some(
            command(BotCommandView::ChangeDirectory(raw)),
        ),
        request(defaults.command_prefix@, look.blocks) == Some(command(BotCommandView::Pwd)),
        is_prompt(defaults.command_prefix@, prompt.blocks),
        carried_out(defaults, change, first),
        carried_out(defaults, look, second),
        carried_out(defaults, prompt, third),
        finds(kept_after(kept, defaults, change, first), look, second),
        finds(
            kept_after(kept_after(kept, defaults, change, first), defaults, look, second),
            prompt,
            third,
        ),
    ensures
        ({
            let before = found(defaults, first);
            let dir = workspace_on(defaults.system.family(), before.cwd, raw);
            let binding = ConversationBindingView { cwd: dir, ..before };
            let told = text_reply(context(binding));
            let sent = seq![sent_blocks(told, defaults.reply_chunk_chars as nat)];
            let selector = session_of(binding);
            &&& defaults.system.family() is Unix && absolute(raw) && cleaned_path(raw) == raw
                ==> dir == raw
            &&& handed_out(defaults, begun(change), first) == sent
            &&& handed_out(defaults, begun(look), second) == sent
            &&& find(context(binding), "cwd: "@ + dir) is Some
            &&& (defaults.reply_chunk_chars > 0 ==> context(binding).len()
                <= defaults.reply_chunk_chars) && !context(binding).contains('\r') ==> sent
                == seq![told]
            &&& work(defaults, begun(change), first) == Seq::<CallView>::empty()
            &&& work(defaults, begun(look), second) == Seq::<CallView>::empty()
            &&& work(defaults, begun(prompt), third) == seq![
                CallView::EnsureSession(selector),
                CallView::Prompt { selector, blocks: prompt.blocks },
            ]
            &&& selector.cwd == dir
            &&& stored(defaults, begun(prompt), third) == seq![binding]
        }),
{
    let before = found(defaults, first);
    let dir = workspace_on(defaults.system.family(), before.cwd, raw);
    let binding = ConversationBindingView { cwd: dir, ..before };
    lemma_changing(defaults, change, first, raw);
    assert(found(defaults, second) == binding);
    lemma_looking(defaults, look, second);
    assert(found(defaults, third) == binding);
    lemma_prompting(defaults, prompt, third);
    lemma_context(binding);
    if (defaults.reply_chunk_chars > 0 ==> context(binding).len() <= defaults.reply_chunk_chars)
        && !context(binding).contains('\r') {
        law_a_short_text_is_sent_as_it_is(context(binding), defaults.reply_chunk_chars as nat);
    }
}

/// A message of one text.
pub open spec fn says(message: InboundMessageView, text: Seq<char>) -> bool {
    message.blocks == seq![MessageBlockView::Text { text }]
}

/// What holds of a change of directory, a look at the context and a prompt holds of
/// them as they are typed, in a directory of Unix that is typed as it is.
pub proof fn law_a_typed_directory_is_used(
    defaults: ServiceDefaults,
    kept: Map<Seq<char>, ConversationBindingView>,
    change: InboundMessageView,
    look: InboundMessageView,
    prompt: InboundMessageView,
    dir: Seq<char>,
    said: Seq<char>,
    first: Seq<Answer>,
    second: Seq<Answer>,
    third: Seq<Answer>,
)
    requires
        defaults.system.family() is Unix,
        defaults.command_prefix@.len() > 0,
        !white_space(defaults.command_prefix@.first()),
        clean_input(defaults.command_prefix@),
        absolute(dir),
        cleaned_path(dir) == dir,
        clean_input(dir),
        tight(dir, Trimmed::WhiteSpace),
        clean_input(said),
        !starts_with(trim(said), defaults.command_prefix@),
        says(change, defaults.command_prefix@ + "cd"@ + " "@ + dir),
        says(look, defaults.command_prefix@ + "pwd"@),
        says(prompt, said),
        look.conversation == change.conversation,
        prompt.conversation == change.conversation,
        carried_out(defaults, change, first),
        carried_out(defaults, look, second),
        carried_out(defaults, prompt, third),
        finds(kept_after(kept, defaults, change, first), look, second),
        finds(
            kept_after(kept_after(kept, defaults, change, first), defaults, look, second),
            prompt,
            third,
        ),
    ensures
        ({
            let binding = ConversationBindingView { cwd: dir, ..found(defaults, first) };
            let selector = session_of(binding);
            let sent = seq![
                sent_blocks(text_reply(context(binding)), defaults.reply_chunk_chars as nat),
            ];
            &&& handed_out(defaults, begun(change), first) == sent
            &&& handed_out(defaults, begun(look), second) == sent
            &&& find(context(binding), "cwd: "@ + dir) is Some
            &&& work(defaults, begun(change), first) == Seq::<CallView>::empty()
            &&& work(defaults, begun(look), second) == Seq::<CallView>::empty()
            &&& work(defaults, begun(prompt), third) == seq![
                CallView::EnsureSession(selector),
                CallView::Prompt {
                    selector,
                    blocks: seq![MessageBlockView::Text { text: said }],
                },
            ]
            &&& selector.cwd == dir
        }),
{
    let prefix = defaults.command_prefix@;
    law_the_rest_is_taken_as_it_is(prefix, dir);
    law_a_name_is_enough(prefix);
    assert(unquoted(dir) == dir);
    law_a_directory_that_was_changed_to_is_used(
        defaults,
        kept,
        change,
        look,
        prompt,
        dir,
        first,
        second,
        third,
    );
}

} // verus!
