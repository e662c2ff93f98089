//! What holds of every interaction.
use vstd::prelude::*;

use crate::application::calls::{Answer, CallView, PathKind};
use crate::application::command::{BotCommandView, SessionCommandView, UserRequestView};
use crate::application::outgoing::{expanded, sent_blocks, text_blocks};
use crate::application::plan::{planned_command, planned_session};
use crate::application::service::{
    awaited, fitting, next, refused, request, settled, InteractionView, ServiceDefaults, StageView,
};
use crate::chunk_laws::law_a_text_that_fits_is_one_chunk;
use crate::domain::{text_reply, ConversationBindingView, MessageBlockView};
use crate::error::BridgeErrorView;
use crate::platform::Platform;
use crate::support::{chunks, labelled, session_name};
use crate::text::trim::{lemma_trim_keeps_tight, lemma_trim_tight, tight, Trimmed};

verus! {

/// How many answers are still to come, at most.
pub open spec fn steps_left(stage: StageView) -> nat {
    match stage {
        StageView::Typing => 7,
        StageView::Loading => 6,
        StageView::Checking { .. } => 5,
        StageView::Entering { .. } => 4,
        StageView::Ensuring { .. } => 4,
        StageView::Asking { .. } => 3,
        StageView::Storing { .. } => 2,
        StageView::Replying { .. } => 1,
        StageView::Finished { .. } => 0,
    }
}

/// Every answer brings an interaction nearer to its end, and until then there is
/// always a call to make. The message that is handled stays the same.
pub proof fn law_interactions_come_to_an_end(
    defaults: ServiceDefaults,
    it: InteractionView,
    answer: Answer,
)
    requires
        fitting(defaults, it, answer),
    ensures
        steps_left(next(defaults, it, answer).stage) < steps_left(it.stage),
        awaited(defaults, it) is None <==> it.stage is Finished,
        next(defaults, it, answer).message == it.message,
{
}

/// Whether the sender could be shown that their message is being worked on makes
/// no difference to what follows.
pub proof fn law_typing_decides_nothing(
    defaults: ServiceDefaults,
    it: InteractionView,
    one: Answer,
    other: Answer,
)
    requires
        it.stage is Typing,
        fitting(defaults, it, one),
        fitting(defaults, it, other),
    ensures
        next(defaults, it, one).stage == next(defaults, it, other).stage,
        awaited(defaults, next(defaults, it, one)) == awaited(
            defaults,
            next(defaults, it, other),
        ),
{
}

/// A failure between the arrival of a message and its reply is what the user is
/// told of, and nothing is stored after it.
pub proof fn law_failures_are_told_and_change_nothing(
    defaults: ServiceDefaults,
    it: InteractionView,
    answer: Answer,
)
    requires
        fitting(defaults, it, answer),
        !(it.stage is Typing),
        !(it.stage is Replying),
        answer is Failed,
    ensures
        awaited(defaults, next(defaults, it, answer)) == Some(
            CallView::SendMessage {
                target: it.message.reply_target,
                blocks: sent_blocks(
                    text_reply(answer->Failed_0@.user_text()),
                    defaults.reply_chunk_chars as nat,
                ),
            },
        ),
        next(defaults, it, answer).stage == refused(answer->Failed_0@),
{
}

/// A directory that is none is what the user is told of, and the context stays
/// as it was stored.
pub proof fn law_only_directories_are_entered(
    defaults: ServiceDefaults,
    it: InteractionView,
    answer: Answer,
)
    requires
        it.stage is Entering,
        fitting(defaults, it, answer),
    ensures
        match answer->Path_0 {
            PathKind::Missing => next(defaults, it, answer).stage == refused(
                BridgeErrorView::WorkspaceNotFound(it.stage->Entering_binding.cwd),
            ),
            PathKind::Other => next(defaults, it, answer).stage == refused(
                BridgeErrorView::NotDirectory(it.stage->Entering_binding.cwd),
            ),
            PathKind::Directory => awaited(defaults, next(defaults, it, answer)) == Some(
                CallView::StoreBinding {
                    key: it.message.conversation,
                    binding: it.stage->Entering_binding,
                },
            ),
        },
{
}

/// A message that is no command goes to the session of its conversation's
/// context, block for block, once that session is made sure of.
pub proof fn law_prompts_are_forwarded_whole(
    defaults: ServiceDefaults,
    it: InteractionView,
    checked: Answer,
    ensured: Answer,
)
    requires
        it.stage is Checking,
        fitting(defaults, it, checked),
        match request(defaults.command_prefix@, it.message.blocks) {
            None => true,
            Some(Ok(UserRequestView::Prompt(_))) => true,
            _ => false,
        },
        ensured is Summary,
    ensures
        ({
            let binding = settled(defaults, it.stage->Checking_binding, checked->Path_0);
            let then = next(defaults, it, checked);
            &&& awaited(defaults, then) == Some(CallView::EnsureSession(binding.selector()))
            &&& awaited(defaults, next(defaults, then, ensured)) == Some(
                CallView::Prompt { selector: binding.selector(), blocks: it.message.blocks },
            )
        }),
{
}

/// The interaction after a run of answers.
pub open spec fn run(
    defaults: ServiceDefaults,
    it: InteractionView,
    answers: Seq<Answer>,
) -> InteractionView
    decreases answers.len(),
{
    if answers.len() == 0 {
        it
    } else {
        run(defaults, next(defaults, it, answers.first()), answers.drop_first())
    }
}

/// Each answer of the run can be had when it comes.
pub open spec fn fitting_run(
    defaults: ServiceDefaults,
    it: InteractionView,
    answers: Seq<Answer>,
) -> bool
    decreases answers.len(),
{
    answers.len() > 0 ==> fitting(defaults, it, answers.first()) && fitting_run(
        defaults,
        next(defaults, it, answers.first()),
        answers.drop_first(),
    )
}

/// The contexts that are stored in the course of a run.
pub open spec fn stored(
    defaults: ServiceDefaults,
    it: InteractionView,
    answers: Seq<Answer>,
) -> Seq<ConversationBindingView>
    decreases answers.len(),
{
    if answers.len() == 0 {
        seq![]
    } else {
        let rest = stored(defaults, next(defaults, it, answers.first()), answers.drop_first());
        match awaited(defaults, it) {
            Some(CallView::StoreBinding { binding, .. }) if !(answers.first() is Failed) =>
                seq![binding] + rest,
            _ => rest,
        }
    }
}

/// The messages that are handed out for sending in the course of a run.
pub open spec fn handed_out(
    defaults: ServiceDefaults,
    it: InteractionView,
    answers: Seq<Answer>,
) -> Seq<Seq<MessageBlockView>>
    decreases answers.len(),
{
    if answers.len() == 0 {
        seq![]
    } else {
        let rest = handed_out(defaults, next(defaults, it, answers.first()), answers.drop_first());
        match awaited(defaults, it) {
            Some(CallView::SendMessage { blocks, .. }) => seq![blocks] + rest,
            _ => rest,
        }
    }
}

/// The call of a plan neither stores a context nor sends a message.
pub open spec fn plain_call(stage: StageView) -> bool {
    match stage {
        StageView::Ensuring { call, .. } => !(call is StoreBinding) && !(call is SendMessage),
        StageView::Asking { call, .. } => !(call is StoreBinding) && !(call is SendMessage),
        _ => true,
    }
}

proof fn lemma_run(defaults: ServiceDefaults, it: InteractionView, answers: Seq<Answer>)
    requires
        plain_call(it.stage),
        fitting_run(defaults, it, answers),
        run(defaults, it, answers).stage is Finished,
    ensures
        ({
            let ok = run(defaults, it, answers).stage->Finished_process_ok;
            match it.stage {
                StageView::Finished { process_ok, .. } => {
                    &&& ok == process_ok
                    &&& stored(defaults, it, answers).len() == 0
                    &&& handed_out(defaults, it, answers).len() == 0
                },
                StageView::Replying { process_ok, .. } => {
                    &&& ok == process_ok
                    &&& stored(defaults, it, answers).len() == 0
                    &&& handed_out(defaults, it, answers).len() == 1
                },
                _ => {
                    &&& stored(defaults, it, answers).len() == (if ok {
                        1int
                    } else {
                        0int
                    })
                    &&& handed_out(defaults, it, answers).len() == 1
                },
            }
        }),
    decreases answers.len(),
{
    if answers.len() > 0 {
        let then = next(defaults, it, answers.first());
        assert(plain_call(then.stage));
        lemma_run(defaults, then, answers.drop_first());
    }
}

/// Whatever the answers, one message is handed out for sending, and the context
/// is stored once if the request was carried out, and not at all if it was not.
pub proof fn law_one_reply_and_at_most_one_context(
    defaults: ServiceDefaults,
    it: InteractionView,
    answers: Seq<Answer>,
)
    requires
        it.stage is Typing,
        fitting_run(defaults, it, answers),
        run(defaults, it, answers).stage is Finished,
    ensures
        handed_out(defaults, it, answers).len() == 1,
        run(defaults, it, answers).stage->Finished_process_ok ==> stored(
            defaults,
            it,
            answers,
        ).len() == 1,
        !run(defaults, it, answers).stage->Finished_process_ok ==> stored(
            defaults,
            it,
            answers,
        ).len() == 0,
{
    lemma_run(defaults, it, answers);
}

/// There is always something to send.
pub proof fn law_something_is_always_sent(blocks: Seq<MessageBlockView>, max: nat)
    ensures
        sent_blocks(blocks, max).len() > 0,
{
}

/// A text without white space at its ends and without carriage returns that fits
/// into one chunk is sent as it is.
pub proof fn law_a_short_text_is_sent_as_it_is(text: Seq<char>, max: nat)
    requires
        0 < text.len(),
        max > 0 ==> text.len() <= max,
        tight(text, Trimmed::WhiteSpace),
        !text.contains('\r'),
    ensures
        sent_blocks(text_reply(text), max) == text_reply(text),
{
    lemma_trim_keeps_tight(text, Trimmed::WhiteSpace);
    if max > 0 {
        law_a_text_that_fits_is_one_chunk(text, max);
    }
    let blocks = text_reply(text);
    assert(chunks(text, max) =~= seq![text]);
    assert(text_blocks(labelled(seq![text])) =~= blocks);
    assert(blocks.drop_last() =~= Seq::<MessageBlockView>::empty());
    assert(expanded(blocks.drop_last(), max) =~= Seq::<MessageBlockView>::empty());
    assert(expanded(blocks, max) =~= blocks);
}

/// A block that is no text is sent as it is.
pub proof fn law_other_blocks_are_sent_as_they_are(block: MessageBlockView, max: nat)
    requires
        !(block is Text),
    ensures
        sent_blocks(seq![block], max) == seq![block],
{
    let blocks = seq![block];
    assert(blocks.drop_last() =~= Seq::<MessageBlockView>::empty());
    assert(expanded(blocks.drop_last(), max) =~= Seq::<MessageBlockView>::empty());
    assert(expanded(blocks, max) =~= blocks);
}

/// The name of a session means itself.
pub proof fn law_session_names_are_settled(value: Option<Seq<char>>)
    ensures
        session_name(session_name(value)) == session_name(value),
{
    if let Some(name) = session_name(value) {
        lemma_trim_tight(value->Some_0, Trimmed::WhiteSpace);
        lemma_trim_keeps_tight(name, Trimmed::WhiteSpace);
    }
}

/// A session that was begun or changed to is left by closing it under the name
/// that was given then; closing another leaves the context as it is.
pub proof fn law_closing_the_current_session_leaves_it(
    binding: ConversationBindingView,
    opened: Option<Seq<char>>,
    closed: Option<Seq<char>>,
)
    ensures
        ({
            let within = planned_session(binding, SessionCommandView::New(opened)).binding;
            let after = planned_session(within, SessionCommandView::Close(closed)).binding;
            &&& planned_session(binding, SessionCommandView::Use(opened)).binding == within
            &&& within.session_name == session_name(opened)
            &&& session_name(closed) == session_name(opened) ==> after.session_name is None
            &&& session_name(closed) != session_name(opened) ==> after == within
        }),
{
}

/// Commands that only look change no context.
pub proof fn law_looking_changes_nothing(
    platform: Platform,
    prefix: Seq<char>,
    binding: ConversationBindingView,
    command: BotCommandView,
)
    requires
        match command {
            BotCommandView::ChangeDirectory(_) => false,
            BotCommandView::Agent(_) => false,
            BotCommandView::Permissions(_) => false,
            BotCommandView::Session(SessionCommandView::New(_)) => false,
            BotCommandView::Session(SessionCommandView::Use(_)) => false,
            BotCommandView::Session(SessionCommandView::Close(_)) => false,
            _ => true,
        },
    ensures
        planned_command(platform, prefix, binding, command).binding == binding,
{
}

} // verus!
