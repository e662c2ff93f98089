//! When a request is carried out, and what is told when it is not.
use vstd::prelude::*;

use crate::application::calls::{Answer, Call, CallView, PathKind};
use crate::application::command::{asked, command, BotCommandView, UserRequestView};
use crate::application::conversation_laws::{
    begun, carried_out, found, lemma_refused, lemma_step, work,
};
use crate::application::outgoing::sent_blocks;
use crate::application::request_laws::telling;
use crate::application::service::{
    awaited, first_text, fitting, next, processed, request, BridgeService, Interaction,
    InteractionView, ServiceDefaults, Stage,
};
use crate::application::service_laws::{fitting_run, handed_out, plain_call, run, stored};
use crate::domain::{ConversationBindingView, InboundMessage, InboundMessageView, MessageBlockView};
use crate::error::BridgeErrorView;
use crate::support::workspace_on;
use crate::text::chars::opt_text;

verus! {

/// The answers lead to the end, and no call but the first and the last fails.
pub open spec fn goes_well(
    defaults: ServiceDefaults,
    it: InteractionView,
    answers: Seq<Answer>,
) -> bool {
    &&& fitting_run(defaults, it, answers)
    &&& run(defaults, it, answers).stage is Finished
    &&& forall|i: int| 1 <= i < answers.len() - 1 ==> !(#[trigger] answers[i] is Failed)
}

/// A stage after which only a failure keeps a request from being carried out.
proof fn lemma_goes_well(defaults: ServiceDefaults, it: InteractionView, answers: Seq<Answer>)
    requires
        fitting_run(defaults, it, answers),
        run(defaults, it, answers).stage is Finished,
        forall|i: int| 0 <= i < answers.len() - 1 ==> !(#[trigger] answers[i] is Failed),
        it.stage is Replying ==> it.stage->Replying_process_ok,
        it.stage is Entering ==> answers[0] == Answer::Path(PathKind::Directory),
        !(it.stage is Typing),
        !(it.stage is Loading),
        !(it.stage is Checking),
        !(it.stage is Finished),
    ensures
        run(defaults, it, answers).stage->Finished_process_ok,
    decreases answers.len(),
{
    if it.stage is Replying {
        lemma_refused(defaults, it, answers);
    } else {
        lemma_step(defaults, it, answers);
        let then = next(defaults, it, answers.first());
        let rest = answers.drop_first();
        lemma_step(defaults, then, rest);
        assert(rest.len() > 0);
        assert(!(answers[0] is Failed));
        assert forall|i: int| 0 <= i < rest.len() - 1 implies !(#[trigger] rest[i] is Failed) by {
            assert(rest[i] == answers[i + 1]);
        }
        lemma_goes_well(defaults, then, rest);
    }
}

/// A request that is understood is carried out whatever it holds and however long it
/// is, unless a call fails or a directory that is to be changed to is none. That the
/// sender cannot be shown that it is being worked on, or that the reply cannot be
/// sent, makes no difference.
pub proof fn law_only_failures_keep_a_request_from_being_carried_out(
    defaults: ServiceDefaults,
    message: InboundMessageView,
    answers: Seq<Answer>,
)
    requires
        goes_well(defaults, begun(message), answers),
        match request(defaults.command_prefix@, message.blocks) {
            Some(Err(_)) => false,
            _ => true,
        },
        forall|raw: Seq<char>|
            request(defaults.command_prefix@, message.blocks) == Some(
                #[trigger] command(BotCommandView::ChangeDirectory(raw)),
            ) ==> answers[3] == Answer::Path(PathKind::Directory),
    ensures
        carried_out(defaults, message, answers),
{
    let zero = begun(message);
    lemma_step(defaults, zero, answers);
    let one = next(defaults, zero, answers[0]);
    let behind_one = answers.drop_first();
    lemma_step(defaults, one, behind_one);
    assert(behind_one.first() == answers[1]);
    let two = next(defaults, one, answers[1]);
    let behind_two = behind_one.drop_first();
    lemma_step(defaults, two, behind_two);
    assert(behind_two.len() > 0);
    assert(!(answers[1] is Failed));
    assert(behind_two.first() == answers[2]);
    let three = next(defaults, two, answers[2]);
    let rest = behind_two.drop_first();
    assert(rest =~= answers.skip(3));
    lemma_step(defaults, three, rest);
    assert(three.stage == processed(defaults, message.blocks, found(defaults, answers)));
    assert(rest.len() > 0);
    assert(rest[0] == answers[3]);
    assert forall|i: int| 0 <= i < rest.len() - 1 implies !(#[trigger] rest[i] is Failed) by {
        assert(rest[i] == answers[i + 3]);
    }
    if three.stage is Entering {
        match request(defaults.command_prefix@, message.blocks) {
            Some(Ok(UserRequestView::Command(given))) => {
                assert(given is ChangeDirectory);
                let dir = given->ChangeDirectory_0;
                assert(request(defaults.command_prefix@, message.blocks) == Some(
                    command(BotCommandView::ChangeDirectory(dir)),
                ));
            },
            _ => {},
        }
    }
    lemma_goes_well(defaults, three, rest);
}

proof fn lemma_told(
    defaults: ServiceDefaults,
    it: InteractionView,
    answers: Seq<Answer>,
    at: int,
)
    requires
        fitting_run(defaults, it, answers),
        run(defaults, it, answers).stage is Finished,
        0 <= at < answers.len() - 1,
        answers[at] is Failed,
        forall|i: int| 0 <= i < at ==> !(#[trigger] answers[i] is Failed),
        !(it.stage is Typing),
        !(it.stage is Replying),
        !(it.stage is Finished),
        plain_call(it.stage),
    ensures
        !run(defaults, it, answers).stage->Finished_process_ok,
        handed_out(defaults, it, answers) == seq![
            sent_blocks(
                telling(answers[at]->Failed_0@.user_text()),
                defaults.reply_chunk_chars as nat,
            ),
        ],
        stored(defaults, it, answers) == Seq::<ConversationBindingView>::empty(),
    decreases answers.len(),
{
    lemma_step(defaults, it, answers);
    let then = next(defaults, it, answers.first());
    let rest = answers.drop_first();
    if then.stage is Replying {
        lemma_refused(defaults, then, rest);
        assert(answers[0] is Failed);
    } else {
        assert(!(answers[0] is Failed));
        assert(plain_call(then.stage));
        lemma_step(defaults, then, rest);
        assert(rest[at - 1] == answers[at]);
        assert forall|i: int| 0 <= i < at - 1 implies !(#[trigger] rest[i] is Failed) by {
            assert(rest[i] == answers[i + 1]);
        }
        lemma_told(defaults, then, rest, at - 1);
    }
}

/// The first call that fails between the arrival of a message and its reply is what
/// the sender is told of, in the words of the failure and nothing else, and the
/// context stays as it was stored.
pub proof fn law_the_first_failure_is_what_is_told(
    defaults: ServiceDefaults,
    message: InboundMessageView,
    answers: Seq<Answer>,
    at: int,
)
    requires
        fitting_run(defaults, begun(message), answers),
        run(defaults, begun(message), answers).stage is Finished,
        1 <= at < answers.len() - 1,
        answers[at] is Failed,
        forall|i: int| 1 <= i < at ==> !(#[trigger] answers[i] is Failed),
    ensures
        !carried_out(defaults, message, answers),
        handed_out(defaults, begun(message), answers) == seq![
            sent_blocks(
                telling(answers[at]->Failed_0@.user_text()),
                defaults.reply_chunk_chars as nat,
            ),
        ],
        stored(defaults, begun(message), answers) == Seq::<ConversationBindingView>::empty(),
{
    let zero = begun(message);
    lemma_step(defaults, zero, answers);
    let one = next(defaults, zero, answers[0]);
    let rest = answers.drop_first();
    assert(rest[at - 1] == answers[at]);
    assert forall|i: int| 0 <= i < at - 1 implies !(#[trigger] rest[i] is Failed) by {
        assert(rest[i] == answers[i + 1]);
    }
    lemma_told(defaults, one, rest, at - 1);
}

/// What is wrong with a message that cannot be understood is what its sender is told.
/// Nothing is asked of an agent or of the shell, and the context stays as it was
/// stored.
pub proof fn law_what_is_not_understood_is_told(
    defaults: ServiceDefaults,
    message: InboundMessageView,
    answers: Seq<Answer>,
    error: BridgeErrorView,
)
    requires
        fitting_run(defaults, begun(message), answers),
        run(defaults, begun(message), answers).stage is Finished,
        !(answers[1] is Failed),
        request(defaults.command_prefix@, message.blocks) == Some(
            Err::<UserRequestView, BridgeErrorView>(error),
        ),
    ensures
        !carried_out(defaults, message, answers),
        handed_out(defaults, begun(message), answers) == seq![
            sent_blocks(telling(error.user_text()), defaults.reply_chunk_chars as nat),
        ],
        work(defaults, begun(message), answers) == Seq::<CallView>::empty(),
        stored(defaults, begun(message), answers) == Seq::<ConversationBindingView>::empty(),
{
    let zero = begun(message);
    lemma_step(defaults, zero, answers);
    let one = next(defaults, zero, answers[0]);
    let behind_one = answers.drop_first();
    lemma_step(defaults, one, behind_one);
    assert(behind_one.first() == answers[1]);
    let two = next(defaults, one, answers[1]);
    let behind_two = behind_one.drop_first();
    lemma_step(defaults, two, behind_two);
    let three = next(defaults, two, behind_two.first());
    lemma_refused(defaults, three, behind_two.drop_first());
}

/// A directory that is missing or is none is not changed to: the sender is told which
/// it is and that it is missing or none, and the context stays as it was stored.
pub proof fn law_what_is_no_directory_is_not_changed_to(
    defaults: ServiceDefaults,
    message: InboundMessageView,
    answers: Seq<Answer>,
    raw: Seq<char>,
)
    requires
        fitting_run(defaults, begun(message), answers),
        run(defaults, begun(message), answers).stage is Finished,
        !(answers[1] is Failed),
        answers[3] != Answer::Path(PathKind::Directory),
        request(defaults.command_prefix@, message.blocks) == Some(
            command(BotCommandView::ChangeDirectory(raw)),
        ),
    ensures
        ({
            let dir = workspace_on(defaults.system.family(), found(defaults, answers).cwd, raw);
            let error = if answers[3] == Answer::Path(PathKind::Missing) {
                BridgeErrorView::WorkspaceNotFound(dir)
            } else {
                BridgeErrorView::NotDirectory(dir)
            };
            &&& !carried_out(defaults, message, answers)
            &&& handed_out(defaults, begun(message), answers) == seq![
                sent_blocks(telling(error.user_text()), defaults.reply_chunk_chars as nat),
            ]
            &&& work(defaults, begun(message), answers) == Seq::<CallView>::empty()
            &&& stored(defaults, begun(message), answers)
                == Seq::<ConversationBindingView>::empty()
        }),
{
    let zero = begun(message);
    lemma_step(defaults, zero, answers);
    let one = next(defaults, zero, answers[0]);
    let behind_one = answers.drop_first();
    lemma_step(defaults, one, behind_one);
    assert(behind_one.first() == answers[1]);
    let two = next(defaults, one, answers[1]);
    let behind_two = behind_one.drop_first();
    lemma_step(defaults, two, behind_two);
    assert(behind_two.first() == answers[2]);
    let three = next(defaults, two, answers[2]);
    let rest = behind_two.drop_first();
    lemma_step(defaults, three, rest);
    assert(rest.first() == answers[3]);
    let four = next(defaults, three, answers[3]);
    lemma_refused(defaults, four, rest.drop_first());
}

/// What blocks ask for is what the first text among them asks for, wherever it
/// stands and whatever stands behind it. Blocks without a text ask for nothing.
pub proof fn law_the_first_text_is_the_request(
    prefix: Seq<char>,
    blocks: Seq<MessageBlockView>,
    at: int,
)
    requires
        0 <= at <= blocks.len(),
        forall|i: int| 0 <= i < at ==> !(#[trigger] blocks[i] is Text),
        at < blocks.len() ==> blocks[at] is Text,
    ensures
        request(prefix, blocks) == (if at < blocks.len() {
            Some(asked(prefix, blocks[at]->Text_text))
        } else {
            None
        }),
    decreases blocks.len(),
{
    if at > 0 {
        let rest = blocks.drop_first();
        assert(!(blocks[0] is Text));
        assert forall|i: int| 0 <= i < at - 1 implies !(#[trigger] rest[i] is Text) by {
            assert(rest[i] == blocks[i + 1]);
        }
        law_the_first_text_is_the_request(prefix, rest, at - 1);
        assert(first_text(blocks) == first_text(rest));
    }
}

/// A call can come to any failure, and to anything of what it is made for.
pub proof fn law_every_outcome_of_a_call_is_taken(call: CallView, answer: Answer)
    ensures
        answer is Failed && !(call is InspectPath) ==> call.accepts(answer),
        call is InspectPath && answer is Path ==> call.accepts(answer),
        call is LoadBinding && answer is Binding ==> call.accepts(answer),
        (call is EnsureSession || call is NewSession || call is CloseSession) && answer is Summary
            ==> call.accepts(answer),
        call is ShowSession && answer is Record ==> call.accepts(answer),
        call is ListSessions && answer is Records ==> call.accepts(answer),
        call is History && answer is History ==> call.accepts(answer),
        call is Status && answer is Status ==> call.accepts(answer),
        (call is Prompt || call is Exec) && answer is Reply ==> call.accepts(answer),
        call is Cancel && answer is Cancelled ==> call.accepts(answer),
        call is Shell && answer is Shell ==> call.accepts(answer),
        (call is ReactTyping || call is SetMode || call is SetModel || call is SetOption
            || call is StoreBinding || call is SendMessage) && answer is Done ==> call.accepts(
            answer,
        ),
{
}

/// Step for step the service does what is said here of runs: the handling of a message
/// begins as is said, the call that is pending is the one that comes next, and an answer
/// leads to the stage that comes then.
pub proof fn law_the_service_goes_the_way_of_a_run(
    service: BridgeService,
    message: InboundMessage,
    first: Interaction,
    it: Interaction,
    call: Option<Call>,
    answer: Answer,
    after: Interaction,
)
    requires
        call_ensures(BridgeService::handle_message, (&service, message), first),
        call_ensures(BridgeService::pending, (&service, &it), call),
        call_ensures(BridgeService::advance, (&service, it, answer), after),
    ensures
        first@ == begun(message@),
        call is Some <==> !(it.stage is Finished),
        call matches Some(asked) ==> awaited(service.defaults, it@) == Some(asked@),
        call matches Some(asked) && asked@.accepts(answer) ==> fitting(
            service.defaults,
            it@,
            answer,
        ),
        after@ == next(service.defaults, it@, answer),
        after.message@ == it.message@,
{
}

/// At each stage the pending call concerns the message that is handled: its sender is shown
/// that it is worked on, the context of its own conversation is fetched and stored, and what
/// is sent goes to where it came from.
pub proof fn law_pending_calls_concern_the_message(
    service: BridgeService,
    it: Interaction,
    call: Call,
)
    requires
        call_ensures(BridgeService::pending, (&service, &it), Some(call)),
    ensures
        match it.stage {
            Stage::Typing => call matches Call::ReactTyping(target) && target@
                == it.message.reply_target@,
            Stage::Loading => call matches Call::LoadBinding(key) && key@
                == it.message.conversation@,
            Stage::Checking { binding } => call matches Call::InspectPath(path) && path@
                == binding.cwd@,
            Stage::Entering { binding } => call matches Call::InspectPath(path) && path@
                == binding.cwd@,
            Stage::Ensuring { binding, call: next } => call matches Call::EnsureSession(selector)
                && selector.cwd@ == binding.cwd@ && selector.agent@ == binding.agent@ && opt_text(
                selector.session_name,
            ) == opt_text(binding.session_name) && selector.permission_mode
                == binding.permission_mode,
            Stage::Asking { binding, call: asked } => call@ == asked@,
            Stage::Storing { binding, reply } => call matches Call::StoreBinding {
                key,
                binding: kept,
            } && key@ == it.message.conversation@ && kept@ == binding@,
            Stage::Replying { process_ok, reply } => call matches Call::SendMessage {
                target,
                blocks,
            } && target@ == it.message.reply_target@,
            Stage::Finished { process_ok, failure } => false,
        },
{
}

proof fn lemma_last_answer(defaults: ServiceDefaults, it: InteractionView, answers: Seq<Answer>)
    requires
        fitting_run(defaults, it, answers),
        run(defaults, it, answers).stage is Finished,
        !(it.stage is Typing),
        !(it.stage is Finished),
    ensures
        answers.len() > 0,
        run(defaults, it, answers).typing_reaction_ok == it.typing_reaction_ok,
        run(defaults, it, answers).message == it.message,
        run(defaults, it, answers).stage->Finished_failure == (match answers.last() {
            Answer::Failed(error) => Some(error@),
            _ => None,
        }),
    decreases answers.len(),
{
    lemma_step(defaults, it, answers);
    let then = next(defaults, it, answers.first());
    let rest = answers.drop_first();
    lemma_step(defaults, then, rest);
    if it.stage is Replying {
        lemma_refused(defaults, it, answers);
        assert(answers.last() == answers.first());
    } else {
        lemma_last_answer(defaults, then, rest);
        assert(rest.last() == answers.last());
    }
}

/// When all is done, it is known whether the sender could be shown that their message was
/// worked on, by the first answer, and whether the reply could be sent, by the last; if it
/// could not, the reason is.
pub proof fn law_the_end_tells_how_it_went(
    defaults: ServiceDefaults,
    message: InboundMessageView,
    answers: Seq<Answer>,
)
    requires
        fitting_run(defaults, begun(message), answers),
        run(defaults, begun(message), answers).stage is Finished,
    ensures
        answers.len() > 1,
        run(defaults, begun(message), answers).typing_reaction_ok == !(answers[0] is Failed),
        run(defaults, begun(message), answers).message == message,
        run(defaults, begun(message), answers).stage->Finished_failure == (match answers.last() {
            Answer::Failed(error) => Some(error@),
            _ => None,
        }),
{
    let zero = begun(message);
    lemma_step(defaults, zero, answers);
    let one = next(defaults, zero, answers[0]);
    lemma_last_answer(defaults, one, answers.drop_first());
    assert(answers.drop_first().last() == answers.last());
}

} // verus!
